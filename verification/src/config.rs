//! The chain registry: which chain identifiers the service knows, and the
//! network identifier the remote registry uses for each.
//!
//! The registry is configured as one string of comma-separated
//! `network:chain` pairs, for example `ethereum:1,polygon-pos:137`.

use std::collections::HashMap;
use vstd::prelude::*;
use vstd::std_specs::hash::group_hash_axioms;
use crate::decimal::{decimal_digits, is_digit, lemma_decimal_round_trip, parse_range, parse_u32,
    spec_parse_u32};
use crate::scan::{lemma_split_concat, lemma_split_no_separator, lemma_trim_identity, pieces,
    span_to_string, split, split_span, trim, trim_span, whole};
use crate::text::{is_whitespace, to_chars};

verus! {

/// Mathematical model of a registry: chain number to network identifier.
pub open spec fn registry_view(chains: HashMap<u32, String>) -> Map<u32, Seq<char>> {
    chains@.map_values(|network: String| network@)
}

/// The pair that one entry of the configuration contributes, if any.
///
/// An entry is trimmed and split at `:`; the first field, trimmed, is the
/// network identifier and the second, trimmed, the chain number. Fields after
/// the second are ignored. An entry that is empty, has a single field, or
/// whose second field is no `u32` contributes nothing.
pub open spec fn entry_pair(entry: Seq<char>) -> Option<(u32, Seq<char>)> {
    let fields = split(trim(entry), ':');
    if trim(entry).len() == 0 || fields.len() < 2 {
        None
    } else {
        match spec_parse_u32(trim(fields[1])) {
            Some(chain) => Some((chain, trim(fields[0]))),
            None => None,
        }
    }
}

/// The registry that a list of entries builds, later entries replacing
/// earlier ones for the same chain.
pub open spec fn registry_of(entries: Seq<Seq<char>>) -> Map<u32, Seq<char>>
    decreases entries.len(),
{
    if entries.len() == 0 {
        Map::empty()
    } else {
        let earlier = registry_of(entries.drop_last());
        match entry_pair(entries.last()) {
            Some((chain, network)) => earlier.insert(chain, network),
            None => earlier,
        }
    }
}

/// The registry that a configuration string describes.
pub open spec fn supported_chains(raw: Seq<char>) -> Map<u32, Seq<char>> {
    registry_of(split(raw, ','))
}

/// The registry holds the chain that a chain identifier names: the
/// identifier is a `u32` and the registry has a network for that number.
pub open spec fn holds_chain(registry: Map<u32, Seq<char>>, chain_id: Seq<char>) -> bool {
    match spec_parse_u32(chain_id) {
        Some(chain) => registry.contains_key(chain),
        None => false,
    }
}

/// The network identifier of a chain. It is empty where the chain
/// identifier is no `u32` and where the registry has no network for it.
pub open spec fn network_id_of(registry: Map<u32, Seq<char>>, chain_id: Seq<char>) -> Seq<char> {
    match spec_parse_u32(chain_id) {
        Some(chain) => if registry.contains_key(chain) {
            registry[chain]
        } else {
            Seq::empty()
        },
        None => Seq::empty(),
    }
}

/// The chain number that one entry of the configuration names, if any.
pub open spec fn entry_chain(entry: Seq<char>) -> Option<u32> {
    match entry_pair(entry) {
        Some((chain, _)) => Some(chain),
        None => None,
    }
}

/// The registry holds exactly the chains that some entry names, each with
/// the network identifier of one such entry.
pub proof fn lemma_registry_entries(entries: Seq<Seq<char>>, chain: u32)
    ensures
        registry_of(entries).contains_key(chain) <==> exists|k: int|
            0 <= k < entries.len() && #[trigger] entry_chain(entries[k]) == Some(chain),
        registry_of(entries).contains_key(chain) ==> exists|k: int|
            0 <= k < entries.len() && #[trigger] entry_pair(entries[k]) == Some(
                (chain, registry_of(entries)[chain]),
            ),
    decreases entries.len(),
{
    if entries.len() > 0 {
        let init = entries.drop_last();
        lemma_registry_entries(init, chain);
        let last = entries.len() - 1;
        assert(forall|k: int| 0 <= k < init.len() ==> init[k] == entries[k]);
        if entry_chain(entries[last]) == Some(chain) {
            assert(entry_pair(entries[last]) == Some((chain, registry_of(entries)[chain])));
        } else if registry_of(init).contains_key(chain) {
            let k = choose|k: int|
                0 <= k < init.len() && #[trigger] entry_pair(init[k]) == Some(
                    (chain, registry_of(init)[chain]),
                );
            assert(entry_pair(entries[k]) == Some((chain, registry_of(entries)[chain])));
            assert(entry_chain(entries[k]) == Some(chain));
        }
        if exists|k: int|
            0 <= k < entries.len() && #[trigger] entry_chain(entries[k]) == Some(chain) {
            let k = choose|k: int|
                0 <= k < entries.len() && #[trigger] entry_chain(entries[k]) == Some(chain);
            if k < last {
                assert(entry_chain(init[k]) == Some(chain));
            }
        }
    }
}

/// Entries are read in order: what is configured after a comma is added to
/// what is configured before it and replaces it where both name a chain.
pub proof fn lemma_supported_chains_concat(a: Seq<char>, b: Seq<char>)
    ensures
        supported_chains(a.push(',') + b) == supported_chains(a).union_prefer_right(
            supported_chains(b),
        ),
{
    lemma_split_concat(a, b, ',');
    lemma_registry_of_concat(split(a, ','), split(b, ','));
}

proof fn lemma_registry_of_concat(earlier: Seq<Seq<char>>, later: Seq<Seq<char>>)
    ensures
        registry_of(earlier + later) == registry_of(earlier).union_prefer_right(
            registry_of(later),
        ),
    decreases later.len(),
{
    let all = earlier + later;
    if later.len() == 0 {
        assert(all =~= earlier);
        assert(registry_of(all) =~= registry_of(earlier).union_prefer_right(registry_of(later)));
    } else {
        lemma_registry_of_concat(earlier, later.drop_last());
        assert(all.drop_last() =~= earlier + later.drop_last());
        assert(all.last() == later.last());
        assert(registry_of(all) =~= registry_of(earlier).union_prefer_right(registry_of(later)));
    }
}

/// A pair `network:chain` registers the network for the chain, whatever
/// the network identifier is, as long as it holds no comma, no colon and no
/// whitespace at its ends.
pub proof fn lemma_supported_chains_pair(network: Seq<char>, chain: u32)
    requires
        forall|i: int| 0 <= i < network.len() ==> network[i] != ',' && network[i] != ':',
        network.len() > 0 ==> !is_whitespace(network[0]) && !is_whitespace(network.last()),
    ensures
        supported_chains(network.push(':') + decimal_digits(chain as nat)) == Map::<
            u32,
            Seq<char>,
        >::empty().insert(chain, network),
{
    let digits = decimal_digits(chain as nat);
    let entry = network.push(':') + digits;
    lemma_decimal_round_trip(chain as nat);
    assert forall|i: int| 0 <= i < digits.len() implies digits[i] != ',' && digits[i] != ':'
        && !is_whitespace(digits[i]) by {
        assert(is_digit(digits[i]));
    }
    assert forall|i: int| 0 <= i < entry.len() implies entry[i] != ',' by {
        if i < network.len() {
            assert(entry[i] == network[i]);
        } else if i > network.len() {
            assert(entry[i] == digits[i - network.len() - 1]);
        }
    }
    lemma_split_no_separator(entry, ',');
    assert(entry.last() == digits.last());
    assert(entry[0] == if network.len() > 0 {
        network[0]
    } else {
        ':'
    });
    lemma_trim_identity(entry);
    lemma_trim_identity(network);
    lemma_trim_identity(digits);
    lemma_split_concat(network, digits, ':');
    lemma_split_no_separator(network, ':');
    lemma_split_no_separator(digits, ':');
    let fields = split(entry, ':');
    assert(fields =~= seq![network, digits]);
    assert(spec_parse_u32(digits) == Some(chain));
    assert(entry_pair(entry) == Some((chain, network)));
    let entries = seq![entry];
    assert(entries.drop_last() =~= Seq::<Seq<char>>::empty());
    assert(registry_of(entries.drop_last()) =~= Map::<u32, Seq<char>>::empty());
    assert(entries.last() == entry);
}

/// Reads the registry from its configuration string. Entries that do not
/// have the form `network:chain` are skipped; of two entries for one chain
/// the later one stays.
pub fn get_supported_chains(raw: &str) -> (chains: HashMap<u32, String>)
    ensures
        registry_view(chains) == supported_chains(raw@),
{
    broadcast use group_hash_axioms;

    let chars = to_chars(raw);
    let entries = split_span(&chars, whole(&chars), ',');
    let mut chains: HashMap<u32, String> = HashMap::new();
    assert(registry_view(chains) =~= Map::<u32, Seq<char>>::empty());
    let mut k: usize = 0;
    while k < entries.len()
        invariant
            chars@ == raw@,
            k <= entries.len(),
            forall|j: int|
                0 <= j < entries.len() ==> (#[trigger] entries[j]).within(0, chars.len() as int),
            pieces(chars@, entries@) == split(raw@, ','),
            registry_view(chains) == registry_of(split(raw@, ',').take(k as int)),
        decreases entries.len() - k,
    {
        let ghost listed = split(raw@, ',');
        let ghost before = registry_view(chains);
        proof {
            assert(listed.take(k + 1).drop_last() =~= listed.take(k as int));
            assert(listed.take(k + 1).last() == listed[k as int]);
            assert(listed[k as int] == pieces(chars@, entries@)[k as int]);
            assert(listed[k as int] == entries[k as int].of(chars@));
        }
        let entry = trim_span(&chars, entries[k]);
        if entry.start < entry.end {
            let fields = split_span(&chars, entry, ':');
            proof {
                assert(pieces(chars@, fields@).len() == fields.len());
            }
            if fields.len() >= 2 {
                let network = trim_span(&chars, fields[0]);
                let number = trim_span(&chars, fields[1]);
                proof {
                    assert(pieces(chars@, fields@)[0] == fields[0].of(chars@));
                    assert(pieces(chars@, fields@)[1] == fields[1].of(chars@));
                }
                match parse_range(&chars, number.start, number.end, 0xffff_ffff) {
                    Some(chain) => {
                        let name = span_to_string(raw, &chars, network);
                        chains.insert(chain as u32, name);
                        assert(registry_view(chains) =~= before.insert(chain as u32, name@));
                    },
                    None => {},
                }
            }
        }
        k = k + 1;
    }
    assert(split(raw@, ',').take(k as int) =~= split(raw@, ','));
    chains
}

/// The network identifier that the registry holds for a chain identifier,
/// or the empty string where it holds none. A chain identifier that is no
/// number names no chain.
pub fn get_network_id(chains: &HashMap<u32, String>, chain_id: &str) -> (network_id: String)
    ensures
        network_id@ == network_id_of(registry_view(*chains), chain_id@),
        !holds_chain(registry_view(*chains), chain_id@) ==> network_id@.len() == 0,
{
    broadcast use group_hash_axioms;

    match parse_u32(chain_id) {
        Some(chain) => match chains.get(&chain) {
            Some(network) => network.clone(),
            None => String::new(),
        },
        None => String::new(),
    }
}

} // verus!
