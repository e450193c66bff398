//! What holds of every resolution.

use vstd::prelude::*;
use crate::config::{holds_chain, network_id_of};
use crate::constants::{CACHE_KEY_PREFIX, ETH_LOGO_URL, POLYGON_CHAIN_ID, POL_LOGO_URL, ZERO_ADDRESS};
use crate::models::{find_logo, lemma_find_logo_ignores_case, lemma_find_logo_is_of_a_match,
    TokenView};
use crate::resolver::model::{clear_all, drive, lookup, resolve, Host, Remote, Run, StoreView};
use crate::resolver::{answer_for, Outcome, ResolverView};
use crate::services::cache::{fresh_value, key_of, CacheView};
use crate::services::coingecko::{is_success, FetchError};
use crate::text::eq_ignore_ascii_case;

verus! {

/// The registry knows the chain: it holds a network identifier for it that
/// is not empty.
pub open spec fn supported(cfg: ResolverView, chain_id: Seq<char>) -> bool {
    network_id_of(cfg.chains, chain_id).len() > 0
}

/// The answer of a resolution that neither read the cache nor asked the
/// registry nor wrote anything.
pub open spec fn untouched(outcome: Outcome, host: Host) -> Run {
    Run { result: Some(outcome), store: host.store, reads: 0, fetches: 0, writes: 0 }
}

/// A chain identifier that is no number, or a number that the registry does
/// not hold, is unsupported, and finding that out takes no access to the
/// cache or the registry.
pub proof fn lemma_unknown_chain_is_unsupported(
    cfg: ResolverView,
    chain_id: Seq<char>,
    address: Seq<char>,
    host: Host,
)
    requires
        address != ZERO_ADDRESS@,
        !holds_chain(cfg.chains, chain_id),
    ensures
        resolve(cfg, chain_id, address, host) == untouched(Outcome::UnsupportedChain, host),
{
    reveal_with_fuel(drive, 5);
}

/// The placeholder address resolves to the logo of the native currency:
/// Polygon's for chain `137`, Ethereum's for every other chain, registered
/// or not. Neither the cache nor the registry is touched.
pub proof fn lemma_native_currency_shortcut(cfg: ResolverView, chain_id: Seq<char>, host: Host)
    ensures
        chain_id == POLYGON_CHAIN_ID@ ==> resolve(cfg, chain_id, ZERO_ADDRESS@, host) == untouched(
            Outcome::Redirect(POL_LOGO_URL@),
            host,
        ),
        chain_id != POLYGON_CHAIN_ID@ ==> resolve(cfg, chain_id, ZERO_ADDRESS@, host) == untouched(
            Outcome::Redirect(ETH_LOGO_URL@),
            host,
        ),
{
    reveal_with_fuel(drive, 5);
}

/// The registry delivers the list `tokens`: it replies with success and
/// with that list, and the expiry time of the entry fits in `u64`.
pub open spec fn delivers(cfg: ResolverView, host: Host, tokens: Seq<TokenView>) -> bool {
    &&& host.remote matches Remote::Responds { status, body }
    &&& is_success(status)
    &&& body == Some(tokens)
    &&& host.write_at + cfg.ttl_secs <= u64::MAX
}

/// The entry that caches `tokens` when written by `host`.
pub open spec fn entry_of(cfg: ResolverView, host: Host, tokens: Seq<TokenView>) -> CacheView<
    Seq<TokenView>,
> {
    CacheView { value: tokens, expires_at: (host.write_at + cfg.ttl_secs) as u64 }
}

/// The run that reads the cache, fetches `tokens`, caches them under the
/// chain's key and answers from them.
pub open spec fn fetching_run(
    cfg: ResolverView,
    chain_id: Seq<char>,
    address: Seq<char>,
    host: Host,
    tokens: Seq<TokenView>,
) -> Run {
    Run {
        result: Some(answer_for(tokens, address)),
        store: host.store.insert(key_of(chain_id), entry_of(cfg, host, tokens)),
        reads: 1,
        fetches: 1,
        writes: 1,
    }
}

/// The resolution fetched the list `tokens` and cached it: the registry was
/// asked and delivered the list.
pub open spec fn fetched(
    cfg: ResolverView,
    chain_id: Seq<char>,
    address: Seq<char>,
    host: Host,
    tokens: Seq<TokenView>,
) -> bool {
    &&& resolve(cfg, chain_id, address, host).fetches == 1
    &&& delivers(cfg, host, tokens)
}

/// A fetch leaves the list in the cache under the chain's key, valid for
/// the time-to-live from the time of writing, and answers from the list.
pub proof fn lemma_fetch_populates_cache(
    cfg: ResolverView,
    chain_id: Seq<char>,
    address: Seq<char>,
    host: Host,
    tokens: Seq<TokenView>,
)
    requires
        fetched(cfg, chain_id, address, host, tokens),
    ensures
        address != ZERO_ADDRESS@,
        supported(cfg, chain_id),
        fresh_value(lookup(host.store, key_of(chain_id)), host.read_at) is None,
        resolve(cfg, chain_id, address, host) == fetching_run(cfg, chain_id, address, host, tokens),
{
    reveal_with_fuel(drive, 5);
}

/// A valid entry answers every address of its chain, found or not, without
/// asking the registry and without changing the store.
pub proof fn lemma_valid_entry_answers(
    cfg: ResolverView,
    chain_id: Seq<char>,
    address: Seq<char>,
    host: Host,
    tokens: Seq<TokenView>,
)
    requires
        address != ZERO_ADDRESS@,
        supported(cfg, chain_id),
        fresh_value(lookup(host.store, key_of(chain_id)), host.read_at) == Some(tokens),
    ensures
        resolve(cfg, chain_id, address, host) == (Run {
            result: Some(answer_for(tokens, address)),
            store: host.store,
            reads: 1,
            fetches: 0,
            writes: 0,
        }),
{
    reveal_with_fuel(drive, 5);
}

/// Without a valid entry, be it missing or expired, the registry is asked
/// exactly once, whatever it replies. Where it delivers a list, the list
/// replaces what was cached and the answer comes from it. Where the expiry
/// time of the entry does not fit in `u64`, nothing is written, and a list
/// that the registry sends ends the resolution in failure.
pub proof fn lemma_miss_fetches_once(
    cfg: ResolverView,
    chain_id: Seq<char>,
    address: Seq<char>,
    host: Host,
)
    requires
        address != ZERO_ADDRESS@,
        supported(cfg, chain_id),
        fresh_value(lookup(host.store, key_of(chain_id)), host.read_at) is None,
    ensures
        resolve(cfg, chain_id, address, host).reads == 1,
        resolve(cfg, chain_id, address, host).fetches == 1,
        forall|tokens: Seq<TokenView>| #[trigger]
            delivers(cfg, host, tokens) ==> resolve(cfg, chain_id, address, host) == fetching_run(
                cfg,
                chain_id,
                address,
                host,
                tokens,
            ),
        host.write_at + cfg.ttl_secs > u64::MAX ==> {
            &&& resolve(cfg, chain_id, address, host).writes == 0
            &&& resolve(cfg, chain_id, address, host).store == host.store
            &&& (host.remote matches Remote::Responds { status, body } && is_success(status)
                && body is Some) ==> resolve(cfg, chain_id, address, host).result is None
        },
{
    reveal_with_fuel(drive, 5);
}

/// One fetch serves the whole chain: after a resolution that fetched the
/// chain's list, a resolution of any address on that chain before the entry
/// expires asks the registry nothing and answers from the fetched list.
pub proof fn lemma_fetched_list_serves_chain(
    cfg: ResolverView,
    chain_id: Seq<char>,
    first_address: Seq<char>,
    first: Host,
    tokens: Seq<TokenView>,
    other_address: Seq<char>,
    second: Host,
)
    requires
        fetched(cfg, chain_id, first_address, first, tokens),
        second.store == resolve(cfg, chain_id, first_address, first).store,
        second.read_at < first.write_at + cfg.ttl_secs,
    ensures
        resolve(cfg, chain_id, other_address, second).fetches == 0,
        resolve(cfg, chain_id, other_address, second).store == second.store,
        other_address != ZERO_ADDRESS@ ==> resolve(cfg, chain_id, other_address, second).result
            == Some(answer_for(tokens, other_address)),
{
    lemma_fetch_populates_cache(cfg, chain_id, first_address, first, tokens);
    if other_address == ZERO_ADDRESS@ {
        lemma_native_currency_shortcut(cfg, chain_id, second);
    } else {
        lemma_valid_entry_answers(cfg, chain_id, other_address, second, tokens);
    }
}

/// An expired entry is fetched anew: after a resolution that fetched the
/// chain's list, a resolution of the same address once the time-to-live has
/// passed asks the registry exactly once. Where the registry delivers a
/// list again, that list replaces the expired one, valid for the
/// time-to-live from the new time of writing, and the answer comes from the
/// new list, not from the expired one.
pub proof fn lemma_expired_entry_is_refetched(
    cfg: ResolverView,
    chain_id: Seq<char>,
    address: Seq<char>,
    first: Host,
    tokens: Seq<TokenView>,
    second: Host,
    renewed: Seq<TokenView>,
)
    requires
        fetched(cfg, chain_id, address, first, tokens),
        second.store == resolve(cfg, chain_id, address, first).store,
        second.read_at >= first.write_at + cfg.ttl_secs,
    ensures
        resolve(cfg, chain_id, address, second).fetches == 1,
        delivers(cfg, second, renewed) ==> {
            &&& resolve(cfg, chain_id, address, second).result == Some(
                answer_for(renewed, address),
            )
            &&& resolve(cfg, chain_id, address, second).store == second.store.insert(
                key_of(chain_id),
                entry_of(cfg, second, renewed),
            )
            &&& lookup(resolve(cfg, chain_id, address, second).store, key_of(chain_id)) == Some(
                entry_of(cfg, second, renewed),
            )
        },
{
    lemma_fetch_populates_cache(cfg, chain_id, address, first, tokens);
    lemma_miss_fetches_once(cfg, chain_id, address, second);
}

/// A list that has no logo for an address answers `NotFound`, be it that no
/// token has the address or that those that have it carry no logo or an
/// empty one.
pub proof fn lemma_no_logo_is_not_found(tokens: Seq<TokenView>, address: Seq<char>)
    requires
        forall|i: int|
            0 <= i < tokens.len() && eq_ignore_ascii_case((#[trigger] tokens[i]).address, address)
                ==> (tokens[i].logo_uri matches Some(url) ==> url.len() == 0),
    ensures
        answer_for(tokens, address) == Outcome::NotFound,
{
    if find_logo(tokens, address) is Some {
        lemma_find_logo_is_of_a_match(tokens, address);
    }
}

/// An address for which the fetched list has no logo is not found, the list
/// is cached all the same, and the address stays not found without another
/// fetch until the entry expires.
pub proof fn lemma_missing_address_stays_not_found(
    cfg: ResolverView,
    chain_id: Seq<char>,
    address: Seq<char>,
    first: Host,
    tokens: Seq<TokenView>,
    second: Host,
)
    requires
        fetched(cfg, chain_id, address, first, tokens),
        forall|i: int|
            0 <= i < tokens.len() && eq_ignore_ascii_case((#[trigger] tokens[i]).address, address)
                ==> (tokens[i].logo_uri matches Some(url) ==> url.len() == 0),
        second.store == resolve(cfg, chain_id, address, first).store,
        second.read_at < first.write_at + cfg.ttl_secs,
    ensures
        resolve(cfg, chain_id, address, first).result == Some(Outcome::NotFound),
        lookup(resolve(cfg, chain_id, address, first).store, key_of(chain_id)) == Some(
            entry_of(cfg, first, tokens),
        ),
        resolve(cfg, chain_id, address, second).result == Some(Outcome::NotFound),
        resolve(cfg, chain_id, address, second).fetches == 0,
{
    lemma_no_logo_is_not_found(tokens, address);
    lemma_fetch_populates_cache(cfg, chain_id, address, first, tokens);
    lemma_fetched_list_serves_chain(cfg, chain_id, address, first, tokens, address, second);
}

/// The case of an address does not matter: two spellings that differ only
/// in the case of ASCII letters resolve alike, as long as neither is the
/// placeholder address, which is compared exactly.
pub proof fn lemma_resolution_ignores_case(
    cfg: ResolverView,
    chain_id: Seq<char>,
    a: Seq<char>,
    b: Seq<char>,
    host: Host,
)
    requires
        eq_ignore_ascii_case(a, b),
        a != ZERO_ADDRESS@,
        b != ZERO_ADDRESS@,
    ensures
        resolve(cfg, chain_id, a, host) == resolve(cfg, chain_id, b, host),
{
    reveal_with_fuel(drive, 5);
    assert forall|tokens: Seq<TokenView>| answer_for(tokens, a) == answer_for(tokens, b) by {
        lemma_find_logo_ignores_case(tokens, a, b);
    }
}

/// After the store was cleared, every resolution that gets as far as the
/// cache asks the registry exactly once, whatever the store held before
/// and however long it would have been valid. Where the registry delivers a
/// list, the answer comes from that list and the list is cached.
pub proof fn lemma_cleared_store_forces_fetch(
    cfg: ResolverView,
    chain_id: Seq<char>,
    address: Seq<char>,
    before: StoreView,
    host: Host,
    tokens: Seq<TokenView>,
)
    requires
        address != ZERO_ADDRESS@,
        supported(cfg, chain_id),
        host.store == clear_all(before),
    ensures
        resolve(cfg, chain_id, address, host).fetches == 1,
        delivers(cfg, host, tokens) ==> {
            &&& resolve(cfg, chain_id, address, host).result == Some(answer_for(tokens, address))
            &&& lookup(resolve(cfg, chain_id, address, host).store, key_of(chain_id)) == Some(
                entry_of(cfg, host, tokens),
            )
        },
{
    lemma_miss_fetches_once(cfg, chain_id, address, host);
}

/// Each chain has a cache key of its own.
pub proof fn lemma_keys_are_per_chain(a: Seq<char>, b: Seq<char>)
    ensures
        key_of(a) == key_of(b) <==> a == b,
{
    let prefix = CACHE_KEY_PREFIX@;
    assert(key_of(a).subrange(prefix.len() as int, key_of(a).len() as int) =~= a);
    assert(key_of(b).subrange(prefix.len() as int, key_of(b).len() as int) =~= b);
}

/// A resolution leaves the entries of every other chain as they are.
pub proof fn lemma_other_chains_are_untouched(
    cfg: ResolverView,
    chain_id: Seq<char>,
    address: Seq<char>,
    host: Host,
    other_chain_id: Seq<char>,
)
    requires
        other_chain_id != chain_id,
    ensures
        lookup(resolve(cfg, chain_id, address, host).store, key_of(other_chain_id)) == lookup(
            host.store,
            key_of(other_chain_id),
        ),
{
    reveal_with_fuel(drive, 5);
    lemma_keys_are_per_chain(chain_id, other_chain_id);
}

/// The shape of every resolution: the cache is read at most once, the
/// registry is asked only after a read and at most once, and the cache is
/// written only after a fetch and at most once. Without a write the store
/// stays as it was.
pub proof fn lemma_run_shape(cfg: ResolverView, chain_id: Seq<char>, address: Seq<char>, host: Host)
    ensures
        resolve(cfg, chain_id, address, host).writes <= resolve(
            cfg,
            chain_id,
            address,
            host,
        ).fetches <= resolve(cfg, chain_id, address, host).reads <= 1,
        resolve(cfg, chain_id, address, host).writes == 0 ==> resolve(
            cfg,
            chain_id,
            address,
            host,
        ).store == host.store,
{
    reveal_with_fuel(drive, 5);
}

/// A failed fetch is reported and not cached, and only a fetch can fail: an
/// answer from the cache is a logo or `NotFound`, never an upstream error.
pub proof fn lemma_upstream_errors(
    cfg: ResolverView,
    chain_id: Seq<char>,
    address: Seq<char>,
    host: Host,
    e: FetchError,
)
    requires
        resolve(cfg, chain_id, address, host).result == Some(Outcome::UpstreamError(e)),
    ensures
        resolve(cfg, chain_id, address, host).fetches == 1,
        resolve(cfg, chain_id, address, host).store == host.store,
        e == FetchError::RemoteUnavailable <==> (host.remote is Unreachable || (host.remote matches Remote::Responds {
            status,
            body,
        } && !is_success(status))),
{
    reveal_with_fuel(drive, 5);
}

/// A resolution never redirects to the empty address.
pub proof fn lemma_redirect_is_not_empty(
    cfg: ResolverView,
    chain_id: Seq<char>,
    address: Seq<char>,
    host: Host,
    url: Seq<char>,
)
    requires
        resolve(cfg, chain_id, address, host).result == Some(Outcome::Redirect(url)),
    ensures
        url.len() > 0,
{
    reveal_with_fuel(drive, 5);
    reveal_strlit("https://assets.coingecko.com/coins/images/279/standard/ethereum.png");
    reveal_strlit("https://assets.coingecko.com/coins/images/32440/standard/polygon.png");
}

} // verus!
