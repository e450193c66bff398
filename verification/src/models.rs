//! Token lists as the remote registry publishes them, reduced to the fields
//! that a logo lookup reads.

use vstd::prelude::*;
use crate::text::{eq_folded, eq_ignore_ascii_case, fold_ascii_case, fold_case};

verus! {

/// One token of a list: its contract address and, where known, its logo.
#[derive(Debug, Clone, PartialEq, Eq)]
pub struct TokenInfo {
    pub address: String,
    pub logo_uri: Option<String>,
}

/// The tokens of one network, in the order the registry lists them.
#[derive(Debug, Clone, PartialEq, Eq)]
pub struct TokenList {
    pub tokens: Vec<TokenInfo>,
}

/// Mathematical model of a [`TokenInfo`].
pub struct TokenView {
    pub address: Seq<char>,
    pub logo_uri: Option<Seq<char>>,
}

/// The characters of an optional string.
pub open spec fn opt_view(s: Option<String>) -> Option<Seq<char>> {
    match s {
        Some(s) => Some(s@),
        None => None,
    }
}

impl View for TokenInfo {
    type V = TokenView;

    open spec fn view(&self) -> TokenView {
        TokenView { address: self.address@, logo_uri: opt_view(self.logo_uri) }
    }
}

impl View for TokenList {
    type V = Seq<TokenView>;

    open spec fn view(&self) -> Seq<TokenView> {
        self.tokens@.map_values(|t: TokenInfo| t@)
    }
}

/// The logo of the first token whose address equals `address` up to ASCII
/// case. `None` where no token matches or the first match carries no logo.
pub open spec fn find_logo(tokens: Seq<TokenView>, address: Seq<char>) -> Option<Seq<char>>
    decreases tokens.len(),
{
    if tokens.len() == 0 {
        None
    } else if eq_ignore_ascii_case(tokens[0].address, address) {
        tokens[0].logo_uri
    } else {
        find_logo(tokens.drop_first(), address)
    }
}

/// The first match wins: a token that matches, with no match before it,
/// decides the lookup.
pub proof fn lemma_find_logo_first_match(tokens: Seq<TokenView>, address: Seq<char>, i: int)
    requires
        0 <= i < tokens.len(),
        eq_ignore_ascii_case(tokens[i].address, address),
        forall|j: int| 0 <= j < i ==> !eq_ignore_ascii_case(tokens[j].address, address),
    ensures
        find_logo(tokens, address) == tokens[i].logo_uri,
    decreases i,
{
    if i > 0 {
        let rest = tokens.drop_first();
        assert(!eq_ignore_ascii_case(tokens[0].address, address));
        assert forall|j: int| 0 <= j < i - 1 implies !eq_ignore_ascii_case(
            rest[j].address,
            address,
        ) by {
            assert(rest[j] == tokens[j + 1]);
        }
        lemma_find_logo_first_match(rest, address, i - 1);
    }
}

/// A list without a matching token has no logo for the address.
pub proof fn lemma_find_logo_no_match(tokens: Seq<TokenView>, address: Seq<char>)
    requires
        forall|j: int| 0 <= j < tokens.len() ==> !eq_ignore_ascii_case(tokens[j].address, address),
    ensures
        find_logo(tokens, address) is None,
    decreases tokens.len(),
{
    if tokens.len() > 0 {
        let rest = tokens.drop_first();
        assert forall|j: int| 0 <= j < rest.len() implies !eq_ignore_ascii_case(
            rest[j].address,
            address,
        ) by {
            assert(rest[j] == tokens[j + 1]);
        }
        lemma_find_logo_no_match(rest, address);
    }
}

/// A logo that the lookup finds is the logo of a token with that address.
pub proof fn lemma_find_logo_is_of_a_match(tokens: Seq<TokenView>, address: Seq<char>)
    requires
        find_logo(tokens, address) is Some,
    ensures
        exists|i: int|
            0 <= i < tokens.len() && eq_ignore_ascii_case(
                (#[trigger] tokens[i]).address,
                address,
            ) && tokens[i].logo_uri == find_logo(tokens, address),
    decreases tokens.len(),
{
    if tokens.len() > 0 && !eq_ignore_ascii_case(tokens[0].address, address) {
        let rest = tokens.drop_first();
        lemma_find_logo_is_of_a_match(rest, address);
        let i = choose|i: int|
            0 <= i < rest.len() && eq_ignore_ascii_case((#[trigger] rest[i]).address, address)
                && rest[i].logo_uri == find_logo(rest, address);
        assert(tokens[i + 1] == rest[i]);
    } else {
        assert(tokens[0].logo_uri == find_logo(tokens, address));
    }
}

/// Address matching ignores case: two spellings of an address that differ
/// only in the case of ASCII letters find the same logo in every list.
pub proof fn lemma_find_logo_ignores_case(tokens: Seq<TokenView>, a: Seq<char>, b: Seq<char>)
    requires
        eq_ignore_ascii_case(a, b),
    ensures
        find_logo(tokens, a) == find_logo(tokens, b),
    decreases tokens.len(),
{
    if tokens.len() > 0 {
        lemma_find_logo_ignores_case(tokens.drop_first(), a, b);
    }
}

impl TokenList {
    /// Looks up the logo of the token at `address`, ignoring the case of
    /// ASCII letters. The first token with that address decides.
    pub fn get_logo_url(&self, address: &str) -> (url: Option<String>)
        ensures
            opt_view(url) == find_logo(self@, address@),
    {
        let folded = fold_ascii_case(address);
        let mut i: usize = 0;
        assert(self@.skip(0) =~= self@);
        while i < self.tokens.len()
            invariant
                i <= self.tokens.len(),
                folded@ == fold_case(address@),
                find_logo(self@, address@) == find_logo(self@.skip(i as int), address@),
            decreases self.tokens.len() - i,
        {
            let token = &self.tokens[i];
            proof {
                let rest = self@.skip(i as int);
                assert(rest[0] == token@);
                assert(rest.drop_first() =~= self@.skip(i + 1));
            }
            if eq_folded(token.address.as_str(), &folded) {
                return match &token.logo_uri {
                    Some(uri) => Some(uri.clone()),
                    None => None,
                };
            }
            i = i + 1;
        }
        None
    }
}

} // verus!
