//! The time-boxed cache: entries that carry their own expiry, the key under
//! which a chain's token list is kept, and what a stored entry answers.
//!
//! The backing store and the clock belong to the host. Functions here take
//! what was read from the store and the current time in Unix seconds, and
//! give back what is to be written.

use vstd::prelude::*;
use crate::constants::{CACHE_KEY_PREFIX, DEFAULT_TTL_SECS};
use crate::decimal::{parse_u64, spec_parse_u64};
use crate::models::{find_logo, opt_view, TokenList, TokenView};

verus! {

/// A cached value with the time at which it stops being valid.
#[derive(Debug, Clone, PartialEq, Eq)]
pub struct Cache<T> {
    pub value: T,
    pub expires_at: u64,
}

/// Mathematical model of a [`Cache`] entry.
pub struct CacheView<V> {
    pub value: V,
    pub expires_at: u64,
}

impl<T: View> View for Cache<T> {
    type V = CacheView<T::V>;

    open spec fn view(&self) -> CacheView<T::V> {
        CacheView { value: self.value@, expires_at: self.expires_at }
    }
}

/// The model of an optional stored entry.
pub open spec fn stored_view<T: View>(stored: Option<Cache<T>>) -> Option<CacheView<T::V>> {
    match stored {
        Some(entry) => Some(entry@),
        None => None,
    }
}

/// The value a store lookup answers at time `now`: that of the stored entry
/// while `now` is before its expiry, and nothing otherwise. A missing entry
/// and an expired one answer alike.
pub open spec fn fresh_value<V>(stored: Option<CacheView<V>>, now: u64) -> Option<V> {
    match stored {
        Some(entry) => if now < entry.expires_at {
            Some(entry.value)
        } else {
            None
        },
        None => None,
    }
}

/// What a stored token list answers for an address at time `now`: nothing
/// where no valid list is stored; otherwise the token's logo, or the empty
/// string where the list has none for the address.
pub open spec fn cached_url(
    stored: Option<CacheView<Seq<TokenView>>>,
    now: u64,
    address: Seq<char>,
) -> Option<Seq<char>> {
    match fresh_value(stored, now) {
        Some(tokens) => match find_logo(tokens, address) {
            Some(url) => Some(url),
            None => Some(Seq::empty()),
        },
        None => None,
    }
}

/// The key under which the token list of a chain is cached.
pub open spec fn key_of(chain_id: Seq<char>) -> Seq<char> {
    CACHE_KEY_PREFIX@ + chain_id
}

/// The time-to-live that a configured value stands for: its value as a
/// `u64`, and the default where it is missing or no number.
pub open spec fn ttl_of(configured: Option<Seq<char>>) -> u64 {
    match configured {
        Some(text) => match spec_parse_u64(text) {
            Some(secs) => secs,
            None => DEFAULT_TTL_SECS,
        },
        None => DEFAULT_TTL_SECS,
    }
}

/// A write to the backing store: the entry to put under a key, replacing
/// whatever is there.
#[derive(Debug, Clone, PartialEq, Eq)]
pub struct CacheWrite<T> {
    pub key: String,
    pub entry: Cache<T>,
}

impl<T> Cache<T> {
    /// Whether the entry is no longer valid at time `now`.
    pub fn is_expired(&self, now: u64) -> (expired: bool)
        ensures
            expired == (now >= self.expires_at),
    {
        now >= self.expires_at
    }

    /// An entry written at time `now` that stays valid for `ttl_secs`.
    pub fn new(value: T, now: u64, ttl_secs: u64) -> (entry: Self)
        requires
            now + ttl_secs <= u64::MAX,
        ensures
            entry.value == value,
            entry.expires_at == now + ttl_secs,
    {
        Cache { value, expires_at: now + ttl_secs }
    }

    /// The store write that puts `value` under `key` at time `now`, to stay
    /// valid for `ttl_secs`.
    pub fn set_value(key: &str, value: T, now: u64, ttl_secs: u64) -> (write: CacheWrite<T>)
        requires
            now + ttl_secs <= u64::MAX,
        ensures
            write.key@ == key@,
            write.entry.value == value,
            write.entry.expires_at == now + ttl_secs,
    {
        CacheWrite { key: key.to_owned(), entry: Cache::new(value, now, ttl_secs) }
    }

    /// The value of what was read from the store, if there is an entry and
    /// it is still valid at time `now`.
    pub fn get_value(stored: Option<Cache<T>>, now: u64) -> (value: Option<T>)
        ensures
            value == match stored {
                Some(entry) => if now < entry.expires_at {
                    Some(entry.value)
                } else {
                    None
                },
                None => None,
            },
    {
        match stored {
            Some(entry) => {
                if entry.is_expired(now) {
                    None
                } else {
                    Some(entry.value)
                }
            },
            None => None,
        }
    }
}

/// The key under which the token list of a chain is cached.
pub fn cache_key(chain_id: &str) -> (key: String)
    ensures
        key@ == key_of(chain_id@),
{
    let mut key = CACHE_KEY_PREFIX.to_owned();
    key.append(chain_id);
    key
}

/// Answers an address from what the store holds for its chain.
///
/// `None` means that no valid list is stored, so the registry has to be
/// asked. `Some` of the empty string means that a valid list is stored and
/// has no logo for the address.
pub fn get_url_from_cache(stored: Option<Cache<TokenList>>, now: u64, address: &str) -> (url:
    Option<String>)
    ensures
        opt_view(url) == cached_url(stored_view(stored), now, address@),
{
    match Cache::get_value(stored, now) {
        Some(list) => match list.get_logo_url(address) {
            Some(url) => Some(url),
            None => Some(String::new()),
        },
        None => None,
    }
}

/// The store write that caches a chain's token list at time `now`.
pub fn set_urls_in_cache(chain_id: &str, token_list: TokenList, now: u64, ttl_secs: u64) -> (write:
    CacheWrite<TokenList>)
    requires
        now + ttl_secs <= u64::MAX,
    ensures
        write.key@ == key_of(chain_id@),
        write.entry.value == token_list,
        write.entry.expires_at == now + ttl_secs,
{
    let key = cache_key(chain_id);
    Cache::set_value(key.as_str(), token_list, now, ttl_secs)
}

/// The time-to-live of cache entries in seconds, from its configured value.
pub fn cache_ttl_secs(configured: Option<&str>) -> (ttl: u64)
    ensures
        ttl == ttl_of(
            match configured {
                Some(text) => Some(text@),
                None => None,
            },
        ),
{
    match configured {
        Some(text) => match parse_u64(text) {
            Some(secs) => secs,
            None => DEFAULT_TTL_SECS,
        },
        None => DEFAULT_TTL_SECS,
    }
}

} // verus!
