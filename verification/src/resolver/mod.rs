//! The logo resolver: one step at a time.
//!
//! Resolving a logo alternates decisions with work that only the host can
//! do: reading the cache, asking the registry, decoding its reply, writing
//! the cache. [`Resolver::step`] makes the decisions. The host starts with
//! [`State::Start`] and [`Event::Begin`], performs the [`Action`] that each
//! step names and hands back what came of it as the next [`Event`], until a
//! step names [`Action::Finish`] or [`Action::Fail`].

use std::collections::HashMap;
use vstd::prelude::*;
use crate::config::{get_network_id, get_supported_chains, network_id_of, registry_view,
    supported_chains};
use crate::constants::{ETH_LOGO_URL, POLYGON_CHAIN_ID, POL_LOGO_URL, ZERO_ADDRESS};
use crate::models::{find_logo, opt_view, TokenList, TokenView};
use crate::services::cache::{cache_key, cache_ttl_secs, fresh_value, get_url_from_cache, key_of,
    set_urls_in_cache, stored_view, ttl_of, Cache, CacheView};
use crate::services::coingecko::{check_payload, check_status, is_success, token_list_url,
    url_of, FetchError};
use crate::text::str_equals;

pub mod laws;
pub mod model;

verus! {

/// How a resolution ends.
#[derive(Debug, Clone, PartialEq, Eq)]
pub enum Resolution {
    /// The logo is at this address, which is never empty.
    Redirect(String),
    /// The chain's token list has no logo for the address.
    NotFound,
    /// The registry has no network for the chain.
    UnsupportedChain,
    /// The token list could not be fetched.
    UpstreamError(FetchError),
}

/// Mathematical model of a [`Resolution`].
pub enum Outcome {
    Redirect(Seq<char>),
    NotFound,
    UnsupportedChain,
    UpstreamError(FetchError),
}

impl View for Resolution {
    type V = Outcome;

    open spec fn view(&self) -> Outcome {
        match self {
            Resolution::Redirect(url) => Outcome::Redirect(url@),
            Resolution::NotFound => Outcome::NotFound,
            Resolution::UnsupportedChain => Outcome::UnsupportedChain,
            Resolution::UpstreamError(e) => Outcome::UpstreamError(*e),
        }
    }
}

/// Where a resolution stands between two steps.
#[derive(Debug, Clone, PartialEq, Eq)]
pub enum State {
    /// Nothing has happened yet.
    Start,
    /// The cache is being read.
    AwaitingCache,
    /// The registry has been asked.
    AwaitingResponse,
    /// The registry's reply is being decoded.
    AwaitingBody,
    /// The fetched list is being written to the cache; `answer` is what it
    /// says about the address.
    AwaitingWrite { answer: Resolution },
    /// The resolution is over.
    Done,
}

/// Mathematical model of a [`State`].
pub enum StateView {
    Start,
    AwaitingCache,
    AwaitingResponse,
    AwaitingBody,
    AwaitingWrite { answer: Outcome },
    Done,
}

impl View for State {
    type V = StateView;

    open spec fn view(&self) -> StateView {
        match self {
            State::Start => StateView::Start,
            State::AwaitingCache => StateView::AwaitingCache,
            State::AwaitingResponse => StateView::AwaitingResponse,
            State::AwaitingBody => StateView::AwaitingBody,
            State::AwaitingWrite { answer } => StateView::AwaitingWrite { answer: answer@ },
            State::Done => StateView::Done,
        }
    }
}

/// What the host reports to the resolver.
#[derive(Debug, Clone, PartialEq, Eq)]
pub enum Event {
    /// A request has arrived.
    Begin,
    /// The cache was read at time `now`; `stored` is the entry under the key,
    /// if there is one.
    CacheRead { stored: Option<Cache<TokenList>>, now: u64 },
    /// The request to the registry did not get through.
    TransportFailed,
    /// The registry replied with this status.
    ResponseStatus { status: u16 },
    /// The body of the reply was decoded at time `now`; `list` is `None`
    /// where it is no token list.
    BodyDecoded { list: Option<TokenList>, now: u64 },
    /// The cache entry is written.
    CacheWritten,
    /// The store failed, or an entry could not be encoded or decoded.
    StoreFailed,
}

/// Mathematical model of an [`Event`].
pub enum EventView {
    Begin,
    CacheRead { stored: Option<CacheView<Seq<TokenView>>>, now: u64 },
    TransportFailed,
    ResponseStatus { status: u16 },
    BodyDecoded { list: Option<Seq<TokenView>>, now: u64 },
    CacheWritten,
    StoreFailed,
}

impl View for Event {
    type V = EventView;

    open spec fn view(&self) -> EventView {
        match self {
            Event::Begin => EventView::Begin,
            Event::CacheRead { stored, now } => EventView::CacheRead {
                stored: stored_view(*stored),
                now: *now,
            },
            Event::TransportFailed => EventView::TransportFailed,
            Event::ResponseStatus { status } => EventView::ResponseStatus { status: *status },
            Event::BodyDecoded { list, now } => EventView::BodyDecoded {
                list: match list {
                    Some(list) => Some(list@),
                    None => None,
                },
                now: *now,
            },
            Event::CacheWritten => EventView::CacheWritten,
            Event::StoreFailed => EventView::StoreFailed,
        }
    }
}

/// What the resolver asks of the host.
#[derive(Debug, Clone, PartialEq, Eq)]
pub enum Action {
    /// Read the entry under `key` and the clock; report [`Event::CacheRead`].
    ReadCache { key: String },
    /// Send a `GET` request to `url`; report [`Event::ResponseStatus`] or
    /// [`Event::TransportFailed`].
    SendRequest { url: String },
    /// Decode the body of the reply as a token list and read the clock;
    /// report [`Event::BodyDecoded`].
    DecodeBody,
    /// Put `entry` under `key`, replacing what is there; report
    /// [`Event::CacheWritten`].
    WriteCache { key: String, entry: Cache<TokenList> },
    /// The resolution is over with this result.
    Finish(Resolution),
    /// The resolution is over without a result: an internal failure that
    /// the host reports as such.
    Fail,
}

/// Mathematical model of an [`Action`].
pub enum ActionView {
    ReadCache { key: Seq<char> },
    SendRequest { url: Seq<char> },
    DecodeBody,
    WriteCache { key: Seq<char>, entry: CacheView<Seq<TokenView>> },
    Finish(Outcome),
    Fail,
}

impl View for Action {
    type V = ActionView;

    open spec fn view(&self) -> ActionView {
        match self {
            Action::ReadCache { key } => ActionView::ReadCache { key: key@ },
            Action::SendRequest { url } => ActionView::SendRequest { url: url@ },
            Action::DecodeBody => ActionView::DecodeBody,
            Action::WriteCache { key, entry } => ActionView::WriteCache {
                key: key@,
                entry: entry@,
            },
            Action::Finish(resolution) => ActionView::Finish(resolution@),
            Action::Fail => ActionView::Fail,
        }
    }
}

/// The resolver's configuration: the chain registry and the time-to-live of
/// cache entries. Both are fixed when the resolver is made.
pub struct Resolver {
    chains: HashMap<u32, String>,
    ttl_secs: u64,
}

/// Mathematical model of a [`Resolver`].
pub struct ResolverView {
    pub chains: Map<u32, Seq<char>>,
    pub ttl_secs: u64,
}

impl View for Resolver {
    type V = ResolverView;

    closed spec fn view(&self) -> ResolverView {
        ResolverView { chains: registry_view(self.chains), ttl_secs: self.ttl_secs }
    }
}

/// The logo of a chain's native currency.
pub open spec fn native_logo(chain_id: Seq<char>) -> Seq<char> {
    if chain_id == POLYGON_CHAIN_ID@ {
        POL_LOGO_URL@
    } else {
        ETH_LOGO_URL@
    }
}

/// What a lookup result means for the caller: a logo that is not empty is
/// where to go; an empty one and none at all both mean that there is none.
pub open spec fn answer_of(url: Option<Seq<char>>) -> Outcome {
    match url {
        Some(url) => if url.len() > 0 {
            Outcome::Redirect(url)
        } else {
            Outcome::NotFound
        },
        None => Outcome::NotFound,
    }
}

/// What a token list says about an address.
pub open spec fn answer_for(tokens: Seq<TokenView>, address: Seq<char>) -> Outcome {
    answer_of(find_logo(tokens, address))
}

/// The first step of a resolution.
pub open spec fn begin_model(cfg: ResolverView, chain_id: Seq<char>, address: Seq<char>) -> (
    StateView,
    ActionView,
) {
    if address == ZERO_ADDRESS@ {
        (StateView::Done, ActionView::Finish(Outcome::Redirect(native_logo(chain_id))))
    } else if network_id_of(cfg.chains, chain_id).len() == 0 {
        (StateView::Done, ActionView::Finish(Outcome::UnsupportedChain))
    } else {
        (StateView::AwaitingCache, ActionView::ReadCache { key: key_of(chain_id) })
    }
}

/// The step after the cache was read.
pub open spec fn cache_read_model(
    cfg: ResolverView,
    chain_id: Seq<char>,
    address: Seq<char>,
    stored: Option<CacheView<Seq<TokenView>>>,
    now: u64,
) -> (StateView, ActionView) {
    match fresh_value(stored, now) {
        Some(tokens) => (StateView::Done, ActionView::Finish(answer_for(tokens, address))),
        None => (
            StateView::AwaitingResponse,
            ActionView::SendRequest { url: url_of(network_id_of(cfg.chains, chain_id)) },
        ),
    }
}

/// The step after the registry's reply was decoded.
pub open spec fn body_decoded_model(
    cfg: ResolverView,
    chain_id: Seq<char>,
    address: Seq<char>,
    list: Option<Seq<TokenView>>,
    now: u64,
) -> (StateView, ActionView) {
    match list {
        Some(tokens) => if now + cfg.ttl_secs <= u64::MAX {
            (
                StateView::AwaitingWrite { answer: answer_for(tokens, address) },
                ActionView::WriteCache {
                    key: key_of(chain_id),
                    entry: CacheView { value: tokens, expires_at: (now + cfg.ttl_secs) as u64 },
                },
            )
        } else {
            (StateView::Done, ActionView::Fail)
        },
        None => (
            StateView::Done,
            ActionView::Finish(Outcome::UpstreamError(FetchError::MalformedPayload)),
        ),
    }
}

/// The resolver's decisions: the state that follows `state` on `event`, and
/// what the host is to do next. An event that the state does not wait for
/// ends the resolution in failure, and so does an expiry time beyond `u64`.
pub open spec fn step_model(
    cfg: ResolverView,
    chain_id: Seq<char>,
    address: Seq<char>,
    state: StateView,
    event: EventView,
) -> (StateView, ActionView) {
    match (state, event) {
        (StateView::Start, EventView::Begin) => begin_model(cfg, chain_id, address),
        (StateView::AwaitingCache, EventView::CacheRead { stored, now }) => cache_read_model(
            cfg,
            chain_id,
            address,
            stored,
            now,
        ),
        (StateView::AwaitingResponse, EventView::TransportFailed) => (
            StateView::Done,
            ActionView::Finish(Outcome::UpstreamError(FetchError::RemoteUnavailable)),
        ),
        (StateView::AwaitingResponse, EventView::ResponseStatus { status }) => if is_success(
            status,
        ) {
            (StateView::AwaitingBody, ActionView::DecodeBody)
        } else {
            (
                StateView::Done,
                ActionView::Finish(Outcome::UpstreamError(FetchError::RemoteUnavailable)),
            )
        },
        (StateView::AwaitingBody, EventView::BodyDecoded { list, now }) => body_decoded_model(
            cfg,
            chain_id,
            address,
            list,
            now,
        ),
        (StateView::AwaitingWrite { answer }, EventView::CacheWritten) => (
            StateView::Done,
            ActionView::Finish(answer),
        ),
        _ => (StateView::Done, ActionView::Fail),
    }
}

/// The resolution that a lookup result stands for.
pub fn answer(url: Option<String>) -> (resolution: Resolution)
    ensures
        resolution@ == answer_of(opt_view(url)),
{
    match url {
        Some(url) => {
            if url.as_str().is_empty() {
                Resolution::NotFound
            } else {
                Resolution::Redirect(url)
            }
        },
        None => Resolution::NotFound,
    }
}

/// The logo of a chain's native currency.
pub fn native_logo_url(chain_id: &str) -> (url: String)
    ensures
        url@ == native_logo(chain_id@),
{
    if str_equals(chain_id, POLYGON_CHAIN_ID) {
        POL_LOGO_URL.to_owned()
    } else {
        ETH_LOGO_URL.to_owned()
    }
}

impl Resolver {
    /// A resolver for the registry that `chains_config` describes, with the
    /// time-to-live that `ttl` stands for. `ttl` is `None` where none is
    /// configured.
    pub fn new(chains_config: &str, ttl: Option<&str>) -> (resolver: Resolver)
        ensures
            resolver@.chains == supported_chains(chains_config@),
            resolver@.ttl_secs == ttl_of(
                match ttl {
                    Some(text) => Some(text@),
                    None => None,
                },
            ),
    {
        Resolver { chains: get_supported_chains(chains_config), ttl_secs: cache_ttl_secs(ttl) }
    }

    /// The chain registry.
    pub fn chains(&self) -> (chains: &HashMap<u32, String>)
        ensures
            registry_view(*chains) == self@.chains,
    {
        &self.chains
    }

    /// The time-to-live of cache entries, in seconds.
    pub fn ttl_secs(&self) -> (ttl_secs: u64)
        ensures
            ttl_secs == self@.ttl_secs,
    {
        self.ttl_secs
    }

    /// The first step: the shortcut for the native currency, the registry
    /// lookup, and the request to read the cache.
    fn begin(&self, chain_id: &str, address: &str) -> (next: (State, Action))
        ensures
            (next.0@, next.1@) == begin_model(self@, chain_id@, address@),
    {
        if str_equals(address, ZERO_ADDRESS) {
            return (
                State::Done,
                Action::Finish(Resolution::Redirect(native_logo_url(chain_id))),
            );
        }
        let network_id = get_network_id(&self.chains, chain_id);
        if network_id.as_str().is_empty() {
            return (State::Done, Action::Finish(Resolution::UnsupportedChain));
        }
        (State::AwaitingCache, Action::ReadCache { key: cache_key(chain_id) })
    }

    /// The step after the cache was read: answer from a valid entry, or ask
    /// the registry.
    fn on_cache_read(
        &self,
        chain_id: &str,
        address: &str,
        stored: Option<Cache<TokenList>>,
        now: u64,
    ) -> (next: (State, Action))
        ensures
            (next.0@, next.1@) == cache_read_model(
                self@,
                chain_id@,
                address@,
                stored_view(stored),
                now,
            ),
    {
        match get_url_from_cache(stored, now, address) {
            Some(url) => (State::Done, Action::Finish(answer(Some(url)))),
            None => {
                let network_id = get_network_id(&self.chains, chain_id);
                (
                    State::AwaitingResponse,
                    Action::SendRequest { url: token_list_url(network_id.as_str()) },
                )
            },
        }
    }

    /// The step after the reply was decoded: cache the list and keep what it
    /// says about the address.
    fn on_body_decoded(&self, chain_id: &str, address: &str, list: Option<TokenList>, now: u64) -> (next:
        (State, Action))
        ensures
            (next.0@, next.1@) == body_decoded_model(
                self@,
                chain_id@,
                address@,
                match list {
                    Some(list) => Some(list@),
                    None => None,
                },
                now,
            ),
    {
        match check_payload(list) {
            Ok(list) => {
                if now > u64::MAX - self.ttl_secs {
                    return (State::Done, Action::Fail);
                }
                let found = answer(list.get_logo_url(address));
                let write = set_urls_in_cache(chain_id, list, now, self.ttl_secs);
                (
                    State::AwaitingWrite { answer: found },
                    Action::WriteCache { key: write.key, entry: write.entry },
                )
            },
            Err(e) => (State::Done, Action::Finish(Resolution::UpstreamError(e))),
        }
    }

    /// One decision of a resolution of `address` on chain `chain_id`: takes
    /// the state and what the host reports, and gives the next state and
    /// what the host is to do.
    pub fn step(&self, chain_id: &str, address: &str, state: State, event: Event) -> (next: (
        State,
        Action,
    ))
        ensures
            (next.0@, next.1@) == step_model(self@, chain_id@, address@, state@, event@),
    {
        match state {
            State::Start => match event {
                Event::Begin => self.begin(chain_id, address),
                _ => (State::Done, Action::Fail),
            },
            State::AwaitingCache => match event {
                Event::CacheRead { stored, now } => self.on_cache_read(
                    chain_id,
                    address,
                    stored,
                    now,
                ),
                _ => (State::Done, Action::Fail),
            },
            State::AwaitingResponse => match event {
                Event::TransportFailed => (
                    State::Done,
                    Action::Finish(Resolution::UpstreamError(FetchError::RemoteUnavailable)),
                ),
                Event::ResponseStatus { status } => match check_status(status) {
                    Ok(_) => (State::AwaitingBody, Action::DecodeBody),
                    Err(e) => (State::Done, Action::Finish(Resolution::UpstreamError(e))),
                },
                _ => (State::Done, Action::Fail),
            },
            State::AwaitingBody => match event {
                Event::BodyDecoded { list, now } => self.on_body_decoded(
                    chain_id,
                    address,
                    list,
                    now,
                ),
                _ => (State::Done, Action::Fail),
            },
            State::AwaitingWrite { answer } => match event {
                Event::CacheWritten => (State::Done, Action::Finish(answer)),
                _ => (State::Done, Action::Fail),
            },
            State::Done => (State::Done, Action::Fail),
        }
    }
}

} // verus!
