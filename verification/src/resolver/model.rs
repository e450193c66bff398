//! A model of the host that drives the resolver: a store, a clock and a
//! remote registry, and the run of one resolution against them.
//!
//! The model says what a host that follows the protocol does with each
//! action. It is what the laws of the resolver are stated over.

use vstd::prelude::*;
use crate::models::TokenView;
use crate::resolver::{step_model, ActionView, EventView, Outcome, ResolverView, StateView};
use crate::services::cache::CacheView;

verus! {

/// The backing store: the entry under each key that has one.
pub type StoreView = Map<Seq<char>, CacheView<Seq<TokenView>>>;

/// What the remote registry does with a request.
pub enum Remote {
    /// The request does not get through.
    Unreachable,
    /// It replies with `status`; `body` is the token list that the reply
    /// holds, or `None` where it holds none.
    Responds { status: u16, body: Option<Seq<TokenView>> },
}

/// The host's side of one resolution.
pub struct Host {
    /// What the store holds when the resolution begins.
    pub store: StoreView,
    /// What the registry would do if asked.
    pub remote: Remote,
    /// The time at which the cache is read.
    pub read_at: u64,
    /// The time at which a fetched list is written.
    pub write_at: u64,
}

/// What one resolution came to.
pub struct Run {
    /// The result, or `None` where the resolution failed.
    pub result: Option<Outcome>,
    /// What the store holds afterwards.
    pub store: StoreView,
    /// How often the cache was read.
    pub reads: nat,
    /// How often the registry was asked.
    pub fetches: nat,
    /// How often the cache was written.
    pub writes: nat,
}

/// The entry under a key, if there is one.
pub open spec fn lookup(store: StoreView, key: Seq<char>) -> Option<CacheView<Seq<TokenView>>> {
    if store.contains_key(key) {
        Some(store[key])
    } else {
        None
    }
}

/// The store after every key was deleted.
pub open spec fn clear_all(store: StoreView) -> StoreView {
    Map::empty()
}

/// The event with which the host answers an action.
pub open spec fn host_event(host: Host, action: ActionView) -> EventView {
    match action {
        ActionView::ReadCache { key } => EventView::CacheRead {
            stored: lookup(host.store, key),
            now: host.read_at,
        },
        ActionView::SendRequest { url } => match host.remote {
            Remote::Unreachable => EventView::TransportFailed,
            Remote::Responds { status, body } => EventView::ResponseStatus { status },
        },
        ActionView::DecodeBody => EventView::BodyDecoded {
            list: match host.remote {
                Remote::Unreachable => None,
                Remote::Responds { status, body } => body,
            },
            now: host.write_at,
        },
        ActionView::WriteCache { key, entry } => EventView::CacheWritten,
        ActionView::Finish(outcome) => EventView::Begin,
        ActionView::Fail => EventView::Begin,
    }
}

/// The host after it performed an action: only a write changes it.
pub open spec fn host_after(host: Host, action: ActionView) -> Host {
    match action {
        ActionView::WriteCache { key, entry } => Host {
            store: host.store.insert(key, entry),
            ..host
        },
        _ => host,
    }
}

/// One more read, fetch or write on top of what followed.
pub open spec fn counted(action: ActionView, rest: Run) -> Run {
    Run {
        result: rest.result,
        store: rest.store,
        reads: rest.reads + if action is ReadCache {
            1nat
        } else {
            0nat
        },
        fetches: rest.fetches + if action is SendRequest {
            1nat
        } else {
            0nat
        },
        writes: rest.writes + if action is WriteCache {
            1nat
        } else {
            0nat
        },
    }
}

/// A run that ends here.
pub open spec fn ended(result: Option<Outcome>, host: Host) -> Run {
    Run { result, store: host.store, reads: 0, fetches: 0, writes: 0 }
}

/// The run from `state` on `event`: the resolver steps, the host performs
/// the action and reports back, until the resolver finishes or fails, for at
/// most `budget` actions.
pub open spec fn drive(
    cfg: ResolverView,
    chain_id: Seq<char>,
    address: Seq<char>,
    state: StateView,
    event: EventView,
    host: Host,
    budget: nat,
) -> Run
    decreases budget,
{
    let (next, action) = step_model(cfg, chain_id, address, state, event);
    match action {
        ActionView::Finish(outcome) => ended(Some(outcome), host),
        ActionView::Fail => ended(None, host),
        _ => if budget == 0 {
            ended(None, host)
        } else {
            counted(
                action,
                drive(
                    cfg,
                    chain_id,
                    address,
                    next,
                    host_event(host, action),
                    host_after(host, action),
                    (budget - 1) as nat,
                ),
            )
        },
    }
}

/// The resolution of `address` on chain `chain_id` against `host`. No
/// resolution asks more than four things of the host.
pub open spec fn resolve(cfg: ResolverView, chain_id: Seq<char>, address: Seq<char>, host: Host) -> Run {
    drive(cfg, chain_id, address, StateView::Start, EventView::Begin, host, 4)
}

} // verus!
