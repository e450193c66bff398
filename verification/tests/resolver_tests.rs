use std::collections::HashMap;
use token_logos::constants::{ETH_LOGO_URL, POL_LOGO_URL, ZERO_ADDRESS};
use token_logos::models::{TokenInfo, TokenList};
use token_logos::resolver::{answer, native_logo_url, Action, Event, Resolution, Resolver, State};
use token_logos::services::cache::Cache;
use token_logos::services::coingecko::FetchError;

/// What the registry does in a test.
#[derive(Clone)]
enum Remote {
    Unreachable,
    Responds(u16, Option<TokenList>),
}

/// A host with a store in memory, a clock set by hand and a scripted registry.
struct Host {
    store: HashMap<String, Cache<TokenList>>,
    remote: Remote,
    now: u64,
    reads: usize,
    fetches: usize,
    writes: usize,
    requested: Vec<String>,
}

impl Host {
    fn new(remote: Remote) -> Host {
        Host { store: HashMap::new(), remote, now: 1_000, reads: 0, fetches: 0, writes: 0, requested: Vec::new() }
    }

    fn clear_all(&mut self) {
        let keys: Vec<String> = self.store.keys().cloned().collect();
        for key in keys {
            self.store.remove(&key);
        }
    }

    fn resolve(&mut self, resolver: &Resolver, chain_id: &str, address: &str) -> Option<Resolution> {
        let mut state = State::Start;
        let mut event = Event::Begin;
        for _ in 0..8 {
            let (next, action) = resolver.step(chain_id, address, state, event);
            state = next;
            event = match action {
                Action::Finish(resolution) => {
                    assert_eq!(state, State::Done);
                    return Some(resolution);
                }
                Action::Fail => {
                    assert_eq!(state, State::Done);
                    return None;
                }
                Action::ReadCache { key } => {
                    self.reads += 1;
                    Event::CacheRead { stored: self.store.get(&key).cloned(), now: self.now }
                }
                Action::SendRequest { url } => {
                    self.fetches += 1;
                    self.requested.push(url);
                    match &self.remote {
                        Remote::Unreachable => Event::TransportFailed,
                        Remote::Responds(status, _) => Event::ResponseStatus { status: *status },
                    }
                }
                Action::DecodeBody => match &self.remote {
                    Remote::Unreachable => panic!("nothing to decode"),
                    Remote::Responds(_, body) => Event::BodyDecoded { list: body.clone(), now: self.now },
                },
                Action::WriteCache { key, entry } => {
                    self.writes += 1;
                    self.store.insert(key, entry);
                    Event::CacheWritten
                }
            };
        }
        panic!("the resolution did not end");
    }
}

fn token(address: &str, logo: Option<&str>) -> TokenInfo {
    TokenInfo { address: address.to_string(), logo_uri: logo.map(|s| s.to_string()) }
}

fn ethereum_list() -> TokenList {
    TokenList {
        tokens: vec![
            token("0xAAA0000000000000000000000000000000000001", Some("https://img/a.png")),
            token("0xCCC0000000000000000000000000000000000003", None),
            token("0xDDD0000000000000000000000000000000000004", Some("")),
        ],
    }
}

const ADDRESS_A: &str = "0xaaa0000000000000000000000000000000000001";
const ADDRESS_B: &str = "0xbbb0000000000000000000000000000000000002";

fn resolver() -> Resolver {
    Resolver::new("ethereum:1,polygon-pos:137", None)
}

fn redirect(url: &str) -> Option<Resolution> {
    Some(Resolution::Redirect(url.to_string()))
}

#[test]
fn resolver_is_made_from_configuration() {
    let r = Resolver::new("ethereum:1,polygon-pos:137", Some("60"));
    assert_eq!(r.ttl_secs(), 60);
    assert_eq!(r.chains().len(), 2);
    assert_eq!(r.chains().get(&137).map(|s| s.as_str()), Some("polygon-pos"));
    assert_eq!(Resolver::new("", None).ttl_secs(), 3_600);
    assert!(Resolver::new("", None).chains().is_empty());
}

#[test]
fn unknown_chain_is_unsupported_without_any_access() {
    let r = resolver();
    for chain in ["999", "0", "", "abc", "2", "4294967296"] {
        let mut host = Host::new(Remote::Responds(200, Some(ethereum_list())));
        assert_eq!(host.resolve(&r, chain, ADDRESS_A), Some(Resolution::UnsupportedChain), "{:?}", chain);
        assert_eq!((host.reads, host.fetches, host.writes), (0, 0, 0));
        assert!(host.store.is_empty());
    }
}

#[test]
fn chain_id_that_is_no_number_is_unsupported_even_where_chain_zero_is_registered() {
    let r = Resolver::new("genesis:0,ethereum:1", None);
    for chain in ["abc", "-1", "", "4294967296", " 0", "0x0"] {
        let mut host = Host::new(Remote::Responds(200, Some(ethereum_list())));
        assert_eq!(host.resolve(&r, chain, ADDRESS_A), Some(Resolution::UnsupportedChain), "{:?}", chain);
        assert_eq!((host.reads, host.fetches, host.writes), (0, 0, 0));
        assert!(host.store.is_empty());
        let (state, action) = r.step(chain, ADDRESS_A, State::Start, Event::Begin);
        assert_eq!((state, action), (State::Done, Action::Finish(Resolution::UnsupportedChain)));
    }
    let mut host = Host::new(Remote::Responds(200, Some(ethereum_list())));
    assert_eq!(host.resolve(&r, "0", ADDRESS_A), redirect("https://img/a.png"));
    assert_eq!(host.requested, vec!["https://tokens.coingecko.com/genesis/all.json".to_string()]);
}

#[test]
fn chain_with_empty_network_is_unsupported() {
    let r = Resolver::new(":5", None);
    let mut host = Host::new(Remote::Responds(200, Some(ethereum_list())));
    assert_eq!(host.resolve(&r, "5", ADDRESS_A), Some(Resolution::UnsupportedChain));
    assert_eq!((host.reads, host.fetches, host.writes), (0, 0, 0));
}

#[test]
fn zero_address_resolves_to_native_logo_without_any_access() {
    let r = resolver();
    let mut host = Host::new(Remote::Unreachable);
    assert_eq!(host.resolve(&r, "137", ZERO_ADDRESS), redirect(POL_LOGO_URL));
    for chain in ["1", "999", "", "abc", "0137", "+137", "137 "] {
        assert_eq!(host.resolve(&r, chain, ZERO_ADDRESS), redirect(ETH_LOGO_URL), "{:?}", chain);
    }
    assert_eq!((host.reads, host.fetches, host.writes), (0, 0, 0));
    assert!(host.store.is_empty());
}

#[test]
fn native_logo_urls() {
    assert_eq!(native_logo_url("137"), "https://assets.coingecko.com/coins/images/32440/standard/polygon.png");
    assert_eq!(native_logo_url("1"), "https://assets.coingecko.com/coins/images/279/standard/ethereum.png");
    assert_eq!(ZERO_ADDRESS, "0x0000000000000000000000000000000000000000");
}

#[test]
fn zero_address_is_compared_exactly() {
    let r = resolver();
    let mut host = Host::new(Remote::Responds(200, Some(ethereum_list())));
    let upper = "0X0000000000000000000000000000000000000000";
    assert_eq!(host.resolve(&r, "1", upper), Some(Resolution::NotFound));
    assert_eq!(host.fetches, 1);
}

#[test]
fn miss_fetches_caches_and_answers() {
    let r = resolver();
    let mut host = Host::new(Remote::Responds(200, Some(ethereum_list())));
    assert_eq!(host.resolve(&r, "1", ADDRESS_A), redirect("https://img/a.png"));
    assert_eq!((host.reads, host.fetches, host.writes), (1, 1, 1));
    assert_eq!(host.requested, vec!["https://tokens.coingecko.com/ethereum/all.json".to_string()]);
    let entry = host.store.get("tokenlist:1").expect("the list is cached");
    assert_eq!(entry.value, ethereum_list());
    assert_eq!(entry.expires_at, 1_000 + 3_600);
    assert_eq!(host.store.len(), 1);
}

#[test]
fn second_address_on_same_chain_is_answered_from_cache() {
    let r = resolver();
    let mut host = Host::new(Remote::Responds(200, Some(ethereum_list())));
    assert_eq!(host.resolve(&r, "1", ADDRESS_B), Some(Resolution::NotFound));
    assert_eq!(host.fetches, 1);
    host.now = 1_000 + 3_599;
    host.remote = Remote::Unreachable;
    assert_eq!(host.resolve(&r, "1", ADDRESS_A), redirect("https://img/a.png"));
    assert_eq!(host.resolve(&r, "1", "0xccc0000000000000000000000000000000000003"), Some(Resolution::NotFound));
    assert_eq!((host.reads, host.fetches, host.writes), (3, 1, 1));
}

#[test]
fn other_chain_has_its_own_entry() {
    let r = resolver();
    let mut host = Host::new(Remote::Responds(200, Some(ethereum_list())));
    assert_eq!(host.resolve(&r, "1", ADDRESS_A), redirect("https://img/a.png"));
    assert_eq!(host.resolve(&r, "137", ADDRESS_A), redirect("https://img/a.png"));
    assert_eq!(host.fetches, 2);
    assert_eq!(host.requested[1], "https://tokens.coingecko.com/polygon-pos/all.json");
    assert!(host.store.contains_key("tokenlist:1"));
    assert!(host.store.contains_key("tokenlist:137"));
}

#[test]
fn expired_entry_is_fetched_again_exactly_once() {
    let r = resolver();
    let mut host = Host::new(Remote::Responds(200, Some(ethereum_list())));
    assert_eq!(host.resolve(&r, "1", ADDRESS_A), redirect("https://img/a.png"));
    host.now = 1_000 + 3_600;
    host.remote = Remote::Responds(200, Some(TokenList { tokens: vec![token(ADDRESS_A, Some("https://img/new.png"))] }));
    assert_eq!(host.resolve(&r, "1", ADDRESS_A), redirect("https://img/new.png"));
    assert_eq!((host.reads, host.fetches, host.writes), (2, 2, 2));
    assert_eq!(host.store.get("tokenlist:1").map(|e| e.expires_at), Some(1_000 + 3_600 + 3_600));
    assert_eq!(host.resolve(&r, "1", ADDRESS_A), redirect("https://img/new.png"));
    assert_eq!(host.fetches, 2);
}

#[test]
fn zero_ttl_fetches_every_time() {
    let r = Resolver::new("ethereum:1", Some("0"));
    let mut host = Host::new(Remote::Responds(200, Some(ethereum_list())));
    assert_eq!(host.resolve(&r, "1", ADDRESS_A), redirect("https://img/a.png"));
    assert_eq!(host.fetches, 1);
    assert_eq!(host.resolve(&r, "1", ADDRESS_A), redirect("https://img/a.png"));
    assert_eq!(host.fetches, 2);
}

#[test]
fn missing_address_stays_not_found_without_refetch() {
    let r = resolver();
    let mut host = Host::new(Remote::Responds(200, Some(ethereum_list())));
    assert_eq!(host.resolve(&r, "1", ADDRESS_B), Some(Resolution::NotFound));
    assert_eq!(host.fetches, 1);
    host.now += 10;
    assert_eq!(host.resolve(&r, "1", ADDRESS_B), Some(Resolution::NotFound));
    assert_eq!(host.fetches, 1);
}

#[test]
fn empty_and_missing_logo_are_not_found() {
    let r = resolver();
    let mut host = Host::new(Remote::Responds(200, Some(ethereum_list())));
    assert_eq!(host.resolve(&r, "1", "0xddd0000000000000000000000000000000000004"), Some(Resolution::NotFound));
    assert_eq!(host.resolve(&r, "1", "0xccc0000000000000000000000000000000000003"), Some(Resolution::NotFound));
    assert_eq!(host.resolve(&r, "1", "0xddd0000000000000000000000000000000000004"), Some(Resolution::NotFound));
    assert_eq!(host.fetches, 1);
}

#[test]
fn address_matching_ignores_case() {
    let r = resolver();
    let mut host = Host::new(Remote::Responds(200, Some(ethereum_list())));
    assert_eq!(host.resolve(&r, "1", "0xAAA0000000000000000000000000000000000001"), redirect("https://img/a.png"));
    assert_eq!(host.resolve(&r, "1", "0xaaa0000000000000000000000000000000000001"), redirect("https://img/a.png"));
    assert_eq!(host.resolve(&r, "1", "0XaAa0000000000000000000000000000000000001"), redirect("https://img/a.png"));
}

#[test]
fn clear_all_forces_a_fresh_fetch() {
    let r = resolver();
    let mut host = Host::new(Remote::Responds(200, Some(ethereum_list())));
    assert_eq!(host.resolve(&r, "1", ADDRESS_A), redirect("https://img/a.png"));
    assert_eq!(host.resolve(&r, "137", ADDRESS_A), redirect("https://img/a.png"));
    assert_eq!(host.fetches, 2);
    host.clear_all();
    assert!(host.store.is_empty());
    assert_eq!(host.resolve(&r, "1", ADDRESS_A), redirect("https://img/a.png"));
    assert_eq!(host.fetches, 3);
    assert_eq!(host.resolve(&r, "137", ADDRESS_B), Some(Resolution::NotFound));
    assert_eq!(host.fetches, 4);
}

#[test]
fn registry_example() {
    let r = Resolver::new("ethereum:1,polygon-pos:137", None);
    let list = TokenList { tokens: vec![token("0xAAA0000000000000000000000000000000000001", Some("https://img/a.png"))] };
    let mut host = Host::new(Remote::Responds(200, Some(list)));
    assert_eq!(host.resolve(&r, "1", "0xaaa0000000000000000000000000000000000001"), redirect("https://img/a.png"));
    assert_eq!(host.resolve(&r, "1", "0xbbb0000000000000000000000000000000000002"), Some(Resolution::NotFound));
    assert_eq!(host.resolve(&r, "999", "0xaaa0000000000000000000000000000000000001"), Some(Resolution::UnsupportedChain));
    assert_eq!(host.fetches, 1);
}

#[test]
fn unreachable_registry_is_an_upstream_error_and_nothing_is_cached() {
    let r = resolver();
    let mut host = Host::new(Remote::Unreachable);
    assert_eq!(host.resolve(&r, "1", ADDRESS_A), Some(Resolution::UpstreamError(FetchError::RemoteUnavailable)));
    assert_eq!((host.reads, host.fetches, host.writes), (1, 1, 0));
    assert!(host.store.is_empty());
}

#[test]
fn bad_status_is_an_upstream_error_and_nothing_is_cached() {
    let r = resolver();
    for status in [199u16, 300, 404, 500, 503] {
        let mut host = Host::new(Remote::Responds(status, Some(ethereum_list())));
        assert_eq!(host.resolve(&r, "1", ADDRESS_A), Some(Resolution::UpstreamError(FetchError::RemoteUnavailable)));
        assert_eq!((host.reads, host.fetches, host.writes), (1, 1, 0));
        assert!(host.store.is_empty());
    }
}

#[test]
fn malformed_body_is_an_upstream_error_and_nothing_is_cached() {
    let r = resolver();
    let mut host = Host::new(Remote::Responds(200, None));
    assert_eq!(host.resolve(&r, "1", ADDRESS_A), Some(Resolution::UpstreamError(FetchError::MalformedPayload)));
    assert_eq!((host.reads, host.fetches, host.writes), (1, 1, 0));
    assert!(host.store.is_empty());
}

#[test]
fn failed_fetch_keeps_the_expired_entry() {
    let r = resolver();
    let mut host = Host::new(Remote::Responds(200, Some(ethereum_list())));
    assert_eq!(host.resolve(&r, "1", ADDRESS_A), redirect("https://img/a.png"));
    host.now += 3_600;
    host.remote = Remote::Unreachable;
    assert_eq!(host.resolve(&r, "1", ADDRESS_A), Some(Resolution::UpstreamError(FetchError::RemoteUnavailable)));
    assert_eq!(host.store.get("tokenlist:1").map(|e| e.expires_at), Some(4_600));
}

#[test]
fn expiry_beyond_u64_fails() {
    let r = Resolver::new("ethereum:1", Some("18446744073709551615"));
    let mut host = Host::new(Remote::Responds(200, Some(ethereum_list())));
    host.now = 1;
    assert_eq!(host.resolve(&r, "1", ADDRESS_A), None);
    assert!(host.store.is_empty());
    host.now = 0;
    assert_eq!(host.resolve(&r, "1", ADDRESS_A), redirect("https://img/a.png"));
    assert_eq!(host.store.get("tokenlist:1").map(|e| e.expires_at), Some(u64::MAX));
}

#[test]
fn step_begin_reads_the_cache_of_the_chain() {
    let r = resolver();
    let (state, action) = r.step("137", ADDRESS_A, State::Start, Event::Begin);
    assert_eq!(state, State::AwaitingCache);
    assert_eq!(action, Action::ReadCache { key: "tokenlist:137".to_string() });
}

#[test]
fn step_after_valid_entry_finishes() {
    let r = resolver();
    let stored = Some(Cache::new(ethereum_list(), 0, 10));
    let (state, action) = r.step("1", ADDRESS_A, State::AwaitingCache, Event::CacheRead { stored, now: 9 });
    assert_eq!(state, State::Done);
    assert_eq!(action, Action::Finish(Resolution::Redirect("https://img/a.png".to_string())));
}

#[test]
fn step_after_expired_or_missing_entry_asks_the_registry() {
    let r = resolver();
    let stored = Some(Cache::new(ethereum_list(), 0, 10));
    let (state, action) = r.step("1", ADDRESS_A, State::AwaitingCache, Event::CacheRead { stored, now: 10 });
    assert_eq!(state, State::AwaitingResponse);
    assert_eq!(action, Action::SendRequest { url: "https://tokens.coingecko.com/ethereum/all.json".to_string() });
    let (state, action) = r.step("137", ADDRESS_A, State::AwaitingCache, Event::CacheRead { stored: None, now: 10 });
    assert_eq!(state, State::AwaitingResponse);
    assert_eq!(action, Action::SendRequest { url: "https://tokens.coingecko.com/polygon-pos/all.json".to_string() });
}

#[test]
fn step_after_status() {
    let r = resolver();
    let (state, action) = r.step("1", ADDRESS_A, State::AwaitingResponse, Event::ResponseStatus { status: 200 });
    assert_eq!((state, action), (State::AwaitingBody, Action::DecodeBody));
    let (state, action) = r.step("1", ADDRESS_A, State::AwaitingResponse, Event::ResponseStatus { status: 302 });
    assert_eq!(state, State::Done);
    assert_eq!(action, Action::Finish(Resolution::UpstreamError(FetchError::RemoteUnavailable)));
    let (state, action) = r.step("1", ADDRESS_A, State::AwaitingResponse, Event::TransportFailed);
    assert_eq!(state, State::Done);
    assert_eq!(action, Action::Finish(Resolution::UpstreamError(FetchError::RemoteUnavailable)));
}

#[test]
fn step_after_body_writes_the_cache_and_keeps_the_answer() {
    let r = Resolver::new("ethereum:1", Some("60"));
    let (state, action) =
        r.step("1", ADDRESS_B, State::AwaitingBody, Event::BodyDecoded { list: Some(ethereum_list()), now: 500 });
    assert_eq!(state, State::AwaitingWrite { answer: Resolution::NotFound });
    assert_eq!(
        action,
        Action::WriteCache { key: "tokenlist:1".to_string(), entry: Cache { value: ethereum_list(), expires_at: 560 } }
    );
    let (state, action) = r.step("1", ADDRESS_B, state, Event::CacheWritten);
    assert_eq!((state, action), (State::Done, Action::Finish(Resolution::NotFound)));
}

#[test]
fn step_fails_on_store_failure_and_on_unexpected_events() {
    let r = resolver();
    let states = [
        State::Start,
        State::AwaitingCache,
        State::AwaitingResponse,
        State::AwaitingBody,
        State::AwaitingWrite { answer: Resolution::NotFound },
        State::Done,
    ];
    for state in states.iter() {
        let (next, action) = r.step("1", ADDRESS_A, state.clone(), Event::StoreFailed);
        assert_eq!((next, action), (State::Done, Action::Fail));
    }
    let (next, action) = r.step("1", ADDRESS_A, State::Start, Event::CacheWritten);
    assert_eq!((next, action), (State::Done, Action::Fail));
    let (next, action) = r.step("1", ADDRESS_A, State::AwaitingCache, Event::Begin);
    assert_eq!((next, action), (State::Done, Action::Fail));
    let (next, action) = r.step("1", ADDRESS_A, State::AwaitingBody, Event::ResponseStatus { status: 200 });
    assert_eq!((next, action), (State::Done, Action::Fail));
    let (next, action) = r.step("1", ADDRESS_A, State::Done, Event::Begin);
    assert_eq!((next, action), (State::Done, Action::Fail));
}

#[test]
fn answer_of_lookup_results() {
    assert_eq!(answer(Some("https://img/a.png".to_string())), Resolution::Redirect("https://img/a.png".to_string()));
    assert_eq!(answer(Some(String::new())), Resolution::NotFound);
    assert_eq!(answer(None), Resolution::NotFound);
}
