//! The remote token-list registry: where a network's list is published and
//! how a reply from there is judged.

use vstd::prelude::*;
use crate::models::TokenList;

verus! {

/// Why a token list could not be fetched.
#[derive(Clone, Copy, Debug, PartialEq, Eq, Structural)]
pub enum FetchError {
    /// The request did not get through, or the status was not 200 to 299.
    RemoteUnavailable,
    /// The body of the reply is no token list.
    MalformedPayload,
}

/// The address of the registry, up to the network identifier.
pub const REGISTRY_URL_PREFIX: &'static str = "https://tokens.coingecko.com/";

/// What follows the network identifier in the address of a token list.
pub const REGISTRY_URL_SUFFIX: &'static str = "/all.json";

/// The address at which the registry publishes the list of a network.
pub open spec fn url_of(network_id: Seq<char>) -> Seq<char> {
    REGISTRY_URL_PREFIX@ + network_id + REGISTRY_URL_SUFFIX@
}

/// A status from 200 to 299.
pub open spec fn is_success(status: u16) -> bool {
    200 <= status <= 299
}

/// The address at which the registry publishes the list of a network.
pub fn token_list_url(network_id: &str) -> (url: String)
    ensures
        url@ == url_of(network_id@),
{
    let mut url = REGISTRY_URL_PREFIX.to_owned();
    url.append(network_id);
    url.append(REGISTRY_URL_SUFFIX);
    url
}

/// Judges the status of the registry's reply.
pub fn check_status(status: u16) -> (r: Result<(), FetchError>)
    ensures
        is_success(status) ==> r is Ok,
        !is_success(status) ==> r == Err::<(), FetchError>(FetchError::RemoteUnavailable),
{
    if 200 <= status && status <= 299 {
        Ok(())
    } else {
        Err(FetchError::RemoteUnavailable)
    }
}

/// Judges the decoded body of the registry's reply: `None` stands for a
/// body that is no token list.
pub fn check_payload(decoded: Option<TokenList>) -> (r: Result<TokenList, FetchError>)
    ensures
        r == match decoded {
            Some(list) => Ok::<TokenList, FetchError>(list),
            None => Err::<TokenList, FetchError>(FetchError::MalformedPayload),
        },
{
    match decoded {
        Some(list) => Ok(list),
        None => Err(FetchError::MalformedPayload),
    }
}

} // verus!
