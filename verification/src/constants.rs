//! Fixed values of the service.

use vstd::prelude::*;

verus! {

/// The placeholder address that stands for a chain's native currency.
pub const ZERO_ADDRESS: &'static str = "0x0000000000000000000000000000000000000000";

/// Logo answered for the native currency of every chain but Polygon.
pub const ETH_LOGO_URL: &'static str =
    "https://assets.coingecko.com/coins/images/279/standard/ethereum.png";

/// Logo answered for the native currency of Polygon.
pub const POL_LOGO_URL: &'static str =
    "https://assets.coingecko.com/coins/images/32440/standard/polygon.png";

/// The chain identifier of Polygon, as callers write it.
pub const POLYGON_CHAIN_ID: &'static str = "137";

/// Prefix of every cache key; the chain identifier follows it.
pub const CACHE_KEY_PREFIX: &'static str = "tokenlist:";

/// Time-to-live of a cache entry where none is configured, in seconds.
pub const DEFAULT_TTL_SECS: u64 = 3600;

} // verus!
