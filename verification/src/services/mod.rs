//! The cache in front of the remote registry, and the rules of fetching
//! from it.

pub mod cache;
pub mod coingecko;
