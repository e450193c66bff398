//! Resolution of token logo URLs from a remote token-list registry, with a
//! time-boxed cache in front of it.
//!
//! A request names a chain and a token address. The [`resolver`] decides,
//! step by step, what is to be done for it: look the chain up in the
//! registry of [`config`], read the cache of [`services::cache`], ask the
//! remote registry of [`services::coingecko`], cache what it lists, and
//! answer from the list of [`models`]. [`routes`] holds the HTTP face:
//! which route a path names and which reply an outcome gets.
//!
//! The library does no input or output. Its host reads the configuration
//! and the clock, owns the store and the network, and performs what the
//! resolver asks for.

pub mod config;
pub mod constants;
pub mod decimal;
pub mod models;
pub mod resolver;
pub mod routes;
pub mod scan;
pub mod services;
pub mod text;
