//! A typed client library for the connpass event search API.
//!
//! The library builds validated search queries, flattens them into the
//! repeated-parameter form the service expects, and classifies what the
//! service answers. Every function carries a contract that Verus proves.

pub mod client;
pub mod decimal;
pub mod errors;
pub mod query;
pub mod response;
