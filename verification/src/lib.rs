//! A typed client core for Bitcoin Core's JSON-RPC interface.
//!
//! The crate builds well-formed JSON-RPC request envelopes for a closed
//! catalog of remote methods, hands them to a caller-supplied send operation,
//! checks that the response echoes the request's identifier, and surfaces
//! every failure through one typed error taxonomy.  Credentials may come from
//! an explicit user/password pair or from a Bitcoin Core cookie file.

pub mod auth;
pub mod client;
pub mod digits;
pub mod envelope;
pub mod error;
pub mod methods;
pub mod rpc;
pub mod v28;
