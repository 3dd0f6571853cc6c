//! Verified core of an HTTP gateway to a Nostr Wallet Connect (NIP-47) wallet.
//!
//! The library holds the request and response bodies of the HTTP API, a model of
//! the NIP-47 records that the wallet sends back, and the verified mappings
//! between the two. Network I/O, the HTTP server and JSON encoding live outside.

pub mod wallet;
pub mod models;
pub mod routes;
pub mod config;
