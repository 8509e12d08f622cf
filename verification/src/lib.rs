//! Peer-connection core of a blockchain node's networking layer.
//!
//! The library establishes outbound connections to remote peers, runs a
//! version handshake, and then drives each live connection as a pair of
//! halves: a request-issuing [`client::PeerClient`] and a message-driven
//! [`server::PeerServer`] session driver, coupled only through a shared
//! fail-once [`error::ErrorSlot`].

pub mod client;
pub mod error;
pub mod handshake;
pub mod protocol;
pub mod seed;
pub mod server;
pub mod transaction;
