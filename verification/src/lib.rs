//! Inclusion-list duty cycle for a proposer-builder-separation sidecar.
//!
//! The crate holds the decisions of the sidecar as verified functions on
//! plain values: which proposer duties lie ahead, which pending transactions
//! a previous block could have carried, how an inclusion list and a
//! delegation message are hashed for signing, what a relay's answer means,
//! which observations the cache keeps, and which outside operation the duty
//! loop asks for next.  Network and signer traffic is performed by the
//! program that embeds this crate.

pub mod client;
pub mod config;
pub mod inclusion_boost;
pub mod inclusion_list;
pub mod json;
pub mod lookahead;
pub mod merkle;
pub mod pool;
pub mod text;
pub mod types;
