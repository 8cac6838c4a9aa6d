//! Talking to the signer service directly.

pub mod commit_boost;
