//! A pool of pending transactions held in memory.

pub mod mempool;
