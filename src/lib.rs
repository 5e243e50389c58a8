//! A key/value store that caches entries in memory and mirrors every
//! mutation to one file per key under a root directory.
//!
//! The library holds the store's decisions: which file operation an action
//! needs, how its outcome changes the cache and what the caller is told, and
//! when a shutdown may close the dispatch queue. The runtime that moves
//! actions between tasks and performs the file operations drives these
//! decisions from outside.

pub mod action;
pub mod store;
pub mod laws;
pub mod client;
pub mod shutdown;
