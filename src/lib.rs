//! Green trees: immutable, structurally shared syntax trees, built from a
//! stream of start-node / token / finish-node events with deduplication of
//! small nodes and tokens through a cache that many builders may share.

pub mod green;
mod shared_map;
pub mod interner;
pub mod cache;
pub mod builder;
