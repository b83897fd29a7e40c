//! The options that are read once, at startup.

use vstd::prelude::*;

verus! {

/// The options the server is started with. They do not change afterwards.
#[derive(Clone, Debug, PartialEq, Eq)]
pub struct Settings {
    /// The region that the object-storage client is bound to.
    pub s3_region: String,
    /// How many results the cache holds.
    pub cache_capacity: usize,
    /// How many connections to the relational store are kept open at most.
    pub max_connections: u32,
}

} // verus!
