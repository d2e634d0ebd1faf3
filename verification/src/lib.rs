//! Dependency resolution and artifact caching for networked deployable
//! modules: a retry/backoff policy for unreliable remote calls, a
//! breadth-first transitive dependency resolver, an authoritative-hash
//! resolution policy, a content-addressed local cache, and an error
//! diagnosis table.
use vstd::prelude::*;

pub mod bytes_util;
pub mod cache;
pub mod diagnosis;
pub mod errors;
pub mod hash_resolve;
pub mod integrity;
pub mod manifest;
pub mod metadata;
pub mod id_seq;
pub mod registry;
pub mod resolver;
pub mod retry;
pub mod start_cmd;

verus! {

/// Canonical, comparable, orderable address of a deployable module.
#[derive(Clone, Copy, Debug, PartialEq, Eq, Structural, Hash)]
pub struct ModuleId {
    pub value: u64,
}

impl ModuleId {
    pub fn new(value: u64) -> (r: ModuleId)
        ensures
            r.value == value,
    {
        ModuleId { value }
    }
}

} // verus!
