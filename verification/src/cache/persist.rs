//! Persistence of a cached credential across process restarts.
use vstd::prelude::*;

use super::expiry_cache::CachedToken;

verus! {

/// A persister that does not actually persist anything; every load returns `None`.
/// Relying purely on the in-process cache is sufficient for most callers, and adding real
/// persistence is opt-in.
#[derive(Debug)]
pub struct InMemoryPersister;

impl Default for InMemoryPersister {
    fn default() -> (r: Self)
        ensures
            r == InMemoryPersister,
    {
        InMemoryPersister
    }
}

impl InMemoryPersister {
    /// Loads the persisted credential: there never is one.
    pub fn load<T>(&self) -> (r: Option<CachedToken<T>>)
        ensures
            r is None,
    {
        None
    }

    /// Persists `token`: nothing is kept.
    pub fn save<T>(&self, token: &CachedToken<T>) {
    }

    /// Forgets the persisted credential: there is none to forget.
    pub fn clear(&self) {
    }
}

} // verus!
