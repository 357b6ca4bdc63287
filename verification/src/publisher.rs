use vstd::prelude::*;

verus! {

/// A cache of publication routing results. The current broker routes every
/// message by scanning the registry, so clearing the cache has nothing to
/// forget; the type keeps the place where such a cache would live.
#[derive(Debug)]
pub struct Cache {}

impl Cache {
    /// Drops every cached routing result.
    pub fn clear(&self) {
    }
}

impl Default for Cache {
    /// An empty cache.
    fn default() -> (r: Cache) {
        Cache {}
    }
}

/// Interface for publishing messages.
#[derive(Debug)]
pub struct Publisher {
    cache: std::sync::Arc<Cache>,
}

impl Publisher {
    /// Returns a reference to this publisher's cache.
    pub fn cache(&self) -> (r: &std::sync::Arc<Cache>) {
        &self.cache
    }
}

impl Default for Publisher {
    /// A publisher with an empty cache.
    fn default() -> (r: Publisher) {
        Publisher { cache: std::sync::Arc::new(Cache {}) }
    }
}

} // verus!
