//! The in-memory map from hostname to shared server identity.

use vstd::prelude::*;
use vstd::hash_map::StringHashMap;

use std::sync::Arc;
use crate::identity::Identity;

verus! {

/// What a cache whose contents are `m` holds for hostname `h`.
pub open spec fn cached(m: Map<Seq<char>, Arc<Identity>>, h: Seq<char>) -> Option<Arc<Identity>> {
    if m.contains_key(h) {
        Some(m[h])
    } else {
        None
    }
}

/// Hostnames, exactly as the client sent them, mapped to the identity loaded
/// for each. Entries are only ever added or replaced, never removed.
pub struct CertCache {
    map: StringHashMap<Arc<Identity>>,
}

impl View for CertCache {
    type V = Map<Seq<char>, Arc<Identity>>;

    closed spec fn view(&self) -> Self::V {
        self.map@
    }
}

impl CertCache {
    /// An empty cache.
    pub fn new() -> (r: Self)
        ensures
            r@ == Map::<Seq<char>, Arc<Identity>>::empty(),
    {
        CertCache { map: StringHashMap::new() }
    }

    /// Saves the identity for a hostname, replacing any earlier one.
    pub fn set(&mut self, key: String, cert: Arc<Identity>)
        ensures
            final(self)@ == old(self)@.insert(key@, cert),
    {
        self.map.insert(key, cert);
    }

    /// The identity saved for a hostname, if any.
    pub fn get(&self, key: &str) -> (r: Option<Arc<Identity>>)
        ensures
            r == cached(self@, key@),
    {
        match self.map.get(key) {
            Some(c) => Some(c.clone()),
            None => None,
        }
    }
}

} // verus!
