//! Choosing the server identity at handshake time: the cache first, the
//! hostname's bundle on a miss, and publication of what was loaded.

use vstd::prelude::*;

use std::sync::Arc;

use crate::cache::{cached, CertCache};
use crate::identity::{admits, bundle_of, load_certified_key, Identity, LoadError};

verus! {

/// The first step of a resolution.
pub enum Resolution {
    /// The client named no host: there is no identity to offer.
    NoHostname,
    /// The identity cached for the named host.
    Cached(Arc<Identity>),
    /// The named host is not cached: its bundle is to be read and handed to
    /// `ResolveSSL::complete`.
    Load(String),
}

/// `r` is what a lookup of `name` in a cache holding `m` gives.
pub open spec fn lookup_result(
    m: Map<Seq<char>, Arc<Identity>>,
    name: Option<Seq<char>>,
    r: Resolution,
) -> bool {
    match name {
        None => r is NoHostname,
        Some(h) => match cached(m, h) {
            Some(k) => r == Resolution::Cached(k),
            None => r matches Resolution::Load(d) && d@ == h,
        },
    }
}

/// The cache contents after the outcome `r` of a load for `h` is published:
/// an identity is saved under exactly `h`; a failure leaves the cache alone.
pub open spec fn published(
    m: Map<Seq<char>, Arc<Identity>>,
    h: Seq<char>,
    r: Result<Arc<Identity>, LoadError>,
) -> Map<Seq<char>, Arc<Identity>> {
    match r {
        Ok(k) => m.insert(h, k),
        Err(_) => m,
    }
}

/// The cache contents after the outcomes `rs` of loads for `h` are
/// published one after another.
pub open spec fn published_all(
    m: Map<Seq<char>, Arc<Identity>>,
    h: Seq<char>,
    rs: Seq<Result<Arc<Identity>, LoadError>>,
) -> Map<Seq<char>, Arc<Identity>>
    decreases rs.len(),
{
    if rs.len() == 0 {
        m
    } else {
        published(published_all(m, h, rs.drop_last()), h, rs.last())
    }
}

/// `r` is an outcome that loading an identity for a hostname may have,
/// where `bundle` is its bundle's text and `None` means that no bundle is
/// stored for it.
pub open spec fn load_result_matches(bundle: Option<Seq<u8>>, r: Result<Arc<Identity>, LoadError>) -> bool {
    match bundle {
        None => r == Err::<Arc<Identity>, LoadError>(LoadError::NotFound),
        Some(b) => admits(
            b,
            match r {
                Ok(id) => Ok(id@),
                Err(e) => Err(e),
            },
        ),
    }
}

/// Every hostname in a cache holding `m` has a bundle in `store` (hostname
/// to bundle text), and its cached identity is the chain and key of that
/// bundle.
pub open spec fn cache_matches_store(m: Map<Seq<char>, Arc<Identity>>, store: Map<Seq<char>, Seq<u8>>) -> bool {
    forall|h: Seq<char>| #[trigger]
        m.contains_key(h) ==> store.contains_key(h) && bundle_of(store[h]) == Ok::<
            (Seq<Seq<u8>>, Seq<u8>),
            LoadError,
        >(m[h]@)
}

/// After an identity loaded for `h` is published, a lookup of `h` finds
/// that same identity in the cache, and asks for no load.
pub proof fn lemma_resolved_then_cached(
    m: Map<Seq<char>, Arc<Identity>>,
    h: Seq<char>,
    k: Arc<Identity>,
    r: Resolution,
)
    requires
        lookup_result(published(m, h, Ok(k)), Some(h), r),
    ensures
        cached(published(m, h, Ok(k)), h) == Some(k),
        r == Resolution::Cached(k),
{
    assert(published(m, h, Ok(k)).contains_key(h));
}

/// Publishing the outcome of a load for `h1` changes nothing that a lookup
/// of any other hostname `h2` finds.
pub proof fn lemma_cache_isolation(
    m: Map<Seq<char>, Arc<Identity>>,
    h1: Seq<char>,
    h2: Seq<char>,
    r: Result<Arc<Identity>, LoadError>,
)
    requires
        h1 != h2,
    ensures
        cached(published(m, h1, r), h2) == cached(m, h2),
{
}

/// Where every cached identity is the one its own hostname's bundle gives,
/// publishing a load of `h`'s bundle keeps it so; and a lookup of any
/// hostname then finds nothing but its own bundle's identity.
pub proof fn lemma_entries_stay_own(
    m: Map<Seq<char>, Arc<Identity>>,
    store: Map<Seq<char>, Seq<u8>>,
    h: Seq<char>,
    r: Result<Arc<Identity>, LoadError>,
    other: Seq<char>,
    found: Resolution,
)
    requires
        cache_matches_store(m, store),
        store.contains_key(h),
        load_result_matches(Some(store[h]), r),
        lookup_result(published(m, h, r), Some(other), found),
    ensures
        cache_matches_store(published(m, h, r), store),
        found matches Resolution::Cached(k) ==> store.contains_key(other) && bundle_of(store[other])
            == Ok::<(Seq<Seq<u8>>, Seq<u8>), LoadError>(k@),
{
    let m2 = published(m, h, r);
    assert forall|x: Seq<char>| #[trigger] m2.contains_key(x) implies store.contains_key(x)
        && bundle_of(store[x]) == Ok::<(Seq<Seq<u8>>, Seq<u8>), LoadError>(m2[x]@) by {
        if x != h || r is Err {
            assert(m.contains_key(x));
        }
    }
    if found is Cached {
        assert(m2.contains_key(other));
    }
}

/// Any number of loads for `h` published in any order, each of which
/// either failed or gave an identity with the chain and key `v` (those of
/// `h`'s bundle), leave the cache holding for `h` what it held before or an
/// identity with chain and key `v`; the latter as soon as one of them
/// succeeded. No other hostname's entry changes.
pub proof fn lemma_repeated_loads(
    m: Map<Seq<char>, Arc<Identity>>,
    h: Seq<char>,
    v: (Seq<Seq<u8>>, Seq<u8>),
    rs: Seq<Result<Arc<Identity>, LoadError>>,
)
    requires
        forall|i: int| 0 <= i < rs.len() ==> (#[trigger] rs[i] matches Ok(k) ==> k@ == v),
    ensures
        cached(published_all(m, h, rs), h) == cached(m, h) || (cached(published_all(m, h, rs), h)
            matches Some(k) && k@ == v),
        (exists|i: int| 0 <= i < rs.len() && (#[trigger] rs[i]) is Ok) ==> (cached(
            published_all(m, h, rs),
            h,
        ) matches Some(k) && k@ == v),
        forall|x: Seq<char>| x != h ==> #[trigger] cached(published_all(m, h, rs), x) == cached(m, x),
    decreases rs.len(),
{
    if rs.len() > 0 {
        let front = rs.drop_last();
        assert forall|i: int| 0 <= i < front.len() implies (#[trigger] front[i] matches Ok(k) ==> k@
            == v) by {
            assert(front[i] == rs[i]);
        }
        lemma_repeated_loads(m, h, v, front);
        assert forall|x: Seq<char>| x != h implies #[trigger] cached(published_all(m, h, rs), x)
            == cached(m, x) by {
            lemma_cache_isolation(published_all(m, h, front), h, x, rs.last());
        }
        assert(rs.last() == rs[rs.len() - 1]);
        if exists|i: int| 0 <= i < rs.len() && (#[trigger] rs[i]) is Ok {
            if !(rs.last() is Ok) {
                let i = choose|i: int| 0 <= i < rs.len() && (#[trigger] rs[i]) is Ok;
                assert(front[i] == rs[i]);
            }
        }
    }
}

/// A load that fails for `h` leaves the whole cache as it was, so a
/// resolution of any other hostname goes exactly as it would have.
pub proof fn lemma_failure_isolated(
    m: Map<Seq<char>, Arc<Identity>>,
    h: Seq<char>,
    e: LoadError,
    other: Option<Seq<char>>,
    r: Resolution,
)
    ensures
        published(m, h, Err(e)) == m,
        lookup_result(published(m, h, Err(e)), other, r) == lookup_result(m, other, r),
{
}

/// Resolves server identities by hostname, through a cache.
pub struct ResolveSSL {
    pub cache: CertCache,
}

impl ResolveSSL {
    /// A resolver with an empty cache.
    pub fn new() -> (r: Self)
        ensures
            r.cache@ == Map::<Seq<char>, Arc<Identity>>::empty(),
    {
        ResolveSSL { cache: CertCache::new() }
    }

    /// The fast path: the cached identity for the hostname the client named,
    /// or the hostname to load. Reads nothing but the cache.
    pub fn lookup(&self, server_name: Option<&str>) -> (r: Resolution)
        ensures
            lookup_result(
                self.cache@,
                match server_name {
                    Some(h) => Some(h@),
                    None => None,
                },
                r,
            ),
    {
        match server_name {
            None => Resolution::NoHostname,
            Some(h) => match self.cache.get(h) {
                Some(k) => Resolution::Cached(k),
                None => Resolution::Load(h.to_string()),
            },
        }
    }

    /// The slow path: builds the identity for `domain` from its bundle's
    /// text (`None` where no bundle is stored) and, on success, publishes it
    /// in the cache under `domain`.
    pub fn complete(&mut self, domain: String, bundle: Option<&[u8]>) -> (r: Result<
        Arc<Identity>,
        LoadError,
    >)
        ensures
            load_result_matches(
                match bundle {
                    Some(b) => Some(b@),
                    None => None,
                },
                r,
            ),
            final(self).cache@ == published(old(self).cache@, domain@, r),
    {
        let pem = match bundle {
            Some(b) => b,
            None => return Err(LoadError::NotFound),
        };
        match load_certified_key(pem) {
            Ok(k) => {
                let shared = Arc::new(k);
                self.cache.set(domain, shared.clone());
                Ok(shared)
            },
            Err(e) => Err(e),
        }
    }
}

} // verus!
