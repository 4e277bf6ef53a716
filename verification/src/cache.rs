//! The per-path cache of query sessions and file metadata.
//!
//! A cache entry is keyed by file path. Lookup, insert and eviction are
//! specified against a `Map` from path to entry; both stores are held in
//! association vectors with pairwise-distinct keys. The session store is
//! generic in the session handle, which the library never inspects: the
//! handle is built by the caller, cached here, and handed back on a hit.
//! An entry is inserted only fully built, and eviction removes a path's
//! session and metadata together.

use vstd::prelude::*;

use crate::schema::{build_metadata, metadata_view_of, MetadataV, ParquetMetadata, RawColumn};

verus! {

/// Whether `k` is the view of some key in `s`.
pub open spec fn has_key<T>(s: Seq<(String, T)>, k: Seq<char>) -> bool {
    exists|i: int| 0 <= i < s.len() && (#[trigger] s[i]).0@ == k
}

/// Whether the keys of `s` are pairwise distinct.
pub open spec fn keys_unique<T>(s: Seq<(String, T)>) -> bool {
    forall|i: int, j: int|
        0 <= i < j < s.len() ==> (#[trigger] s[i]).0@ != (#[trigger] s[j]).0@
}

/// The map held by an association list, later entries shadowing earlier
/// ones (with distinct keys there is nothing to shadow).
pub open spec fn assoc_map<T>(s: Seq<(String, T)>) -> Map<Seq<char>, T>
    decreases s.len(),
{
    if s.len() == 0 {
        Map::empty()
    } else {
        assoc_map(s.drop_last()).insert(s.last().0@, s.last().1)
    }
}

proof fn lemma_assoc_contains<T>(s: Seq<(String, T)>, k: Seq<char>)
    ensures
        assoc_map(s).contains_key(k) == has_key(s, k),
    decreases s.len(),
{
    if s.len() == 0 {
    } else {
        lemma_assoc_contains(s.drop_last(), k);
        if assoc_map(s).contains_key(k) {
            assert(has_key(s, k));
        }
        if has_key(s, k) {
            let i = choose|i: int| 0 <= i < s.len() && (#[trigger] s[i]).0@ == k;
            if i < s.len() - 1 {
                assert(s.drop_last()[i].0@ == k);
                assert(has_key(s.drop_last(), k));
            }
        }
    }
}

proof fn lemma_assoc_value<T>(s: Seq<(String, T)>, i: int)
    requires
        keys_unique(s),
        0 <= i < s.len(),
    ensures
        assoc_map(s).contains_key(s[i].0@),
        assoc_map(s)[s[i].0@] == s[i].1,
    decreases s.len(),
{
    if i == s.len() - 1 {
    } else {
        assert(keys_unique(s.drop_last()));
        assert(s.drop_last()[i] == s[i]);
        lemma_assoc_value(s.drop_last(), i);
        assert(s.last().0@ != s[i].0@);
    }
}

proof fn lemma_assoc_update<T>(s: Seq<(String, T)>, i: int, p: (String, T))
    requires
        keys_unique(s),
        0 <= i < s.len(),
        s[i].0@ == p.0@,
    ensures
        assoc_map(s.update(i, p)) == assoc_map(s).insert(p.0@, p.1),
    decreases s.len(),
{
    let t = s.update(i, p);
    if i == s.len() - 1 {
        assert(t.drop_last() =~= s.drop_last());
        assert(t.last() == p);
        assert(assoc_map(t) =~= assoc_map(s).insert(p.0@, p.1));
    } else {
        assert(keys_unique(s.drop_last()));
        assert(s.drop_last()[i] == s[i]);
        lemma_assoc_update(s.drop_last(), i, p);
        assert(t.drop_last() =~= s.drop_last().update(i, p));
        assert(t.last() == s.last());
        assert(s.last().0@ != p.0@);
        assert(assoc_map(t) =~= assoc_map(s).insert(p.0@, p.1));
    }
}

proof fn lemma_assoc_remove<T>(s: Seq<(String, T)>, i: int)
    requires
        keys_unique(s),
        0 <= i < s.len(),
    ensures
        assoc_map(s.remove(i)) == assoc_map(s).remove(s[i].0@),
    decreases s.len(),
{
    let t = s.remove(i);
    if i == s.len() - 1 {
        assert(t =~= s.drop_last());
        lemma_assoc_contains(s.drop_last(), s[i].0@);
        assert(!has_key(s.drop_last(), s[i].0@)) by {
            if has_key(s.drop_last(), s[i].0@) {
                let j = choose|j: int|
                    0 <= j < s.drop_last().len() && (#[trigger] s.drop_last()[j]).0@ == s[i].0@;
                assert(s[j].0@ == s[i].0@);
            }
        }
        assert(assoc_map(t) =~= assoc_map(s).remove(s[i].0@));
    } else {
        assert(keys_unique(s.drop_last()));
        assert(s.drop_last()[i] == s[i]);
        lemma_assoc_remove(s.drop_last(), i);
        assert(t.drop_last() =~= s.drop_last().remove(i));
        assert(t.last() == s.last());
        assert(s.last().0@ != s[i].0@);
        assert(assoc_map(t) =~= assoc_map(s).remove(s[i].0@));
    }
}

/// A store of entries keyed by file path.
pub struct PathCache<T> {
    entries: Vec<(String, T)>,
}

impl<T> PathCache<T> {
    /// The keys of the store are pairwise distinct.
    pub closed spec fn wf(&self) -> bool {
        keys_unique(self.entries@)
    }

    /// The map this store holds.
    pub closed spec fn map_of(&self) -> Map<Seq<char>, T> {
        assoc_map(self.entries@)
    }

    /// An empty store.
    pub fn new() -> (c: Self)
        ensures
            c.wf(),
            c.map_of() == Map::<Seq<char>, T>::empty(),
    {
        let c = PathCache { entries: Vec::new() };
        proof {
            assert(c.entries@.len() == 0);
        }
        c
    }

    /// The position of `path` in the store, if present.
    fn find(&self, path: &String) -> (r: Option<usize>)
        ensures
            match r {
                Some(i) => i < self.entries@.len() && self.entries@[i as int].0@ == path@,
                None => !has_key(self.entries@, path@),
            },
    {
        let n = self.entries.len();
        let mut i: usize = 0;
        while i < n
            invariant
                n == self.entries@.len(),
                i <= n,
                forall|j: int| 0 <= j < i ==> (#[trigger] self.entries@[j]).0@ != path@,
            decreases n - i,
        {
            if self.entries[i].0 == *path {
                return Some(i);
            }
            i = i + 1;
        }
        None
    }

    /// The cached entry for `path`, if present.
    pub fn lookup(&self, path: &String) -> (r: Option<&T>)
        requires
            self.wf(),
        ensures
            match r {
                Some(v) => self.map_of().contains_key(path@) && *v == self.map_of()[path@],
                None => !self.map_of().contains_key(path@),
            },
    {
        proof {
            lemma_assoc_contains(self.entries@, path@);
        }
        match self.find(path) {
            Some(i) => {
                proof {
                    lemma_assoc_value(self.entries@, i as int);
                }
                Some(&self.entries[i].1)
            },
            None => None,
        }
    }

    /// Inserts an entry, replacing any entry already held for the path.
    pub fn insert(&mut self, path: String, value: T)
        requires
            old(self).wf(),
        ensures
            final(self).wf(),
            final(self).map_of() == old(self).map_of().insert(path@, value),
    {
        match self.find(&path) {
            Some(i) => {
                proof {
                    lemma_assoc_update(self.entries@, i as int, (path, value));
                }
                self.entries.set(i, (path, value));
                assert(final(self).wf()) by {
                    assert(forall|j: int|
                        0 <= j < old(self).entries@.len() && j != i ==> (
                        #[trigger] self.entries@[j]).0@ == old(self).entries@[j].0@);
                }
            },
            None => {
                let ghost s0 = self.entries@;
                self.entries.push((path, value));
                proof {
                    assert(self.entries@.drop_last() =~= s0);
                    assert(keys_unique(self.entries@)) by {
                        assert(forall|j: int|
                            0 <= j < s0.len() ==> (#[trigger] self.entries@[j]) == s0[j]);
                    }
                }
            },
        }
    }

    /// Removes the entry for `path`, if present.
    pub fn remove(&mut self, path: &String)
        requires
            old(self).wf(),
        ensures
            final(self).wf(),
            final(self).map_of() == old(self).map_of().remove(path@),
    {
        match self.find(path) {
            Some(i) => {
                proof {
                    lemma_assoc_remove(self.entries@, i as int);
                }
                let ghost s0 = self.entries@;
                self.entries.remove(i);
                proof {
                    assert(self.entries@ =~= s0.remove(i as int));
                    assert(keys_unique(self.entries@)) by {
                        assert(forall|j: int|
                            0 <= j < self.entries@.len() ==> (#[trigger] self.entries@[j]) == (
                            if j < i { s0[j] } else { s0[j + 1] }));
                    }
                }
            },
            None => {
                proof {
                    lemma_assoc_contains(self.entries@, path@);
                    assert(self.map_of() =~= self.map_of().remove(path@));
                }
            },
        }
    }
}

} // verus!

verus! {

/// The views of the metadata entries of a value-level map.
pub open spec fn meta_views(m: Map<Seq<char>, ParquetMetadata>) -> Map<Seq<char>, MetadataV> {
    Map::new(|k: Seq<char>| m.contains_key(k), |k: Seq<char>| m[k]@)
}

/// Get-or-create over a metadata map: a cached entry is returned as it
/// stands and the map is unchanged; otherwise the freshly built entry is
/// returned and inserted.
pub open spec fn goc_meta(
    m: Map<Seq<char>, MetadataV>,
    path: Seq<char>,
    built: MetadataV,
) -> (MetadataV, Map<Seq<char>, MetadataV>) {
    if m.contains_key(path) {
        (m[path], m)
    } else {
        (built, m.insert(path, built))
    }
}

/// The cache of query sessions and file metadata, keyed by file path.
/// `S` is the caller's opaque session handle; this store never inspects
/// it.
pub struct ParquetCache<S> {
    sessions: PathCache<S>,
    metadata: PathCache<ParquetMetadata>,
}

impl<S> ParquetCache<S> {
    /// Both stores have pairwise-distinct keys.
    pub closed spec fn wf(&self) -> bool {
        self.sessions.wf() && self.metadata.wf()
    }

    /// The cached sessions, by path.
    pub closed spec fn sessions_map(&self) -> Map<Seq<char>, S> {
        self.sessions.map_of()
    }

    /// The views of the cached metadata, by path.
    pub closed spec fn metadata_map(&self) -> Map<Seq<char>, MetadataV> {
        meta_views(self.metadata.map_of())
    }

    /// An empty cache.
    pub fn new() -> (c: Self)
        ensures
            c.wf(),
            c.sessions_map() == Map::<Seq<char>, S>::empty(),
            c.metadata_map() == Map::<Seq<char>, MetadataV>::empty(),
    {
        let c = ParquetCache { sessions: PathCache::new(), metadata: PathCache::new() };
        proof {
            assert(c.metadata_map() =~= Map::<Seq<char>, MetadataV>::empty());
        }
        c
    }

    /// The cached session for `path`, if present.
    pub fn lookup_session(&self, path: &String) -> (r: Option<&S>)
        requires
            self.wf(),
        ensures
            match r {
                Some(s) => self.sessions_map().contains_key(path@) && *s
                    == self.sessions_map()[path@],
                None => !self.sessions_map().contains_key(path@),
            },
    {
        self.sessions.lookup(path)
    }

    /// Returns the cached session for `path`, or caches the session the
    /// caller built and returns that. A cached session wins: the handed-in
    /// handle is then dropped, as both are read-only views of the same
    /// immutable file.
    pub fn get_or_create_session(&mut self, path: &String, built: S) -> (s: &S)
        requires
            old(self).wf(),
        ensures
            final(self).wf(),
            final(self).metadata_map() == old(self).metadata_map(),
            old(self).sessions_map().contains_key(path@) ==> final(self).sessions_map() == old(
                self,
            ).sessions_map() && *s == old(self).sessions_map()[path@],
            !old(self).sessions_map().contains_key(path@) ==> final(self).sessions_map() == old(
                self,
            ).sessions_map().insert(path@, built) && *s == built,
    {
        let cached = match self.sessions.lookup(path) {
            Some(_) => true,
            None => false,
        };
        if !cached {
            self.sessions.insert(path.clone(), built);
        }
        match self.sessions.lookup(path) {
            Some(s) => s,
            None => {
                proof {
                    assert(false);
                }
                unreached()
            },
        }
    }

    /// The cached metadata for `path`, if present. A caller that finds an
    /// entry here needs no fresh read of the file's footer.
    pub fn lookup_metadata(&self, path: &String) -> (r: Option<&ParquetMetadata>)
        requires
            self.wf(),
        ensures
            match r {
                Some(m) => self.metadata_map().contains_key(path@) && m@ == self.metadata_map()[
                    path@
                ],
                None => !self.metadata_map().contains_key(path@),
            },
    {
        self.metadata.lookup(path)
    }

    /// Returns the cached metadata for `path`, or builds it from the raw
    /// footer data, caches it, and returns it. A second call for the same
    /// path returns the cached descriptor without consulting the footer
    /// arguments at all.
    pub fn get_or_create_metadata(&mut self, path: &String, num_rows: i64, raw: &Vec<RawColumn>)
        -> (m: ParquetMetadata)
        requires
            old(self).wf(),
        ensures
            final(self).wf(),
            final(self).sessions_map() == old(self).sessions_map(),
            m@ == goc_meta(
                old(self).metadata_map(),
                path@,
                metadata_view_of(num_rows, raw@),
            ).0,
            final(self).metadata_map() == goc_meta(
                old(self).metadata_map(),
                path@,
                metadata_view_of(num_rows, raw@),
            ).1,
    {
        let cached: Option<ParquetMetadata> = match self.metadata.lookup(path) {
            Some(found) => Some(found.clone()),
            None => None,
        };
        match cached {
            Some(m) => m,
            None => {
                let built = build_metadata(num_rows, raw);
                self.metadata.insert(path.clone(), built.clone());
                proof {
                    assert(final(self).metadata_map() =~= old(self).metadata_map().insert(
                        path@,
                        metadata_view_of(num_rows, raw@),
                    ));
                }
                built
            },
        }
    }

    /// Removes the session and metadata entries for `path` together; a
    /// no-op for a path that holds neither.
    pub fn evict(&mut self, path: &String)
        requires
            old(self).wf(),
        ensures
            final(self).wf(),
            final(self).sessions_map() == old(self).sessions_map().remove(path@),
            final(self).metadata_map() == old(self).metadata_map().remove(path@),
    {
        self.sessions.remove(path);
        self.metadata.remove(path);
        proof {
            assert(final(self).metadata_map() =~= old(self).metadata_map().remove(path@));
        }
    }
}

/// Metadata retrieval is idempotent: after one get-or-create for a path,
/// a second get-or-create for the same path returns the identical
/// descriptor and leaves the cache unchanged, whatever footer data the
/// second call would have built from.
pub proof fn lemma_metadata_idempotent(
    m0: Map<Seq<char>, MetadataV>,
    path: Seq<char>,
    built1: MetadataV,
    built2: MetadataV,
)
    ensures
        goc_meta(goc_meta(m0, path, built1).1, path, built2).0 == goc_meta(m0, path, built1).0,
        goc_meta(goc_meta(m0, path, built1).1, path, built2).1 == goc_meta(m0, path, built1).1,
{
}

/// Eviction forces a rebuild: after removing a path, get-or-create for
/// that path returns the freshly built descriptor and re-inserts it.
pub proof fn lemma_evict_forces_rebuild(
    m0: Map<Seq<char>, MetadataV>,
    path: Seq<char>,
    built: MetadataV,
)
    ensures
        goc_meta(m0.remove(path), path, built).0 == built,
        goc_meta(m0.remove(path), path, built).1 == m0.remove(path).insert(path, built),
{
}

} // verus!
