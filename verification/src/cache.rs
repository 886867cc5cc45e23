//! Metadata caching: the cached record, and the bounded, time-evicted
//! store over it.
//!
//! The store is keyed by path and evicts in two ways: entries unread for
//! longer than the TTL expire, and when full the least recently used entry
//! leaves. Wall-clock readings enter as explicit `now_ns` arguments of the
//! `*_at` functions; the argument-free counterparts feed them one reading
//! from `time_source::now_ns`. Sharing the store across threads, behind a
//! lock, is the host layer's concern; these operations take the store
//! exclusively.
use vstd::prelude::*;
use crate::device::str_eq;
use crate::models::lemma_filter_take_step;
use crate::time_source::now_ns;

verus! {

/// A cached tag record for one file. Durations are in milliseconds, times
/// seconds since the epoch.
#[derive(Debug, Clone)]
pub struct Metadata {
    pub title: Option<String>,
    pub artist: Option<String>,
    pub album: Option<String>,
    pub year: Option<u32>,
    pub track_number: Option<u32>,
    pub genre: Option<String>,
    pub duration_ms: Option<u64>,
    pub sample_rate: Option<u32>,
    pub bit_depth: Option<u8>,
    pub channels: Option<u8>,
    pub bitrate: Option<u32>,
    pub file_size: u64,
    pub modified_time: Option<u64>,
}

/// Field-for-field sameness of two records, strings by content.
pub open spec fn metadata_like(a: Metadata, b: Metadata) -> bool {
    &&& opt_string_like(a.title, b.title)
    &&& opt_string_like(a.artist, b.artist)
    &&& opt_string_like(a.album, b.album)
    &&& a.year == b.year
    &&& a.track_number == b.track_number
    &&& opt_string_like(a.genre, b.genre)
    &&& a.duration_ms == b.duration_ms
    &&& a.sample_rate == b.sample_rate
    &&& a.bit_depth == b.bit_depth
    &&& a.channels == b.channels
    &&& a.bitrate == b.bitrate
    &&& a.file_size == b.file_size
    &&& a.modified_time == b.modified_time
}

pub open spec fn opt_string_like(a: Option<String>, b: Option<String>) -> bool {
    match (a, b) {
        (Some(x), Some(y)) => x@ == y@,
        (None, None) => true,
        _ => false,
    }
}

fn clone_opt_string(o: &Option<String>) -> (r: Option<String>)
    ensures
        opt_string_like(r, *o),
{
    match o {
        Some(s) => Some(s.clone()),
        None => None,
    }
}

impl Metadata {
    pub fn new(file_size: u64) -> (r: Self)
        ensures
            r.title is None,
            r.artist is None,
            r.album is None,
            r.year is None,
            r.track_number is None,
            r.genre is None,
            r.duration_ms is None,
            r.sample_rate is None,
            r.bit_depth is None,
            r.channels is None,
            r.bitrate is None,
            r.file_size == file_size,
            r.modified_time is None,
    {
        Self {
            title: None,
            artist: None,
            album: None,
            year: None,
            track_number: None,
            genre: None,
            duration_ms: None,
            sample_rate: None,
            bit_depth: None,
            channels: None,
            bitrate: None,
            file_size,
            modified_time: None,
        }
    }

    /// A record is complete enough to serve when it names a title or an
    /// artist.
    pub fn is_complete(&self) -> (r: bool)
        ensures
            r == (self.title is Some || self.artist is Some),
    {
        self.title.is_some() || self.artist.is_some()
    }

    /// A field-for-field copy.
    pub fn duplicate(&self) -> (r: Metadata)
        ensures
            metadata_like(r, *self),
    {
        Metadata {
            title: clone_opt_string(&self.title),
            artist: clone_opt_string(&self.artist),
            album: clone_opt_string(&self.album),
            year: self.year,
            track_number: self.track_number,
            genre: clone_opt_string(&self.genre),
            duration_ms: self.duration_ms,
            sample_rate: self.sample_rate,
            bit_depth: self.bit_depth,
            channels: self.channels,
            bitrate: self.bitrate,
            file_size: self.file_size,
            modified_time: self.modified_time,
        }
    }
}

/// One stored record: its key, the record, and when it was last read.
pub struct CacheEntry {
    pub path: String,
    pub metadata: Metadata,
    pub accessed_ns: u64,
}

/// Usage counters of the cache; the hit rate is in thousandths.
#[derive(Debug, Clone, Copy, PartialEq, Eq, Structural)]
pub struct CacheStats {
    pub size: usize,
    pub max_size: usize,
    pub hits: u64,
    pub misses: u64,
    pub hit_rate_permille: u32,
}

pub struct MetadataCache {
    pub entries: Vec<CacheEntry>,
    pub max_size: usize,
    pub ttl_ns: u64,
    pub hits: u64,
    pub misses: u64,
}

/// Pairwise-distinct keys.
pub open spec fn unique_paths(s: Seq<CacheEntry>) -> bool {
    forall|i: int, j: int| 0 <= i < j < s.len()
        ==> (#[trigger] s[i]).path@ != (#[trigger] s[j]).path@
}

/// Removing an entry keeps the keys distinct.
proof fn lemma_unique_paths_remove(s: Seq<CacheEntry>, i: int)
    requires
        unique_paths(s),
        0 <= i < s.len(),
    ensures
        unique_paths(s.remove(i)),
{
    let t = s.remove(i);
    assert forall|a: int, b: int| 0 <= a < b < t.len() implies (#[trigger] t[a]).path@ != (
    #[trigger] t[b]).path@ by {
        let a0 = if a < i { a } else { a + 1 };
        let b0 = if b < i { b } else { b + 1 };
        assert(t[a] == s[a0]);
        assert(t[b] == s[b0]);
    }
}

/// Replacing an entry with one under the same key keeps the keys distinct.
proof fn lemma_unique_paths_update(s: Seq<CacheEntry>, i: int, e: CacheEntry)
    requires
        unique_paths(s),
        0 <= i < s.len(),
        e.path@ == s[i].path@,
    ensures
        unique_paths(s.update(i, e)),
{
}

impl MetadataCache {
    /// Keys are unique.
    pub open spec fn wf(self) -> bool {
        unique_paths(self.entries@)
    }

    pub open spec fn spec_contains(self, path: Seq<char>) -> bool {
        exists|i: int| 0 <= i < self.entries@.len()
            && (#[trigger] self.entries@[i]).path@ == path
    }

    pub fn new(max_size: usize, ttl_ns: u64) -> (r: Self)
        ensures
            r.wf(),
            r.entries@.len() == 0,
            r.max_size == max_size,
            r.ttl_ns == ttl_ns,
            r.hits == 0,
            r.misses == 0,
    {
        Self { entries: Vec::new(), max_size, ttl_ns, hits: 0, misses: 0 }
    }

    /// Look a path up at wall time `now_ns`. A fresh entry — read within
    /// the TTL — counts a hit, is marked read now, and its record comes
    /// back. A stale entry leaves the cache; it and an absent path count a
    /// miss.
    pub fn get_at(&mut self, path: &str, now_ns: u64) -> (r: Option<Metadata>)
        requires
            old(self).wf(),
            old(self).hits < u64::MAX,
            old(self).misses < u64::MAX,
        ensures
            final(self).wf(),
            final(self).max_size == old(self).max_size,
            final(self).ttl_ns == old(self).ttl_ns,
            r is Some ==> {
                &&& final(self).hits == old(self).hits + 1
                &&& final(self).misses == old(self).misses
                &&& exists|i: int| {
                    &&& 0 <= i < old(self).entries@.len()
                    &&& (#[trigger] old(self).entries@[i]).path@ == path@
                    &&& metadata_like(r->0, old(self).entries@[i].metadata)
                }
                &&& final(self).spec_contains(path@)
            },
            r is None ==> {
                &&& final(self).hits == old(self).hits
                &&& final(self).misses == old(self).misses + 1
                &&& !final(self).spec_contains(path@)
            },
    {
        let mut i: usize = 0;
        while i < self.entries.len()
            invariant
                i <= self.entries@.len(),
                self.entries@ == old(self).entries@,
                self.max_size == old(self).max_size,
                self.ttl_ns == old(self).ttl_ns,
                self.hits == old(self).hits,
                self.misses == old(self).misses,
                old(self).hits < u64::MAX,
                old(self).misses < u64::MAX,
                unique_paths(old(self).entries@),
                forall|j: int| 0 <= j < i ==> (#[trigger] self.entries@[j]).path@ != path@,
            decreases self.entries@.len() - i,
        {
            if str_eq(self.entries[i].path.as_str(), path) {
                let age_fresh = now_ns < self.entries[i].accessed_ns
                    || now_ns - self.entries[i].accessed_ns < self.ttl_ns;
                if age_fresh {
                    let record = self.entries[i].metadata.duplicate();
                    let mut entry = self.entries.remove(i);
                    entry.accessed_ns = now_ns;
                    self.entries.insert(i, entry);
                    self.hits = self.hits + 1;
                    proof {
                        assert(self.entries@ =~= old(self).entries@.update(i as int, entry));
                        lemma_unique_paths_update(old(self).entries@, i as int, entry);
                        assert((self.entries@[i as int]).path@ == path@);
                        assert((old(self).entries@[i as int]).path@ == path@);
                    }
                    return Some(record);
                } else {
                    self.entries.remove(i);
                    self.misses = self.misses + 1;
                    proof {
                        lemma_unique_paths_remove(old(self).entries@, i as int);
                        assert forall|j: int| 0 <= j < self.entries@.len() implies (
                        #[trigger] self.entries@[j]).path@ != path@ by {
                            let j0 = if j < i { j } else { j + 1 };
                            assert(self.entries@[j] == old(self).entries@[j0]);
                        }
                    }
                    return None;
                }
            }
            i = i + 1;
        }
        self.misses = self.misses + 1;
        None
    }

    /// Look a path up against the wall clock now.
    pub fn get(&mut self, path: &str) -> (r: Option<Metadata>)
        requires
            old(self).wf(),
            old(self).hits < u64::MAX,
            old(self).misses < u64::MAX,
        ensures
            final(self).wf(),
            final(self).max_size == old(self).max_size,
            final(self).ttl_ns == old(self).ttl_ns,
            r is Some ==> final(self).hits == old(self).hits + 1,
            r is None ==> final(self).misses == old(self).misses + 1,
    {
        let now = now_ns();
        self.get_at(path, now)
    }

    /// Store a record under a path, read now: an existing entry is
    /// replaced; otherwise, with the cache full, the least recently used
    /// entry leaves first, and the record joins.
    pub fn put_at(&mut self, path: String, metadata: Metadata, now_ns: u64)
        requires
            old(self).wf(),
        ensures
            final(self).wf(),
            final(self).max_size == old(self).max_size,
            final(self).ttl_ns == old(self).ttl_ns,
            final(self).hits == old(self).hits,
            final(self).misses == old(self).misses,
            final(self).spec_contains(path@),
            exists|i: int| {
                &&& 0 <= i < final(self).entries@.len()
                &&& (#[trigger] final(self).entries@[i]).path@ == path@
                &&& final(self).entries@[i].metadata == metadata
                &&& final(self).entries@[i].accessed_ns == now_ns
            },
    {
        let mut i: usize = 0;
        while i < self.entries.len()
            invariant
                i <= self.entries@.len(),
                self.entries@ == old(self).entries@,
                self.max_size == old(self).max_size,
                self.ttl_ns == old(self).ttl_ns,
                self.hits == old(self).hits,
                self.misses == old(self).misses,
                unique_paths(old(self).entries@),
                forall|j: int| 0 <= j < i ==> (#[trigger] self.entries@[j]).path@ != path@,
            decreases self.entries@.len() - i,
        {
            if str_eq(self.entries[i].path.as_str(), path.as_str()) {
                let ghost before = self.entries@;
                self.entries.remove(i);
                let replacement = CacheEntry { path, metadata, accessed_ns: now_ns };
                self.entries.insert(i, replacement);
                proof {
                    assert(self.entries@ =~= before.update(i as int, replacement));
                    lemma_unique_paths_update(before, i as int, replacement);
                    assert((self.entries@[i as int]).path@ == replacement.path@);
                }
                return ;
            }
            i = i + 1;
        }
        if self.entries.len() >= self.max_size {
            self.evict_lru();
        }
        proof {
            assert(forall|j: int| 0 <= j < self.entries@.len()
                ==> (#[trigger] self.entries@[j]).path@ != path@);
        }
        self.entries.push(CacheEntry { path, metadata, accessed_ns: now_ns });
        proof {
            assert((self.entries@[self.entries@.len() - 1]).path@ == path@);
        }
    }

    /// Store a record, read now.
    pub fn put(&mut self, path: String, metadata: Metadata)
        requires
            old(self).wf(),
        ensures
            final(self).wf(),
            final(self).spec_contains(path@),
            final(self).max_size == old(self).max_size,
            final(self).ttl_ns == old(self).ttl_ns,
    {
        let now = now_ns();
        self.put_at(path, metadata, now);
    }

    /// Drop the entry stored under the path, if any.
    pub fn remove(&mut self, path: &str)
        requires
            old(self).wf(),
        ensures
            final(self).wf(),
            !final(self).spec_contains(path@),
            final(self).entries@.len() >= old(self).entries@.len() - 1,
            final(self).max_size == old(self).max_size,
            final(self).ttl_ns == old(self).ttl_ns,
            final(self).hits == old(self).hits,
            final(self).misses == old(self).misses,
    {
        let mut i: usize = 0;
        while i < self.entries.len()
            invariant
                i <= self.entries@.len(),
                self.entries@ == old(self).entries@,
                self.max_size == old(self).max_size,
                self.ttl_ns == old(self).ttl_ns,
                self.hits == old(self).hits,
                self.misses == old(self).misses,
                unique_paths(old(self).entries@),
                forall|j: int| 0 <= j < i ==> (#[trigger] self.entries@[j]).path@ != path@,
            decreases self.entries@.len() - i,
        {
            if str_eq(self.entries[i].path.as_str(), path) {
                self.entries.remove(i);
                proof {
                    lemma_unique_paths_remove(old(self).entries@, i as int);
                    assert forall|j: int| 0 <= j < self.entries@.len() implies (
                    #[trigger] self.entries@[j]).path@ != path@ by {
                        let j0 = if j < i { j } else { j + 1 };
                        assert(self.entries@[j] == old(self).entries@[j0]);
                    }
                }
                return ;
            }
            i = i + 1;
        }
    }

    pub fn clear(&mut self)
        ensures
            final(self).wf(),
            final(self).entries@.len() == 0,
            final(self).max_size == old(self).max_size,
            final(self).ttl_ns == old(self).ttl_ns,
            final(self).hits == old(self).hits,
            final(self).misses == old(self).misses,
    {
        self.entries.clear();
    }

    pub fn contains(&self, path: &str) -> (r: bool)
        ensures
            r == self.spec_contains(path@),
    {
        let mut i: usize = 0;
        while i < self.entries.len()
            invariant
                i <= self.entries@.len(),
                forall|j: int| 0 <= j < i ==> (#[trigger] self.entries@[j]).path@ != path@,
            decreases self.entries@.len() - i,
        {
            if str_eq(self.entries[i].path.as_str(), path) {
                return true;
            }
            i = i + 1;
        }
        false
    }

    pub fn size(&self) -> (r: usize)
        ensures
            r == self.entries@.len(),
    {
        self.entries.len()
    }

    pub fn is_empty(&self) -> (r: bool)
        ensures
            r == (self.entries@.len() == 0),
    {
        self.entries.len() == 0
    }

    /// Drop every entry last read TTL or longer ago, judged at wall time
    /// `now_ns`.
    pub fn cleanup_expired_at(&mut self, now_ns: u64)
        requires
            old(self).wf(),
        ensures
            final(self).wf(),
            final(self).entries@ == old(self).entries@.filter(
                |e: CacheEntry| now_ns < e.accessed_ns || now_ns - e.accessed_ns < old(
                    self,
                ).ttl_ns,
            ),
            final(self).max_size == old(self).max_size,
            final(self).ttl_ns == old(self).ttl_ns,
            final(self).hits == old(self).hits,
            final(self).misses == old(self).misses,
    {
        let ghost orig = self.entries@;
        let ghost keep = |e: CacheEntry| now_ns < e.accessed_ns || now_ns - e.accessed_ns < old(
            self,
        ).ttl_ns;
        let mut remaining: Vec<CacheEntry> = Vec::new();
        std::mem::swap(&mut remaining, &mut self.entries);
        let mut kept: Vec<CacheEntry> = Vec::new();
        let ghost mut k: int = 0;
        while remaining.len() > 0
            invariant
                0 <= k <= orig.len(),
                remaining@.len() == orig.len() - k,
                remaining@ == orig.skip(k),
                kept@ == orig.take(k).filter(keep),
                keep == (|e: CacheEntry| now_ns < e.accessed_ns || now_ns - e.accessed_ns < old(
                    self,
                ).ttl_ns),
                unique_paths(orig),
                forall|a: int| 0 <= a < kept@.len() ==> exists|j: int|
                    0 <= j < k && #[trigger] kept@[a] == orig[j],
                unique_paths(kept@),
                self.ttl_ns == old(self).ttl_ns,
                self.max_size == old(self).max_size,
                self.hits == old(self).hits,
                self.misses == old(self).misses,
            decreases remaining@.len(),
        {
            let e = remaining.remove(0);
            proof {
                assert(e == orig[k]);
                assert(remaining@ =~= orig.skip(k + 1));
                lemma_filter_take_step(orig, keep, k);
            }
            let fresh = now_ns < e.accessed_ns || now_ns - e.accessed_ns < self.ttl_ns;
            if fresh {
                let ghost kept_before = kept@;
                kept.push(e);
                proof {
                    assert forall|a: int| 0 <= a < kept@.len() implies exists|j: int|
                        0 <= j < k + 1 && #[trigger] kept@[a] == orig[j] by {
                        if a < kept_before.len() {
                            assert(kept@[a] == kept_before[a]);
                        } else {
                            assert(kept@[a] == orig[k]);
                        }
                    }
                    assert forall|a: int, b: int| 0 <= a < b < kept@.len() implies (
                    #[trigger] kept@[a]).path@ != (#[trigger] kept@[b]).path@ by {
                        if b == kept@.len() - 1 {
                            let j = choose|j: int| 0 <= j < k && kept@[a] == orig[j];
                            assert(kept@[b] == orig[k]);
                            assert(orig[j].path@ != orig[k].path@);
                        }
                    }
                }
            }
            proof {
                k = k + 1;
                assert(kept@ =~= orig.take(k).filter(keep));
            }
        }
        proof {
            assert(orig.take(orig.len() as int) =~= orig);
        }
        self.entries = kept;
    }

    /// Drop expired entries against the wall clock now.
    pub fn cleanup_expired(&mut self)
        requires
            old(self).wf(),
        ensures
            final(self).wf(),
            final(self).entries@.len() <= old(self).entries@.len(),
    {
        let now = now_ns();
        self.cleanup_expired_at(now);
    }

    /// Drop the least recently used entry — the first among those with the
    /// oldest read time. An empty cache is left alone.
    pub fn evict_lru(&mut self)
        requires
            old(self).wf(),
        ensures
            final(self).wf(),
            old(self).entries@.len() == 0 ==> final(self).entries@ == old(self).entries@,
            old(self).entries@.len() > 0 ==> {
                &&& final(self).entries@.len() == old(self).entries@.len() - 1
                &&& exists|i: int| {
                    &&& 0 <= i < old(self).entries@.len()
                    &&& final(self).entries@ == old(self).entries@.remove(i)
                    &&& forall|j: int| 0 <= j < old(self).entries@.len()
                        ==> (#[trigger] old(self).entries@[j]).accessed_ns >= old(
                        self,
                    ).entries@[i].accessed_ns
                }
            },
            final(self).max_size == old(self).max_size,
            final(self).ttl_ns == old(self).ttl_ns,
            final(self).hits == old(self).hits,
            final(self).misses == old(self).misses,
    {
        if self.entries.len() == 0 {
            return ;
        }
        let mut oldest: usize = 0;
        let mut i: usize = 1;
        while i < self.entries.len()
            invariant
                self.entries@ == old(self).entries@,
                self.max_size == old(self).max_size,
                self.ttl_ns == old(self).ttl_ns,
                self.hits == old(self).hits,
                self.misses == old(self).misses,
                self.entries@.len() > 0,
                oldest < i <= self.entries@.len(),
                forall|j: int| 0 <= j < i ==> (#[trigger] self.entries@[j]).accessed_ns
                    >= self.entries@[oldest as int].accessed_ns,
            decreases self.entries@.len() - i,
        {
            if self.entries[i].accessed_ns < self.entries[oldest].accessed_ns {
                oldest = i;
            }
            i = i + 1;
        }
        self.entries.remove(oldest);
    }

    /// The counters; the hit rate is hits over lookups, in thousandths,
    /// zero before any lookup.
    pub fn get_stats(&self) -> (r: CacheStats)
        requires
            self.hits + self.misses <= u64::MAX,
        ensures
            r.size == self.entries@.len(),
            r.max_size == self.max_size,
            r.hits == self.hits,
            r.misses == self.misses,
            r.hit_rate_permille == if self.hits + self.misses > 0 {
                self.hits * 1000 / (self.hits + self.misses)
            } else {
                0int
            },
    {
        let total = self.hits + self.misses;
        let hit_rate_permille: u32 = if total > 0 {
            let p128: u128 = (self.hits as u128) * 1000u128 / (total as u128);
            proof {
                assert(self.hits * 1000 / (self.hits + self.misses) <= 1000) by (nonlinear_arith)
                    requires
                        self.hits + self.misses >= 1,
                        0 <= self.hits <= self.hits + self.misses,
                ;
            }
            p128 as u32
        } else {
            0
        };
        CacheStats {
            size: self.entries.len(),
            max_size: self.max_size,
            hits: self.hits,
            misses: self.misses,
            hit_rate_permille,
        }
    }

    pub fn reset_stats(&mut self)
        ensures
            final(self).wf() == old(self).wf(),
            final(self).entries@ == old(self).entries@,
            final(self).hits == 0,
            final(self).misses == 0,
            final(self).max_size == old(self).max_size,
            final(self).ttl_ns == old(self).ttl_ns,
    {
        self.hits = 0;
        self.misses = 0;
    }
}

impl Default for MetadataCache {
    /// Ten thousand entries, an hour of freshness.
    fn default() -> (r: Self)
        ensures
            r.wf(),
            r.max_size == 10000,
            r.ttl_ns == 3_600_000_000_000,
    {
        MetadataCache::new(10000, 3_600_000_000_000)
    }
}

} // verus!
