//! The cache layer: a TTL-keyed metadata cache and a size-bounded file
//! cache with oldest-first eviction.
//!
//! The metadata cache holds serialised payloads under string keys; a
//! read returns the value only while it is unexpired, and a sweep drops
//! expired entries. The file cache accounts for the bytes it holds
//! incrementally; before a write that would exceed its budget it evicts
//! the oldest entries by creation time until the write fits, and its
//! accounted size never exceeds the budget.

use vstd::prelude::*;
use crate::errors::AppError;
use crate::text::str_eq;

verus! {

/// A cached value with its creation and expiry stamps (seconds).
/// An entry is expired exactly when the current time has passed
/// `expires_at`.
#[derive(Debug, Clone)]
pub struct CacheEntry<T> {
    pub data: T,
    pub created_at: u64,
    pub expires_at: u64,
}

/// The expiry stamp a write at `now` under `ttl_seconds` produces: the
/// write instant plus the time to live, saturating at the end of time.
/// A zero time to live back-dates the stamp by one second, so the entry
/// reads expired from the write instant on while the expiry rule stays
/// "expired exactly when the clock has passed the stamp".
pub open spec fn spec_expiry_stamp(ttl_seconds: u64, now: u64) -> u64 {
    if ttl_seconds == 0 {
        if now > 0 {
            (now - 1) as u64
        } else {
            0
        }
    } else if now + ttl_seconds <= u64::MAX {
        (now + ttl_seconds) as u64
    } else {
        u64::MAX
    }
}

impl<T> CacheEntry<T> {
    /// Wraps a value, stamping it with the given clock reading and
    /// time-to-live.
    pub fn new(data: T, ttl_seconds: u64, now: u64) -> (r: CacheEntry<T>)
        ensures
            r.data == data,
            r.created_at == now,
            r.expires_at == spec_expiry_stamp(ttl_seconds, now),
    {
        let expires_at = if ttl_seconds == 0 {
            if now > 0 {
                now - 1
            } else {
                0
            }
        } else if ttl_seconds > u64::MAX - now {
            u64::MAX
        } else {
            now + ttl_seconds
        };
        CacheEntry { data, created_at: now, expires_at }
    }

    /// An entry is expired exactly when the clock has passed its expiry
    /// stamp.
    pub fn is_expired(&self, now: u64) -> (r: bool)
        ensures
            r == (now > self.expires_at),
    {
        now > self.expires_at
    }
}

/// The entry one metadata-cache write stores: the value, stamped at
/// the write instant with its expiry.
pub open spec fn spec_stored_entry(value: String, ttl_seconds: u64, now: u64) -> CacheEntry<
    String,
> {
    CacheEntry { data: value, created_at: now, expires_at: spec_expiry_stamp(ttl_seconds, now) }
}

/// The time-to-live law: an entry written with a zero time to live is
/// expired at the write instant and at every instant after it, and an
/// entry with a positive time to live is unexpired exactly up to the
/// write instant plus the time to live. The one input left out is a
/// zero-time-to-live write at clock reading zero, where no earlier
/// instant exists for the stamp to point at.
pub proof fn lemma_cache_ttl(ttl_seconds: u64, created: u64, probe: u64)
    requires
        created + ttl_seconds <= u64::MAX,
    ensures
        ttl_seconds == 0 && created > 0 && probe >= created ==> probe > spec_expiry_stamp(
            ttl_seconds,
            created,
        ),
        ttl_seconds > 0 ==> (probe > spec_expiry_stamp(ttl_seconds, created) <==> probe > created
            + ttl_seconds),
{
}

/// The in-memory metadata cache: an association list from keys to
/// entries, with unique keys.
pub struct MetadataCache {
    pub entries: Vec<(String, CacheEntry<String>)>,
    pub default_ttl: u64,
}

impl MetadataCache {
    /// Unique keys.
    pub open spec fn wf(self) -> bool {
        forall|i: int, j: int|
            0 <= i < j < self.entries@.len() ==> (#[trigger] self.entries@[i]).0@ != (
            #[trigger] self.entries@[j]).0@
    }

    /// The key is present (expired or not).
    pub open spec fn spec_has_key(self, key: Seq<char>) -> bool {
        exists|i: int| 0 <= i < self.entries@.len() && (#[trigger] self.entries@[i]).0@ == key
    }

    /// The key is present and not expired at the given instant.
    pub open spec fn spec_live(self, key: Seq<char>, now: u64) -> bool {
        exists|i: int|
            0 <= i < self.entries@.len() && (#[trigger] self.entries@[i]).0@ == key && !(now
                > self.entries@[i].1.expires_at)
    }

    pub fn new(default_ttl_seconds: u64) -> (r: MetadataCache)
        ensures
            r.wf(),
            r.entries@.len() == 0,
            r.default_ttl == default_ttl_seconds,
    {
        MetadataCache { entries: Vec::new(), default_ttl: default_ttl_seconds }
    }

    fn find_key(&self, key: &str) -> (r: Option<usize>)
        requires
            self.wf(),
        ensures
            match r {
                Some(i) => i < self.entries@.len() && self.entries@[i as int].0@ == key@,
                None => forall|i: int|
                    0 <= i < self.entries@.len() ==> (#[trigger] self.entries@[i]).0@ != key@,
            },
    {
        let n = self.entries.len();
        let mut i: usize = 0;
        while i < n
            invariant
                n == self.entries@.len(),
                i <= n,
                forall|j: int| 0 <= j < i ==> (#[trigger] self.entries@[j]).0@ != key@,
            decreases n - i,
        {
            if str_eq(self.entries[i].0.as_str(), key) {
                return Some(i);
            }
            i = i + 1;
        }
        None
    }

    /// Reads a value: present only while unexpired. An expired entry
    /// yields nothing (the sweep removes it later).
    pub fn get(&self, key: &str, now: u64) -> (r: Option<String>)
        requires
            self.wf(),
        ensures
            match r {
                Some(v) => exists|i: int|
                    0 <= i < self.entries@.len() && (#[trigger] self.entries@[i]).0@ == key@ && !(
                    now > self.entries@[i].1.expires_at) && v@ == self.entries@[i].1.data@,
                None => !self.spec_live(key@, now),
            },
    {
        match self.find_key(key) {
            None => None,
            Some(i) => {
                if self.entries[i].1.is_expired(now) {
                    proof {
                        assert forall|j: int|
                            0 <= j < self.entries@.len() && (#[trigger] self.entries@[j]).0@
                                == key@ implies (now > self.entries@[j].1.expires_at) by {
                            if j != i as int {
                                assert((self.entries@[i as int]).0@ == (self.entries@[j]).0@);
                            }
                        }
                    }
                    None
                } else {
                    Some(self.entries[i].1.data.clone())
                }
            },
        }
    }

    /// Writes a value under the cache's default time-to-live: the table
    /// afterwards is the table before with the entry under `key`
    /// replaced (or appended) by the given value, stamped at `now`;
    /// every other entry is untouched.
    pub fn set(&mut self, key: String, value: String, now: u64)
        requires
            old(self).wf(),
        ensures
            final(self).wf(),
            final(self).default_ttl == old(self).default_ttl,
            (exists|i: int|
                0 <= i < old(self).entries@.len() && (#[trigger] old(self).entries@[i]).0@ == key@
                    && final(self).entries@ =~= old(self).entries@.update(
                    i,
                    (key, spec_stored_entry(value, old(self).default_ttl, now)),
                )) || ((forall|i: int|
                0 <= i < old(self).entries@.len() ==> (#[trigger] old(self).entries@[i]).0@
                    != key@) && final(self).entries@ =~= old(self).entries@.push(
                (key, spec_stored_entry(value, old(self).default_ttl, now)),
            )),
    {
        let ttl = self.default_ttl;
        self.set_with_ttl(key, value, ttl, now)
    }

    /// Writes a value under an explicit time-to-live: the table
    /// afterwards is the table before with the entry under `key`
    /// replaced (or appended) by the given value, stamped with `now`
    /// and the expiry `now + ttl_seconds` (saturating; a zero
    /// time-to-live back-dates the stamp); every other entry is
    /// untouched.
    pub fn set_with_ttl(&mut self, key: String, value: String, ttl_seconds: u64, now: u64)
        requires
            old(self).wf(),
        ensures
            final(self).wf(),
            final(self).default_ttl == old(self).default_ttl,
            (exists|i: int|
                0 <= i < old(self).entries@.len() && (#[trigger] old(self).entries@[i]).0@ == key@
                    && final(self).entries@ =~= old(self).entries@.update(
                    i,
                    (key, spec_stored_entry(value, ttl_seconds, now)),
                )) || ((forall|i: int|
                0 <= i < old(self).entries@.len() ==> (#[trigger] old(self).entries@[i]).0@
                    != key@) && final(self).entries@ =~= old(self).entries@.push(
                (key, spec_stored_entry(value, ttl_seconds, now)),
            )),
    {
        let entry = CacheEntry::new(value, ttl_seconds, now);
        let pos = self.find_key(key.as_str());
        match pos {
            Some(i) => {
                proof {
                    assert(entry == spec_stored_entry(value, ttl_seconds, now));
                }
                self.entries.set(i, (key, entry));
                proof {
                    assert((self.entries@[i as int]).0@ == key@);
                    assert(final(self).entries@ =~= old(self).entries@.update(
                        i as int,
                        (key, spec_stored_entry(value, ttl_seconds, now)),
                    ));
                }
            },
            None => {
                proof {
                    assert(entry == spec_stored_entry(value, ttl_seconds, now));
                }
                self.entries.push((key, entry));
                proof {
                    let n = self.entries@.len() - 1;
                    assert((self.entries@[n]).0@ == key@);
                }
            },
        }
    }

    /// Removes one key: the table afterwards is the table before with
    /// that key's entry (if any) taken out; every other entry is
    /// untouched.
    pub fn remove(&mut self, key: &str)
        requires
            old(self).wf(),
        ensures
            final(self).wf(),
            final(self).default_ttl == old(self).default_ttl,
            !final(self).spec_has_key(key@),
            (exists|i: int|
                0 <= i < old(self).entries@.len() && (#[trigger] old(self).entries@[i]).0@ == key@
                    && final(self).entries@ =~= old(self).entries@.remove(i)) || ((forall|i: int|
                0 <= i < old(self).entries@.len() ==> (#[trigger] old(self).entries@[i]).0@
                    != key@) && final(self).entries@ == old(self).entries@),
    {
        match self.find_key(key) {
            None => {},
            Some(i) => {
                self.entries.remove(i);
                proof {
                    assert forall|j: int|
                        0 <= j < self.entries@.len() implies (#[trigger] self.entries@[j]).0@
                        != key@ by {
                        if j < i as int {
                            assert(self.entries@[j] == old(self).entries@[j]);
                        } else {
                            assert(self.entries@[j] == old(self).entries@[j + 1]);
                        }
                    }
                }
            },
        }
    }

    /// Sweeps every expired entry out; live entries stay.
    pub fn clear_expired(&mut self, now: u64)
        requires
            old(self).wf(),
        ensures
            final(self).wf(),
            final(self).default_ttl == old(self).default_ttl,
            forall|i: int|
                0 <= i < final(self).entries@.len() ==> !(now > (#[trigger] final(self).entries@[i]).1.expires_at),
            forall|i: int|
                0 <= i < old(self).entries@.len() && !(now > (#[trigger] old(self).entries@[i]).1.expires_at) ==> final(self).entries@.contains(
                    old(self).entries@[i],
                ),
            forall|j: int|
                0 <= j < final(self).entries@.len() ==> old(self).entries@.contains(
                    #[trigger] final(self).entries@[j],
                ),
    {
        let n = self.entries.len();
        let mut out: Vec<(String, CacheEntry<String>)> = Vec::new();
        let mut i: usize = 0;
        while i < n
            invariant
                n == old(self).entries@.len(),
                *self == *old(self),
                old(self).wf(),
                i <= n,
                forall|j: int|
                    0 <= j < out@.len() ==> !(now > (#[trigger] out@[j]).1.expires_at),
                forall|j: int|
                    0 <= j < out@.len() ==> exists|k: int|
                        0 <= k < i && #[trigger] out@[j] == #[trigger] old(self).entries@[k],
                forall|k: int|
                    0 <= k < i && !(now > (#[trigger] old(self).entries@[k]).1.expires_at)
                        ==> out@.contains(old(self).entries@[k]),
                forall|a: int, b: int|
                    0 <= a < b < out@.len() ==> (#[trigger] out@[a]).0@ != (
                    #[trigger] out@[b]).0@,
            decreases n - i,
        {
            if !self.entries[i].1.is_expired(now) {
                let k = self.entries[i].0.clone();
                let e = CacheEntry {
                    data: self.entries[i].1.data.clone(),
                    created_at: self.entries[i].1.created_at,
                    expires_at: self.entries[i].1.expires_at,
                };
                proof {
                    assert((k, e) == old(self).entries@[i as int]);
                    assert forall|j: int| 0 <= j < out@.len() implies (#[trigger] out@[j]).0@
                        != k@ by {
                        let kk = choose|kk: int|
                            0 <= kk < i && out@[j] == #[trigger] old(self).entries@[kk];
                        assert(old(self).entries@[kk].0@ != old(self).entries@[i as int].0@);
                    }
                }
                let ghost out_before = out@;
                out.push((k, e));
                proof {
                    assert forall|kk: int|
                        0 <= kk < i + 1 && !(now > (#[trigger] old(self).entries@[kk]).1.expires_at) implies out@.contains(
                        old(self).entries@[kk],
                    ) by {
                        if kk == i as int {
                            assert(out@[out@.len() - 1] == old(self).entries@[kk]);
                        } else {
                            let j = choose|j: int|
                                0 <= j < out_before.len() && out_before[j] == old(self).entries@[kk];
                            assert(out@[j] == old(self).entries@[kk]);
                        }
                    }
                }
            }
            i = i + 1;
        }
        proof {
            assert forall|j: int|
                0 <= j < out@.len() implies old(self).entries@.contains(#[trigger] out@[j]) by {
                let k = choose|k: int| 0 <= k < i && out@[j] == #[trigger] old(self).entries@[k];
                assert(old(self).entries@[k] == out@[j]);
            }
        }
        self.entries = out;
    }

    /// Drops everything.
    pub fn clear_all(&mut self)
        ensures
            final(self).wf(),
            final(self).entries@.len() == 0,
            final(self).default_ttl == old(self).default_ttl,
    {
        self.entries = Vec::new();
    }

    /// The number of entries held, expired ones included.
    pub fn size(&self) -> (r: usize)
        ensures
            r == self.entries@.len(),
    {
        self.entries.len()
    }
}


/// One accounted entry of the on-disk file cache: the blob itself lives
/// on disk, the engine tracks key, size and age.
#[derive(Debug, Clone)]
pub struct FileCacheEntry {
    pub key: String,
    pub size_bytes: u64,
    pub created_at: u64,
}

/// The bytes the cache accounts for.
pub open spec fn sum_sizes(s: Seq<FileCacheEntry>) -> int
    decreases s.len(),
{
    if s.len() == 0 {
        0
    } else {
        sum_sizes(s.drop_last()) + s.last().size_bytes
    }
}

proof fn lemma_sum_nonneg(s: Seq<FileCacheEntry>)
    ensures
        sum_sizes(s) >= 0,
    decreases s.len(),
{
    if s.len() > 0 {
        lemma_sum_nonneg(s.drop_last());
    }
}

proof fn lemma_sum_remove(s: Seq<FileCacheEntry>, i: int)
    requires
        0 <= i < s.len(),
    ensures
        sum_sizes(s.remove(i)) == sum_sizes(s) - s[i].size_bytes,
    decreases s.len(),
{
    if i == s.len() - 1 {
        assert(s.remove(i) =~= s.drop_last());
    } else {
        assert(s.remove(i).drop_last() =~= s.drop_last().remove(i));
        assert(s.remove(i).last() == s.last());
        lemma_sum_remove(s.drop_last(), i);
    }
}

proof fn lemma_sum_push(s: Seq<FileCacheEntry>, e: FileCacheEntry)
    ensures
        sum_sizes(s.push(e)) == sum_sizes(s) + e.size_bytes,
{
    assert(s.push(e).drop_last() =~= s);
}

proof fn lemma_sum_element_le(s: Seq<FileCacheEntry>, i: int)
    requires
        0 <= i < s.len(),
    ensures
        s[i].size_bytes <= sum_sizes(s),
    decreases s.len(),
{
    if i == s.len() - 1 {
        lemma_sum_nonneg(s.drop_last());
    } else {
        lemma_sum_element_le(s.drop_last(), i);
    }
}

/// An entry of the old table, under another key, that a write evicted:
/// it is gone from the new table.
pub open spec fn spec_evicted(
    old_entries: Seq<FileCacheEntry>,
    new_entries: Seq<FileCacheEntry>,
    key: Seq<char>,
    x: int,
) -> bool {
    &&& 0 <= x < old_entries.len()
    &&& old_entries[x].key@ != key
    &&& !new_entries.contains(old_entries[x])
}

/// The size-bounded file cache. It tracks its aggregate size
/// incrementally; the accounted size never exceeds the budget.
pub struct FileCache {
    pub entries: Vec<FileCacheEntry>,
    pub max_size_bytes: u64,
    pub current_size: u64,
}

impl FileCache {
    /// The accounting invariant: the tracked size is exactly the sum of
    /// the entries' sizes, it stays within the budget, and keys are
    /// unique.
    pub open spec fn wf(self) -> bool {
        &&& self.current_size == sum_sizes(self.entries@)
        &&& self.current_size <= self.max_size_bytes
        &&& forall|i: int, j: int|
            0 <= i < j < self.entries@.len() ==> (#[trigger] self.entries@[i]).key@ != (
            #[trigger] self.entries@[j]).key@
    }

    pub open spec fn spec_has_key(self, key: Seq<char>) -> bool {
        exists|i: int| 0 <= i < self.entries@.len() && (#[trigger] self.entries@[i]).key@ == key
    }

    pub fn new(max_size_mb: u64) -> (r: FileCache)
        requires
            max_size_mb <= u64::MAX / 1048576,
        ensures
            r.wf(),
            r.entries@.len() == 0,
            r.max_size_bytes == max_size_mb * 1024 * 1024,
            r.current_size == 0,
    {
        FileCache {
            entries: Vec::new(),
            max_size_bytes: max_size_mb * 1024 * 1024,
            current_size: 0,
        }
    }

    fn find_key(&self, key: &str) -> (r: Option<usize>)
        ensures
            match r {
                Some(i) => i < self.entries@.len() && self.entries@[i as int].key@ == key@,
                None => forall|i: int|
                    0 <= i < self.entries@.len() ==> (#[trigger] self.entries@[i]).key@ != key@,
            },
    {
        let n = self.entries.len();
        let mut i: usize = 0;
        while i < n
            invariant
                n == self.entries@.len(),
                i <= n,
                forall|j: int| 0 <= j < i ==> (#[trigger] self.entries@[j]).key@ != key@,
            decreases n - i,
        {
            if str_eq(self.entries[i].key.as_str(), key) {
                return Some(i);
            }
            i = i + 1;
        }
        None
    }

    /// The accounted size of a cached blob, if the key is held.
    pub fn get(&self, key: &str) -> (r: Option<u64>)
        ensures
            match r {
                Some(sz) => exists|i: int|
                    0 <= i < self.entries@.len() && (#[trigger] self.entries@[i]).key@ == key@
                        && self.entries@[i].size_bytes == sz,
                None => !self.spec_has_key(key@),
            },
    {
        match self.find_key(key) {
            None => None,
            Some(i) => Some(self.entries[i].size_bytes),
        }
    }

    /// Forgets one key, releasing its accounted bytes. Every other entry
    /// stays.
    pub fn remove(&mut self, key: &str) -> (r: Result<(), AppError>)
        requires
            old(self).wf(),
        ensures
            final(self).wf(),
            final(self).max_size_bytes == old(self).max_size_bytes,
            !final(self).spec_has_key(key@),
            r is Ok,
            forall|i: int|
                0 <= i < old(self).entries@.len() && (#[trigger] old(self).entries@[i]).key@
                    != key@ ==> final(self).entries@.contains(old(self).entries@[i]),
            forall|j: int|
                0 <= j < final(self).entries@.len() ==> old(self).entries@.contains(
                    #[trigger] final(self).entries@[j],
                ),
    {
        match self.find_key(key) {
            None => {
                proof {
                    assert forall|j: int|
                        0 <= j < self.entries@.len() implies old(self).entries@.contains(
                        #[trigger] self.entries@[j],
                    ) by {
                        assert(old(self).entries@[j] == self.entries@[j]);
                    }
                }
                Ok(())
            },
            Some(i) => {
                proof {
                    lemma_sum_remove(self.entries@, i as int);
                    lemma_sum_element_le(self.entries@, i as int);
                    lemma_sum_nonneg(self.entries@.remove(i as int));
                }
                let sz = self.entries[i].size_bytes;
                self.entries.remove(i);
                self.current_size = self.current_size - sz;
                proof {
                    assert forall|j: int|
                        0 <= j < self.entries@.len() implies (#[trigger] self.entries@[j]).key@
                        != key@ by {
                        if j < i as int {
                            assert(self.entries@[j] == old(self).entries@[j]);
                        } else {
                            assert(self.entries@[j] == old(self).entries@[j + 1]);
                        }
                    }
                    assert forall|k: int|
                        0 <= k < old(self).entries@.len() && (#[trigger] old(self).entries@[k]).key@ != key@ implies self.entries@.contains(
                        old(self).entries@[k],
                    ) by {
                        if k < i as int {
                            assert(self.entries@[k] == old(self).entries@[k]);
                        } else if k > i as int {
                            assert(self.entries@[k - 1] == old(self).entries@[k]);
                        }
                    }
                    assert forall|j: int|
                        0 <= j < self.entries@.len() implies old(self).entries@.contains(
                        #[trigger] self.entries@[j],
                    ) by {
                        if j < i as int {
                            assert(old(self).entries@[j] == self.entries@[j]);
                        } else {
                            assert(old(self).entries@[j + 1] == self.entries@[j]);
                        }
                    }
                }
                Ok(())
            },
        }
    }

    /// The index of the oldest entry by creation time.
    fn oldest_index(&self) -> (r: usize)
        requires
            self.entries@.len() > 0,
        ensures
            r < self.entries@.len(),
            forall|j: int|
                0 <= j < self.entries@.len() ==> (#[trigger] self.entries@[j]).created_at
                    >= self.entries@[r as int].created_at,
    {
        let n = self.entries.len();
        let mut best: usize = 0;
        let mut i: usize = 1;
        while i < n
            invariant
                n == self.entries@.len(),
                best < i <= n || (best == 0 && i <= n),
                best < n,
                forall|j: int|
                    0 <= j < i ==> (#[trigger] self.entries@[j]).created_at
                        >= self.entries@[best as int].created_at,
            decreases n - i,
        {
            if self.entries[i].created_at < self.entries[best].created_at {
                best = i;
            }
            i = i + 1;
        }
        best
    }

    /// Accounts a new blob under its content key, first releasing any
    /// previous blob under the same key, then evicting the oldest
    /// entries until the write fits the budget. A blob larger than the
    /// whole budget is refused. After every successful write the
    /// accounted size is within the budget, and every entry evicted for
    /// space was no younger than any entry that survived.
    pub fn set(&mut self, key: String, size_bytes: u64, now: u64) -> (r: Result<(), AppError>)
        requires
            old(self).wf(),
        ensures
            final(self).wf(),
            final(self).max_size_bytes == old(self).max_size_bytes,
            size_bytes > old(self).max_size_bytes <==> r is Err,
            r is Err ==> *final(self) == *old(self),
            r is Ok ==> {
                &&& final(self).entries@.len() > 0
                &&& final(self).entries@.last().key@ == key@
                &&& final(self).entries@.last().size_bytes == size_bytes
                &&& final(self).entries@.last().created_at == now
                &&& final(self).current_size <= final(self).max_size_bytes
                &&& forall|j: int|
                    0 <= j < final(self).entries@.len() - 1 ==> old(self).entries@.contains(
                        #[trigger] final(self).entries@[j],
                    ) && (#[trigger] final(self).entries@[j]).key@ != key@
                &&& forall|x: int|
                    0 <= x < old(self).entries@.len() && (#[trigger] old(self).entries@[x]).key@ != key@ && !final(self).entries@.contains(
                        old(self).entries@[x],
                    ) ==> forall|y: int|
                        0 <= y < final(self).entries@.len() - 1 ==> old(self).entries@[x].created_at <= (#[trigger] final(self).entries@[y]).created_at
                &&& (exists|x: int|
                    #[trigger] spec_evicted(old(self).entries@, final(self).entries@, key@, x))
                    ==> (exists|x: int|
                    {
                        &&& #[trigger] spec_evicted(old(self).entries@, final(self).entries@, key@, x)
                        &&& forall|y: int|
                            #[trigger] spec_evicted(old(self).entries@, final(self).entries@, key@, y)
                                ==> old(self).entries@[y].created_at <= old(self).entries@[x].created_at
                        &&& final(self).current_size + old(self).entries@[x].size_bytes > final(self).max_size_bytes
                    })
            },
    {
        if size_bytes > self.max_size_bytes {
            return Err(
                AppError::Validation(String::from_str("blob exceeds the whole cache budget")),
            );
        }
        let res = self.remove(key.as_str());
        proof {
            let _ = res;
        }
        let ghost base = *self;
        let ghost mut last_evicted: Option<FileCacheEntry> = None;
        proof {
            assert forall|j: int|
                0 <= j < base.entries@.len() implies self.entries@.contains(
                #[trigger] base.entries@[j],
            ) by {
                assert(self.entries@[j] == base.entries@[j]);
            }
        }
        while self.current_size > self.max_size_bytes - size_bytes
            invariant
                self.wf(),
                base.wf(),
                size_bytes <= self.max_size_bytes,
                self.max_size_bytes == base.max_size_bytes,
                !self.spec_has_key(key@),
                !base.spec_has_key(key@),
                forall|j: int|
                    0 <= j < self.entries@.len() ==> base.entries@.contains(
                        #[trigger] self.entries@[j],
                    ),
                forall|x: int|
                    0 <= x < base.entries@.len() && !self.entries@.contains(
                        #[trigger] base.entries@[x],
                    ) ==> forall|y: int|
                        0 <= y < self.entries@.len() ==> base.entries@[x].created_at <= (
                        #[trigger] self.entries@[y]).created_at,
                match last_evicted {
                    None => forall|j: int|
                        0 <= j < base.entries@.len() ==> self.entries@.contains(
                            #[trigger] base.entries@[j],
                        ),
                    Some(e) => {
                        &&& base.entries@.contains(e)
                        &&& !self.entries@.contains(e)
                        &&& forall|x: int|
                            0 <= x < base.entries@.len() && !self.entries@.contains(
                                #[trigger] base.entries@[x],
                            ) ==> base.entries@[x].created_at <= e.created_at
                        &&& forall|j: int|
                            0 <= j < self.entries@.len() ==> e.created_at <= (
                            #[trigger] self.entries@[j]).created_at
                        &&& self.current_size + size_bytes + e.size_bytes > self.max_size_bytes
                    },
                },
            decreases self.entries@.len(),
        {
            proof {
                if self.entries@.len() == 0 {
                    assert(sum_sizes(self.entries@) == 0);
                    assert(false);
                }
            }
            let m = self.oldest_index();
            proof {
                lemma_sum_remove(self.entries@, m as int);
                lemma_sum_element_le(self.entries@, m as int);
                lemma_sum_nonneg(self.entries@.remove(m as int));
            }
            let ghost before = *self;
            let sz = self.entries[m].size_bytes;
            self.entries.remove(m);
            self.current_size = self.current_size - sz;
            proof {
                assert forall|j: int|
                    0 <= j < self.entries@.len() implies base.entries@.contains(
                    #[trigger] self.entries@[j],
                ) by {
                    if j < m as int {
                        assert(self.entries@[j] == before.entries@[j]);
                    } else {
                        assert(self.entries@[j] == before.entries@[j + 1]);
                    }
                }
                assert forall|i2: int, j2: int|
                    0 <= i2 < j2 < self.entries@.len() implies (
                #[trigger] self.entries@[i2]).key@ != (#[trigger] self.entries@[j2]).key@ by {
                    let a = if i2 < m as int {
                        i2
                    } else {
                        i2 + 1
                    };
                    let b = if j2 < m as int {
                        j2
                    } else {
                        j2 + 1
                    };
                    assert(before.entries@[a] == self.entries@[i2]);
                    assert(before.entries@[b] == self.entries@[j2]);
                }
                assert forall|j: int|
                    0 <= j < self.entries@.len() implies (#[trigger] self.entries@[j]).key@
                    != key@ by {
                    if j < m as int {
                        assert(self.entries@[j] == before.entries@[j]);
                    } else {
                        assert(self.entries@[j] == before.entries@[j + 1]);
                    }
                }
                assert forall|x: int|
                    0 <= x < base.entries@.len() && !self.entries@.contains(
                        #[trigger] base.entries@[x],
                    ) implies forall|y: int|
                    0 <= y < self.entries@.len() ==> base.entries@[x].created_at <= (
                    #[trigger] self.entries@[y]).created_at by {
                    if before.entries@.contains(base.entries@[x]) {
                        // The entry evicted this round: it was the oldest
                        // of what remained.
                        let bx = choose|bx: int|
                            0 <= bx < before.entries@.len() && before.entries@[bx] == base.entries@[x];
                        assert(before.entries@[bx].created_at
                            >= before.entries@[m as int].created_at);
                        assert forall|y: int|
                            0 <= y < self.entries@.len() implies base.entries@[x].created_at <= (
                        #[trigger] self.entries@[y]).created_at by {
                            if bx == m as int {
                                // the evicted entry itself: oldest of all
                                let yy = if y < m as int {
                                    y
                                } else {
                                    y + 1
                                };
                                assert(self.entries@[y] == before.entries@[yy]);
                                assert(before.entries@[yy].created_at
                                    >= before.entries@[m as int].created_at);
                            } else {
                                // x survived into before but not self:
                                // impossible unless x was the removed one
                                let yy = if y < m as int {
                                    y
                                } else {
                                    y + 1
                                };
                                assert(self.entries@[y] == before.entries@[yy]);
                                assert(before.entries@.remove(m as int) =~= self.entries@);
                                assert(self.entries@.contains(base.entries@[x]) == false);
                                if bx < m as int {
                                    assert(self.entries@[bx] == before.entries@[bx]);
                                    assert(false);
                                } else {
                                    assert(self.entries@[bx - 1] == before.entries@[bx]);
                                    assert(false);
                                }
                            }
                        }
                    } else {
                        // evicted in an earlier round
                        assert forall|y: int|
                            0 <= y < self.entries@.len() implies base.entries@[x].created_at <= (
                        #[trigger] self.entries@[y]).created_at by {
                            let yy = if y < m as int {
                                y
                            } else {
                                y + 1
                            };
                            assert(self.entries@[y] == before.entries@[yy]);
                        }
                    }
                }
                // Track the youngest entry evicted so far: this round's.
                let em = before.entries@[m as int];
                assert(base.entries@.contains(em));
                assert forall|j: int| 0 <= j < self.entries@.len() implies (
                #[trigger] self.entries@[j]) != em by {
                    let jj = if j < m as int {
                        j
                    } else {
                        j + 1
                    };
                    assert(self.entries@[j] == before.entries@[jj]);
                    assert(before.entries@[jj].key@ != before.entries@[m as int].key@);
                }
                assert(!self.entries@.contains(em)) by {
                    if self.entries@.contains(em) {
                        let j = choose|j: int|
                            0 <= j < self.entries@.len() && self.entries@[j] == em;
                        assert(self.entries@[j] != em);
                    }
                }
                assert forall|x: int|
                    0 <= x < base.entries@.len() && !self.entries@.contains(
                        #[trigger] base.entries@[x],
                    ) implies base.entries@[x].created_at <= em.created_at by {
                    if before.entries@.contains(base.entries@[x]) {
                        let bx = choose|bx: int|
                            0 <= bx < before.entries@.len() && before.entries@[bx]
                                == base.entries@[x];
                        if bx != m as int {
                            let sj = if bx < m as int {
                                bx
                            } else {
                                bx - 1
                            };
                            assert(self.entries@[sj] == before.entries@[bx]);
                            assert(self.entries@.contains(base.entries@[x]));
                        }
                    } else {
                        match last_evicted {
                            Option::None => {
                                assert(before.entries@.contains(base.entries@[x]));
                            },
                            Option::Some(e_prev) => {
                                assert(base.entries@[x].created_at <= e_prev.created_at);
                                assert(e_prev.created_at
                                    <= before.entries@[m as int].created_at);
                            },
                        }
                    }
                }
                assert forall|j: int|
                    0 <= j < self.entries@.len() implies em.created_at <= (
                #[trigger] self.entries@[j]).created_at by {
                    let jj = if j < m as int {
                        j
                    } else {
                        j + 1
                    };
                    assert(self.entries@[j] == before.entries@[jj]);
                    assert(before.entries@[jj].created_at
                        >= before.entries@[m as int].created_at);
                }
                last_evicted = Some(em);
            }
        }
        let entry = FileCacheEntry { key, size_bytes, created_at: now };
        proof {
            lemma_sum_push(self.entries@, entry);
        }
        let ghost pre_push = *self;
        self.entries.push(entry);
        self.current_size = self.current_size + size_bytes;
        proof {
            assert forall|j: int|
                0 <= j < self.entries@.len() - 1 implies old(self).entries@.contains(
                #[trigger] self.entries@[j],
            ) && (#[trigger] self.entries@[j]).key@ != key@ by {
                assert(self.entries@[j] == pre_push.entries@[j]);
                assert(base.entries@.contains(pre_push.entries@[j]));
                let k = choose|k: int|
                    0 <= k < base.entries@.len() && base.entries@[k] == pre_push.entries@[j];
                assert(old(self).entries@.contains(base.entries@[k]));
            }
            assert forall|x: int|
                0 <= x < old(self).entries@.len() && (#[trigger] old(self).entries@[x]).key@
                    != key@ && !self.entries@.contains(old(self).entries@[x]) implies forall|
                y: int,
            |
                0 <= y < self.entries@.len() - 1 ==> old(self).entries@[x].created_at <= (
                #[trigger] self.entries@[y]).created_at by {
                let e0 = old(self).entries@[x];
                assert(base.entries@.contains(e0));
                let bx = choose|bx: int|
                    0 <= bx < base.entries@.len() && base.entries@[bx] == e0;
                assert(!pre_push.entries@.contains(e0)) by {
                    if pre_push.entries@.contains(e0) {
                        let j = choose|j: int|
                            0 <= j < pre_push.entries@.len() && pre_push.entries@[j] == e0;
                        assert(self.entries@[j] == e0);
                        assert(self.entries@.contains(e0));
                    }
                }
                assert forall|y: int|
                    0 <= y < self.entries@.len() - 1 implies old(
                    self,
                ).entries@[x].created_at <= (#[trigger] self.entries@[y]).created_at by {
                    assert(self.entries@[y] == pre_push.entries@[y]);
                    assert(base.entries@[bx].created_at <= pre_push.entries@[y].created_at);
                }
            }
            // The last eviction was forced: putting its entry back would
            // break the budget, so nothing was evicted beyond need.
            if exists|x: int|
                #[trigger] spec_evicted(old(self).entries@, self.entries@, key@, x) {
                match last_evicted {
                    Option::None => {
                        let x0 = choose|x: int|
                            #[trigger] spec_evicted(old(self).entries@, self.entries@, key@, x);
                        let e0 = old(self).entries@[x0];
                        assert(base.entries@.contains(e0));
                        let b0 = choose|b0: int|
                            0 <= b0 < base.entries@.len() && base.entries@[b0] == e0;
                        assert(pre_push.entries@.contains(base.entries@[b0]));
                        let pj = choose|pj: int|
                            0 <= pj < pre_push.entries@.len() && pre_push.entries@[pj] == e0;
                        assert(self.entries@[pj] == e0);
                        assert(self.entries@.contains(e0));
                        assert(false);
                    },
                    Option::Some(e) => {
                        assert(base.entries@.contains(e));
                        let be = choose|be: int|
                            0 <= be < base.entries@.len() && base.entries@[be] == e;
                        assert(old(self).entries@.contains(base.entries@[be]));
                        let ox = choose|ox: int|
                            0 <= ox < old(self).entries@.len() && old(self).entries@[ox] == e;
                        assert(base.entries@[be].key@ != key@) by {
                            if base.entries@[be].key@ == key@ {
                                assert(base.spec_has_key(key@));
                            }
                        }
                        assert(!self.entries@.contains(e)) by {
                            if self.entries@.contains(e) {
                                let j = choose|j: int|
                                    0 <= j < self.entries@.len() && self.entries@[j] == e;
                                if j < self.entries@.len() - 1 {
                                    assert(pre_push.entries@[j] == e);
                                    assert(pre_push.entries@.contains(e));
                                } else {
                                    assert(e.key@ == key@);
                                }
                            }
                        }
                        assert(spec_evicted(old(self).entries@, self.entries@, key@, ox));
                        assert forall|y: int|
                            #[trigger] spec_evicted(
                                old(self).entries@,
                                self.entries@,
                                key@,
                                y,
                            ) implies old(self).entries@[y].created_at <= old(
                            self,
                        ).entries@[ox].created_at by {
                            let ey = old(self).entries@[y];
                            assert(base.entries@.contains(ey));
                            let by0 = choose|by0: int|
                                0 <= by0 < base.entries@.len() && base.entries@[by0] == ey;
                            assert(!pre_push.entries@.contains(ey)) by {
                                if pre_push.entries@.contains(ey) {
                                    let j = choose|j: int|
                                        0 <= j < pre_push.entries@.len() && pre_push.entries@[j]
                                            == ey;
                                    assert(self.entries@[j] == ey);
                                    assert(self.entries@.contains(ey));
                                }
                            }
                            assert(base.entries@[by0].created_at <= e.created_at);
                        }
                        assert(self.current_size + old(self).entries@[ox].size_bytes
                            > self.max_size_bytes);
                    },
                }
            }
        }
        Ok(())
    }

    /// Drops every accounted entry: the cache directory was cleared.
    pub fn clear(&mut self) -> (r: Result<(), AppError>)
        requires
            old(self).wf(),
        ensures
            final(self).wf(),
            final(self).entries@.len() == 0,
            final(self).current_size == 0,
            final(self).max_size_bytes == old(self).max_size_bytes,
            r is Ok,
    {
        self.entries = Vec::new();
        self.current_size = 0;
        Ok(())
    }

    pub fn get_size(&self) -> (r: u64)
        ensures
            r == self.current_size,
    {
        self.current_size
    }

    pub fn get_max_size(&self) -> (r: u64)
        ensures
            r == self.max_size_bytes,
    {
        self.max_size_bytes
    }
}

/// Aggregate cache statistics.
#[derive(Debug, Clone, PartialEq, Eq, Structural)]
pub struct CacheStats {
    pub metadata_entries: usize,
    pub file_cache_size_bytes: u64,
    pub file_cache_max_bytes: u64,
}

/// The combined cache manager: the metadata cache and the file cache.
pub struct CacheManager {
    pub metadata: MetadataCache,
    pub files: FileCache,
}

impl CacheManager {
    pub fn new(max_file_cache_mb: u64, metadata_ttl_seconds: u64) -> (r: CacheManager)
        requires
            max_file_cache_mb <= u64::MAX / 1048576,
        ensures
            r.metadata.wf(),
            r.files.wf(),
            r.metadata.entries@.len() == 0,
            r.files.entries@.len() == 0,
            r.metadata.default_ttl == metadata_ttl_seconds,
            r.files.max_size_bytes == max_file_cache_mb * 1024 * 1024,
    {
        CacheManager {
            metadata: MetadataCache::new(metadata_ttl_seconds),
            files: FileCache::new(max_file_cache_mb),
        }
    }

    /// Sweeps expired metadata entries.
    pub fn cleanup_expired(&mut self, now: u64) -> (r: Result<(), AppError>)
        requires
            old(self).metadata.wf(),
        ensures
            final(self).metadata.wf(),
            final(self).files == old(self).files,
            r is Ok,
            forall|i: int|
                0 <= i < final(self).metadata.entries@.len() ==> !(now > (#[trigger] final(self).metadata.entries@[i]).1.expires_at),
    {
        self.metadata.clear_expired(now);
        Ok(())
    }

    pub fn get_cache_stats(&self) -> (r: CacheStats)
        ensures
            r.metadata_entries == self.metadata.entries@.len(),
            r.file_cache_size_bytes == self.files.current_size,
            r.file_cache_max_bytes == self.files.max_size_bytes,
    {
        CacheStats {
            metadata_entries: self.metadata.size(),
            file_cache_size_bytes: self.files.get_size(),
            file_cache_max_bytes: self.files.get_max_size(),
        }
    }
}

} // verus!
