use vstd::prelude::*;
use crate::errors::CacheError;
use crate::keys::{CacheKey, CacheKeyV};
use crate::model::{copy_task, copy_tasks, Task};

verus! {

/// Every entry written to the cache lapses this many seconds after the write.
pub const CACHE_TTL_SECONDS: u64 = 300;

/// A value the cache can hold: one task, or an owner's task collection.
#[derive(Debug)]
pub enum CacheValue {
    One(Task),
    Many(Vec<Task>),
}

/// The mathematical content of a cache value.
#[verifier::ext_equal]
pub ghost enum CacheValueV {
    One(Task),
    Many(Seq<Task>),
}

impl View for CacheValue {
    type V = CacheValueV;

    open spec fn view(&self) -> CacheValueV {
        match self {
            CacheValue::One(t) => CacheValueV::One(*t),
            CacheValue::Many(ts) => CacheValueV::Many(ts@),
        }
    }
}

/// Copies a cache value; the copy holds the same content.
pub fn copy_value(v: &CacheValue) -> (r: CacheValue)
    ensures
        r@ == v@,
{
    match v {
        CacheValue::One(t) => CacheValue::One(copy_task(t)),
        CacheValue::Many(ts) => CacheValue::Many(copy_tasks(ts)),
    }
}

/// One cache entry: a key, the stored value, and the instant the entry lapses.
pub struct CacheEntry {
    pub key: CacheKey,
    pub value: CacheValue,
    pub expires_at: u64,
}

/// A key-value cache with a fixed time-to-live, and an availability switch
/// standing for the condition of the shared backend. The backend sees keys
/// in their wire form (`CacheKey::render`); the contracts track the
/// structured form.
///
/// Time is logical: `now` only moves when `tick` is called. An entry answers
/// lookups only while `now` lies strictly before its expiry; a lapsed entry
/// is overwritten in place by the next write to its key, so keys stay unique.
pub struct Cache {
    pub entries: Vec<CacheEntry>,
    pub now: u64,
    pub available: bool,
}

impl Cache {
    /// Well-formed: keys are pairwise distinct, and the clock is far enough
    /// from overflow that a write can always compute its expiry.
    pub open spec fn wf(self) -> bool {
        &&& forall|i: int, j: int|
            0 <= i < j < self.entries@.len() ==> self.entries@[i].key@ != self.entries@[j].key@
        &&& self.now + CACHE_TTL_SECONDS < u64::MAX
    }

    /// The entry at index `i` answers a lookup of `k` now.
    pub open spec fn live_at(self, i: int, k: CacheKeyV) -> bool {
        &&& 0 <= i < self.entries@.len()
        &&& self.entries@[i].key@ == k
        &&& self.now < self.entries@[i].expires_at
    }

    /// Some entry answers a lookup of `k` now.
    pub open spec fn has_live(self, k: CacheKeyV) -> bool {
        exists|i: int| self.live_at(i, k)
    }

    /// The value a lookup of `k` answers with (meaningful when `has_live`).
    pub open spec fn live_value(self, k: CacheKeyV) -> CacheValue {
        self.entries@[choose|i: int| self.live_at(i, k)].value
    }

    /// The instant the live entry for `k` lapses (meaningful when `has_live`).
    pub open spec fn live_expiry(self, k: CacheKeyV) -> u64 {
        self.entries@[choose|i: int| self.live_at(i, k)].expires_at
    }

    /// Keys other than `k` answer exactly as before, with the same expiry.
    pub open spec fn others_preserved(pre: Cache, post: Cache, k: CacheKeyV) -> bool {
        forall|k2: CacheKeyV|
            k2 != k ==> #[trigger] post.has_live(k2) == pre.has_live(k2) && (pre.has_live(k2)
                ==> post.live_value(k2) == pre.live_value(k2) && post.live_expiry(k2)
                == pre.live_expiry(k2))
    }

    /// In a well-formed cache the live entry for a key is unique.
    pub proof fn lemma_live_unique(self, k: CacheKeyV, i: int)
        requires
            self.wf(),
            self.live_at(i, k),
        ensures
            self.has_live(k),
            self.live_value(k) == self.entries@[i].value,
            self.live_expiry(k) == self.entries@[i].expires_at,
    {
        assert(self.has_live(k));
        let j = choose|j: int| self.live_at(j, k);
        if i < j {
            assert(self.entries@[i].key@ != self.entries@[j].key@);
        } else if j < i {
            assert(self.entries@[j].key@ != self.entries@[i].key@);
        }
    }

    /// A fresh cache: empty, at time zero, with the backend reachable.
    pub fn new() -> (c: Cache)
        ensures
            c.wf(),
            c.available,
            c.now == 0,
            c.entries@.len() == 0,
    {
        Cache { entries: Vec::new(), now: 0, available: true }
    }

    /// Models losing the backend: every later operation fails until
    /// `go_online` is called. Stored entries are unaffected.
    pub fn go_offline(&mut self)
        ensures
            *final(self) == (Cache { available: false, ..*old(self) }),
    {
        self.available = false;
    }

    /// Models regaining the backend.
    pub fn go_online(&mut self)
        ensures
            *final(self) == (Cache { available: true, ..*old(self) }),
    {
        self.available = true;
    }

    /// Advances the logical clock; entries whose expiry is reached stop
    /// answering lookups, and no entry starts answering again.
    pub fn tick(&mut self, dt: u64)
        requires
            old(self).wf(),
            old(self).now + dt + CACHE_TTL_SECONDS < u64::MAX,
        ensures
            final(self).wf(),
            final(self).entries == old(self).entries,
            final(self).available == old(self).available,
            final(self).now == old(self).now + dt,
            forall|k: CacheKeyV| #[trigger] final(self).has_live(k) ==> old(self).has_live(k)
                && final(self).live_value(k) == old(self).live_value(k)
                && final(self).live_expiry(k) == old(self).live_expiry(k),
    {
        self.now = self.now + dt;
        proof {
            assert forall|k: CacheKeyV| #[trigger] self.has_live(k) implies old(self).has_live(k)
                && self.live_value(k) == old(self).live_value(k)
                && self.live_expiry(k) == old(self).live_expiry(k) by {
                let i = choose|i: int| self.live_at(i, k);
                assert(old(self).live_at(i, k));
                old(self).lemma_live_unique(k, i);
                self.lemma_live_unique(k, i);
            }
        }
    }

    /// The index holding `key`, live or lapsed; `None` when no entry has it.
    fn index_of(&self, key: &CacheKey) -> (r: Option<usize>)
        ensures
            match r {
                Some(i) => i < self.entries@.len() && self.entries@[i as int].key@ == key@,
                None => forall|j: int|
                    0 <= j < self.entries@.len() ==> self.entries@[j].key@ != key@,
            },
    {
        let mut i: usize = 0;
        while i < self.entries.len()
            invariant
                0 <= i <= self.entries@.len(),
                forall|j: int| 0 <= j < i ==> self.entries@[j].key@ != key@,
            decreases self.entries@.len() - i,
        {
            if self.entries[i].key.eq_key(key) {
                return Some(i);
            }
            i = i + 1;
        }
        None
    }

    /// Fetches the value stored under `key`. Never mutates state. Fails with
    /// `Backend` when the backend is unreachable and `NotFound` when no live
    /// entry holds the key.
    pub fn get(&self, key: &CacheKey) -> (r: Result<CacheValue, CacheError>)
        requires
            self.wf(),
        ensures
            !self.available ==> r == Err::<CacheValue, CacheError>(CacheError::Backend),
            self.available ==> match r {
                Ok(v) => self.has_live(key@) && v@ == self.live_value(key@)@,
                Err(e) => e == CacheError::NotFound && !self.has_live(key@),
            },
    {
        if !self.available {
            return Err(CacheError::Backend);
        }
        match self.index_of(key) {
            Some(i) => {
                if self.now < self.entries[i].expires_at {
                    proof {
                        self.lemma_live_unique(key@, i as int);
                    }
                    Ok(copy_value(&self.entries[i].value))
                } else {
                    proof {
                        assert forall|j: int| !self.live_at(j, key@) by {
                            if self.live_at(j, key@) && j != i as int {
                                if j < i as int {
                                    assert(self.entries@[j].key@ != self.entries@[i as int].key@);
                                } else {
                                    assert(self.entries@[i as int].key@ != self.entries@[j].key@);
                                }
                            }
                        }
                    }
                    Err(CacheError::NotFound)
                }
            },
            None => Err(CacheError::NotFound),
        }
    }

    /// Stores `value` under `key`, replacing any earlier entry for the key;
    /// the entry lapses exactly the fixed time-to-live after the write.
    /// Fails only when the backend is unreachable, in which case nothing
    /// changes.
    pub fn set(&mut self, key: CacheKey, value: CacheValue) -> (r: Result<(), CacheError>)
        requires
            old(self).wf(),
        ensures
            final(self).wf(),
            final(self).now == old(self).now,
            final(self).available == old(self).available,
            !old(self).available ==> r == Err::<(), CacheError>(CacheError::Backend)
                && *final(self) == *old(self),
            old(self).available ==> r == Ok::<(), CacheError>(())
                && final(self).has_live(key@)
                && final(self).live_value(key@) == value
                && final(self).live_expiry(key@) == old(self).now + CACHE_TTL_SECONDS
                && Cache::others_preserved(*old(self), *final(self), key@),
            old(self).available ==> forall|i: int|
                0 <= i < final(self).entries@.len() ==> ((#[trigger] final(self).entries@[i].key@
                    == key@ && final(self).entries@[i].value@ == value@)
                    || (i < old(self).entries@.len() && final(self).entries@[i]
                    == old(self).entries@[i])),
    {
        if !self.available {
            return Err(CacheError::Backend);
        }
        let expires_at = self.now + CACHE_TTL_SECONDS;
        let ghost pre = *self;
        match self.index_of(&key) {
            Some(i) => {
                self.entries[i] = CacheEntry { key, value, expires_at };
                proof {
                    Self::lemma_replace_at(pre, *self, i as int, self.entries@[i as int].key@);
                    self.lemma_live_unique(self.entries@[i as int].key@, i as int);
                }
            },
            None => {
                self.entries.push(CacheEntry { key, value, expires_at });
                proof {
                    let n = pre.entries@.len() as int;
                    Self::lemma_append_new(pre, *self, self.entries@[n].key@);
                    self.lemma_live_unique(self.entries@[n].key@, n);
                }
            },
        }
        Ok(())
    }

    /// Removes the entry for `key` by lapsing it in place; absence of the key
    /// is not an error. Fails only when the backend is unreachable, in which
    /// case nothing changes.
    pub fn delete(&mut self, key: &CacheKey) -> (r: Result<(), CacheError>)
        requires
            old(self).wf(),
        ensures
            final(self).wf(),
            final(self).now == old(self).now,
            final(self).available == old(self).available,
            !old(self).available ==> r == Err::<(), CacheError>(CacheError::Backend)
                && *final(self) == *old(self),
            old(self).available ==> r == Ok::<(), CacheError>(())
                && !final(self).has_live(key@)
                && Cache::others_preserved(*old(self), *final(self), key@),
            old(self).available ==> final(self).entries@.len() == old(self).entries@.len()
                && forall|i: int|
                0 <= i < final(self).entries@.len() ==> #[trigger] final(self).entries@[i].value@
                    == old(self).entries@[i].value@ && final(self).entries@[i].key@
                    == old(self).entries@[i].key@,
    {
        if !self.available {
            return Err(CacheError::Backend);
        }
        let ghost pre = *self;
        match self.index_of(key) {
            Some(i) => {
                let dead_key = self.entries[i].key.copy_key();
                let dead_value = copy_value(&self.entries[i].value);
                self.entries[i] = CacheEntry {
                    key: dead_key,
                    value: dead_value,
                    expires_at: self.now,
                };
                proof {
                    Self::lemma_replace_at(pre, *self, i as int, key@);
                    assert forall|j: int| !self.live_at(j, key@) by {
                        if self.live_at(j, key@) && j != i as int {
                            if j < i as int {
                                assert(self.entries@[j].key@ != self.entries@[i as int].key@);
                            } else {
                                assert(self.entries@[i as int].key@ != self.entries@[j].key@);
                            }
                        }
                    }
                }
            },
            None => {
                proof {
                    assert forall|j: int| !self.live_at(j, key@) by {}
                }
            },
        }
        Ok(())
    }

    /// Replacing the entry at an index whose key is `k`, by an entry whose
    /// key is again `k`, leaves every other key answering as before.
    proof fn lemma_replace_at(pre: Cache, post: Cache, i: int, k: CacheKeyV)
        requires
            pre.wf(),
            0 <= i < pre.entries@.len(),
            pre.entries@[i].key@ == k,
            post.entries@ == pre.entries@.update(i, post.entries@[i]),
            post.entries@[i].key@ == k,
            post.now == pre.now,
        ensures
            post.wf(),
            Cache::others_preserved(pre, post, k),
    {
        assert forall|a: int, b: int|
            0 <= a < b < post.entries@.len() implies post.entries@[a].key@
            != post.entries@[b].key@ by {
            assert(pre.entries@[a].key@ != pre.entries@[b].key@);
        }
        assert forall|k2: CacheKeyV|
            k2 != k implies #[trigger] post.has_live(k2) == pre.has_live(k2) && (pre.has_live(k2)
                ==> post.live_value(k2) == pre.live_value(k2) && post.live_expiry(k2)
                == pre.live_expiry(k2)) by {
            if pre.has_live(k2) {
                let j = choose|j: int| pre.live_at(j, k2);
                assert(j != i);
                assert(post.live_at(j, k2));
                pre.lemma_live_unique(k2, j);
                post.lemma_live_unique(k2, j);
            }
            if post.has_live(k2) {
                let j = choose|j: int| post.live_at(j, k2);
                assert(j != i);
                assert(pre.live_at(j, k2));
                pre.lemma_live_unique(k2, j);
                post.lemma_live_unique(k2, j);
            }
        }
    }

    /// Appending an entry under a key no existing entry holds leaves every
    /// other key answering as before.
    proof fn lemma_append_new(pre: Cache, post: Cache, k: CacheKeyV)
        requires
            pre.wf(),
            forall|j: int| 0 <= j < pre.entries@.len() ==> pre.entries@[j].key@ != k,
            post.entries@ == pre.entries@.push(post.entries@[pre.entries@.len() as int]),
            post.entries@[pre.entries@.len() as int].key@ == k,
            post.now == pre.now,
        ensures
            post.wf(),
            Cache::others_preserved(pre, post, k),
    {
        let n = pre.entries@.len() as int;
        assert forall|a: int, b: int|
            0 <= a < b < post.entries@.len() implies post.entries@[a].key@
            != post.entries@[b].key@ by {
            if b < n {
                assert(pre.entries@[a].key@ != pre.entries@[b].key@);
            }
        }
        assert forall|k2: CacheKeyV|
            k2 != k implies #[trigger] post.has_live(k2) == pre.has_live(k2) && (pre.has_live(k2)
                ==> post.live_value(k2) == pre.live_value(k2) && post.live_expiry(k2)
                == pre.live_expiry(k2)) by {
            if pre.has_live(k2) {
                let j = choose|j: int| pre.live_at(j, k2);
                assert(post.live_at(j, k2));
                pre.lemma_live_unique(k2, j);
                post.lemma_live_unique(k2, j);
            }
            if post.has_live(k2) {
                let j = choose|j: int| post.live_at(j, k2);
                assert(j != n);
                assert(pre.live_at(j, k2));
                pre.lemma_live_unique(k2, j);
                post.lemma_live_unique(k2, j);
            }
        }
    }
}

} // verus!
