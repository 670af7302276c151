use vstd::prelude::*;
use crate::cache::{Cache, CacheValue, CacheValueV, CACHE_TTL_SECONDS};
use crate::errors::TaskError;
use crate::keys::{CacheKey, CacheKeyV};
use crate::model::{copy_task, copy_tasks, Task};
use crate::store::{Store, STORE_QUERY_LIMIT};

verus! {

/// What a value stored under a key must look like: a collection key holds a
/// non-empty collection of the owner's tasks, no longer than the query
/// limit (an empty "nothing yet" snapshot would mask later inserts until it
/// lapsed, so empty results are never written back); a single-task key holds
/// exactly a task with that id and owner.
pub open spec fn coherent_value(k: CacheKeyV, v: CacheValueV) -> bool {
    match k {
        CacheKeyV::List { owner } => v matches CacheValueV::Many(ts) && 0 < ts.len()
            <= STORE_QUERY_LIMIT && (forall|j: int|
            0 <= j < ts.len() ==> #[trigger] ts[j].owner@ == owner),
        CacheKeyV::Item { owner, id } => v matches CacheValueV::One(t) && t.id@ == id && t.owner@
            == owner,
    }
}

/// Every entry the cache holds, live or lapsed, is coherent with its key.
pub open spec fn cache_coherent(c: Cache) -> bool {
    forall|i: int|
        0 <= i < c.entries@.len() ==> coherent_value(
            #[trigger] c.entries@[i].key@,
            c.entries@[i].value@,
        )
}

/// In a coherent, well-formed cache, what a live key answers with is
/// coherent with the key.
pub proof fn lemma_live_coherent(c: Cache, k: CacheKeyV)
    requires
        c.wf(),
        cache_coherent(c),
        c.has_live(k),
    ensures
        coherent_value(k, c.live_value(k)@),
{
    let i = choose|i: int| c.live_at(i, k);
    c.lemma_live_unique(k, i);
}

/// The write-back rule: a query result is cached exactly when it holds
/// something.
pub fn should_cache_collection(tasks: &Vec<Task>) -> (r: bool)
    ensures
        r == (tasks@.len() > 0),
{
    tasks.len() > 0
}

/// The capability a repository offers: persistence operations on task rows,
/// each aware of the cache in front of the store.
pub trait TaskRepositoryInterface: Sized {
    spec fn repo_inv(&self) -> bool;

    fn insert(&mut self, task: Task) -> (r: Result<Task, TaskError>)
        requires
            old(self).repo_inv(),
        ensures
            final(self).repo_inv(),
    ;

    fn find_all(&mut self, user_id: &String) -> (r: Result<Vec<Task>, TaskError>)
        requires
            old(self).repo_inv(),
        ensures
            final(self).repo_inv(),
    ;

    fn find_by_id(&mut self, task_id: &String, user_id: &String) -> (r: Result<
        Option<Task>,
        TaskError,
    >)
        requires
            old(self).repo_inv(),
        ensures
            final(self).repo_inv(),
    ;

    fn update(&mut self, update_task: Task) -> (r: Result<Task, TaskError>)
        requires
            old(self).repo_inv(),
        ensures
            final(self).repo_inv(),
    ;

    fn delete(&mut self, task_id: &String, user_id: &String) -> (r: Result<(), TaskError>)
        requires
            old(self).repo_inv(),
        ensures
            final(self).repo_inv(),
    ;
}

/// The cache-aside orchestrator: reads consult the cache first and fall back
/// to the store; writes invalidate the affected cache entry before mutating
/// the store. A failing cache never fails an operation; a failing store
/// always does.
pub struct TaskRepository {
    pub store: Store,
    pub cache: Cache,
}

impl TaskRepository {
    /// Both components well-formed, and every cache entry coherent with its
    /// key.
    pub open spec fn inv(self) -> bool {
        &&& self.store.wf()
        &&& self.cache.wf()
        &&& cache_coherent(self.cache)
    }

    /// The cache alone can answer a collection read for `k`.
    pub open spec fn list_hit(pre: TaskRepository, k: CacheKeyV) -> bool {
        pre.cache.available && pre.cache.has_live(k) && pre.cache.live_value(k)@ is Many
    }

    /// The cache alone can answer a single-task read for `k`.
    pub open spec fn item_hit(pre: TaskRepository, k: CacheKeyV) -> bool {
        pre.cache.available && pre.cache.has_live(k) && pre.cache.live_value(k)@ is One
    }

    /// What `insert` did: the store appended on success, the cache untouched
    /// (creation is deliberately lazy: the first read repopulates).
    pub open spec fn insert_post(
        pre: TaskRepository,
        post: TaskRepository,
        t: Task,
        r: Result<Task, TaskError>,
    ) -> bool {
        &&& post.cache == pre.cache
        &&& post.store.available == pre.store.available
        &&& !pre.store.available ==> r == Err::<Task, TaskError>(TaskError::StoreUnavailable)
            && post.store.rows@ == pre.store.rows@
        &&& pre.store.available ==> match r {
            Ok(t2) => t2 == t && !pre.store.has_id(t.id@) && post.store.rows@
                == pre.store.rows@.push(t),
            Err(e) => e == TaskError::DuplicateId && pre.store.has_id(t.id@) && post.store.rows@
                == pre.store.rows@,
        }
    }

    /// What `find_all` did: a fresh cached collection is answered as it is;
    /// otherwise the store answers, and a non-empty result is written back
    /// with the fixed time-to-live when the cache can take it. Every answer
    /// is at most the query limit long and owned by the queried owner. The
    /// store is never written.
    pub open spec fn find_all_post(
        pre: TaskRepository,
        post: TaskRepository,
        user_id: Seq<char>,
        r: Result<Vec<Task>, TaskError>,
    ) -> bool {
        let k = CacheKeyV::List { owner: user_id };
        &&& r matches Ok(ts) ==> ts@.len() <= STORE_QUERY_LIMIT && (forall|j: int|
            0 <= j < ts@.len() ==> #[trigger] ts@[j].owner@ == user_id)
        &&& post.store == pre.store
        &&& post.cache.now == pre.cache.now
        &&& post.cache.available == pre.cache.available
        &&& if Self::list_hit(pre, k) {
            &&& post.cache == pre.cache
            &&& r matches Ok(ts) && ts@ == pre.cache.live_value(k)@->Many_0
        } else if !pre.store.available {
            &&& r == Err::<Vec<Task>, TaskError>(TaskError::StoreUnavailable)
            &&& post.cache == pre.cache
        } else {
            &&& r matches Ok(ts) && ts@ == pre.store.visible_rows(user_id)
            &&& if pre.store.visible_rows(user_id).len() > 0 && pre.cache.available {
                &&& post.cache.has_live(k)
                &&& post.cache.live_value(k)@ == CacheValueV::Many(
                    pre.store.visible_rows(user_id),
                )
                &&& post.cache.live_expiry(k) == pre.cache.now + CACHE_TTL_SECONDS
                &&& Cache::others_preserved(pre.cache, post.cache, k)
            } else {
                post.cache == pre.cache
            }
        }
    }

    /// What `find_by_id` did: a fresh cached task is answered as it is;
    /// otherwise the store answers, filtered by id and owner, and a found
    /// task is written back with the fixed time-to-live when the cache can
    /// take it. A present answer always carries the asked id and owner. An
    /// absent task is an absent result, not an error. The store is never
    /// written.
    pub open spec fn find_by_id_post(
        pre: TaskRepository,
        post: TaskRepository,
        task_id: Seq<char>,
        user_id: Seq<char>,
        r: Result<Option<Task>, TaskError>,
    ) -> bool {
        let k = CacheKeyV::Item { owner: user_id, id: task_id };
        &&& r matches Ok(Some(t)) ==> t.id@ == task_id && t.owner@ == user_id
        &&& post.store == pre.store
        &&& post.cache.now == pre.cache.now
        &&& post.cache.available == pre.cache.available
        &&& if Self::item_hit(pre, k) {
            &&& post.cache == pre.cache
            &&& r matches Ok(f) && f matches Some(t) && t == pre.cache.live_value(k)@->One_0
        } else if !pre.store.available {
            &&& r == Err::<Option<Task>, TaskError>(TaskError::StoreUnavailable)
            &&& post.cache == pre.cache
        } else if pre.store.has_task(task_id, user_id) {
            &&& r == Ok::<Option<Task>, TaskError>(Some(pre.store.task_with_id(task_id)))
            &&& if pre.cache.available {
                &&& post.cache.has_live(k)
                &&& post.cache.live_value(k)@ == CacheValueV::One(pre.store.task_with_id(task_id))
                &&& post.cache.live_expiry(k) == pre.cache.now + CACHE_TTL_SECONDS
                &&& Cache::others_preserved(pre.cache, post.cache, k)
            } else {
                post.cache == pre.cache
            }
        } else {
            &&& r == Ok::<Option<Task>, TaskError>(None::<Task>)
            &&& post.cache == pre.cache
        }
    }

    /// The single-task cache entry for `k` was invalidated first (best
    /// effort), leaving every other key as it was.
    pub open spec fn invalidated(pre: TaskRepository, post: TaskRepository, k: CacheKeyV) -> bool {
        if pre.cache.available {
            &&& !post.cache.has_live(k)
            &&& Cache::others_preserved(pre.cache, post.cache, k)
        } else {
            post.cache == pre.cache
        }
    }

    /// What `update` did: the single-task entry invalidated before the
    /// mutation, then the row carrying the task's id overwritten, filtered
    /// by id and owner; a missing or foreign-owned row leaves the store
    /// unchanged and still succeeds.
    pub open spec fn update_post(
        pre: TaskRepository,
        post: TaskRepository,
        t: Task,
        r: Result<Task, TaskError>,
    ) -> bool {
        let k = CacheKeyV::Item { owner: t.owner@, id: t.id@ };
        &&& Self::invalidated(pre, post, k)
        &&& post.cache.now == pre.cache.now
        &&& post.cache.available == pre.cache.available
        &&& post.store.available == pre.store.available
        &&& !pre.store.available ==> r == Err::<Task, TaskError>(TaskError::StoreUnavailable)
            && post.store.rows@ == pre.store.rows@
        &&& pre.store.available ==> r == Ok::<Task, TaskError>(t) && post.store.rows@ == (
        if pre.store.has_task(t.id@, t.owner@) {
            pre.store.rows@.update(pre.store.row_index(t.id@), t)
        } else {
            pre.store.rows@
        })
    }

    /// What `delete` did: the single-task entry invalidated before the
    /// mutation, then the row removed, filtered by id and owner; absence of
    /// a matching row is success, so the operation is idempotent, and rows
    /// of other owners always survive.
    pub open spec fn delete_post(
        pre: TaskRepository,
        post: TaskRepository,
        task_id: Seq<char>,
        user_id: Seq<char>,
        r: Result<(), TaskError>,
    ) -> bool {
        let k = CacheKeyV::Item { owner: user_id, id: task_id };
        &&& Self::invalidated(pre, post, k)
        &&& post.cache.now == pre.cache.now
        &&& post.cache.available == pre.cache.available
        &&& post.store.available == pre.store.available
        &&& !pre.store.available ==> r == Err::<(), TaskError>(TaskError::StoreUnavailable)
            && post.store.rows@ == pre.store.rows@
        &&& pre.store.available ==> {
            &&& r == Ok::<(), TaskError>(())
            &&& post.store.rows@ == (if pre.store.has_task(task_id, user_id) {
                pre.store.rows@.remove(pre.store.row_index(task_id))
            } else {
                pre.store.rows@
            })
            &&& !post.store.has_task(task_id, user_id)
            &&& forall|j: int|
                0 <= j < pre.store.rows@.len() && !(pre.store.rows@[j].id@ == task_id
                    && pre.store.rows@[j].owner@ == user_id) ==> post.store.rows@.contains(
                    pre.store.rows@[j],
                )
        }
    }

    /// Pairs a store and a cache into a repository.
    pub fn new(store: Store, cache: Cache) -> (r: TaskRepository)
        requires
            store.wf(),
            cache.wf(),
            cache_coherent(cache),
        ensures
            r.store == store,
            r.cache == cache,
            r.inv(),
    {
        TaskRepository { store, cache }
    }

    /// Writes a new task to the store only; the cache is not pre-populated.
    pub fn insert(&mut self, task: Task) -> (r: Result<Task, TaskError>)
        requires
            old(self).inv(),
        ensures
            final(self).inv(),
            Self::insert_post(*old(self), *final(self), task, r),
    {
        self.store.insert(task)
    }

    /// Reads an owner's collection, cache first, store on a miss or any
    /// cache failure; a non-empty result is written back, an empty one never.
    pub fn find_all(&mut self, user_id: &String) -> (r: Result<Vec<Task>, TaskError>)
        requires
            old(self).inv(),
        ensures
            final(self).inv(),
            Self::find_all_post(*old(self), *final(self), user_id@, r),
    {
        let key = CacheKey::list(user_id);
        match self.cache.get(&key) {
            Ok(CacheValue::Many(ts)) => {
                proof {
                    lemma_live_coherent(self.cache, key@);
                }
                return Ok(ts);
            },
            _ => {
                // a miss, an unreachable backend, or a wrongly shaped value:
                // fall back to the store
            },
        }
        let rows = match self.store.find_by_owner(user_id) {
            Ok(rows) => rows,
            Err(e) => {
                return Err(e);
            },
        };
        proof {
            self.store.lemma_visible_rows_owned(user_id@);
        }
        if should_cache_collection(&rows) {
            let write_back = copy_tasks(&rows);
            // best effort: a cache failure must not fail the read
            let _ = self.cache.set(key, CacheValue::Many(write_back));
        }
        Ok(rows)
    }

    /// Reads one task by id and owner, cache first, store on a miss or any
    /// cache failure; a found task is written back.
    pub fn find_by_id(&mut self, task_id: &String, user_id: &String) -> (r: Result<
        Option<Task>,
        TaskError,
    >)
        requires
            old(self).inv(),
        ensures
            final(self).inv(),
            Self::find_by_id_post(*old(self), *final(self), task_id@, user_id@, r),
    {
        let key = CacheKey::item(user_id, task_id);
        match self.cache.get(&key) {
            Ok(CacheValue::One(t)) => {
                proof {
                    lemma_live_coherent(self.cache, key@);
                }
                return Ok(Some(t));
            },
            _ => {
                // a miss, an unreachable backend, or a wrongly shaped value:
                // fall back to the store
            },
        }
        let found = match self.store.find_by_id_owner(task_id, user_id) {
            Ok(found) => found,
            Err(e) => {
                return Err(e);
            },
        };
        match found {
            Some(t) => {
                let write_back = copy_task(&t);
                // best effort: a cache failure must not fail the read
                let _ = self.cache.set(key, CacheValue::One(write_back));
                Ok(Some(t))
            },
            None => Ok(None),
        }
    }

    /// Invalidate before mutate: drops the task's single-task cache entry
    /// (best effort), then overwrites the row carrying the task's id.
    pub fn update(&mut self, update_task: Task) -> (r: Result<Task, TaskError>)
        requires
            old(self).inv(),
        ensures
            final(self).inv(),
            Self::update_post(*old(self), *final(self), update_task, r),
    {
        let key = CacheKey::item(&update_task.owner, &update_task.id);
        // a failed invalidation must not block the mutation
        let _ = self.cache.delete(&key);
        match self.store.update_by_id(&update_task) {
            Ok(()) => Ok(update_task),
            Err(e) => Err(e),
        }
    }

    /// Invalidate before mutate: drops the task's single-task cache entry
    /// (best effort), then removes the row, filtered by id and owner.
    pub fn delete(&mut self, task_id: &String, user_id: &String) -> (r: Result<(), TaskError>)
        requires
            old(self).inv(),
        ensures
            final(self).inv(),
            Self::delete_post(*old(self), *final(self), task_id@, user_id@, r),
    {
        let key = CacheKey::item(user_id, task_id);
        // a failed invalidation must not block the mutation
        let _ = self.cache.delete(&key);
        self.store.delete_by_id_owner(task_id, user_id)
    }
}

impl TaskRepositoryInterface for TaskRepository {
    open spec fn repo_inv(&self) -> bool {
        self.inv()
    }

    fn insert(&mut self, task: Task) -> (r: Result<Task, TaskError>)
        ensures
            Self::insert_post(*old(self), *final(self), task, r),
    {
        self.insert(task)
    }

    fn find_all(&mut self, user_id: &String) -> (r: Result<Vec<Task>, TaskError>)
        ensures
            Self::find_all_post(*old(self), *final(self), user_id@, r),
    {
        self.find_all(user_id)
    }

    fn find_by_id(&mut self, task_id: &String, user_id: &String) -> (r: Result<
        Option<Task>,
        TaskError,
    >)
        ensures
            Self::find_by_id_post(*old(self), *final(self), task_id@, user_id@, r),
    {
        self.find_by_id(task_id, user_id)
    }

    fn update(&mut self, update_task: Task) -> (r: Result<Task, TaskError>)
        ensures
            Self::update_post(*old(self), *final(self), update_task, r),
    {
        self.update(update_task)
    }

    fn delete(&mut self, task_id: &String, user_id: &String) -> (r: Result<(), TaskError>)
        ensures
            Self::delete_post(*old(self), *final(self), task_id@, user_id@, r),
    {
        self.delete(task_id, user_id)
    }
}

} // verus!
