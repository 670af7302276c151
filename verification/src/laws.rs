//! The behavioral laws of the library, each proved from the contracts the
//! operations carry: uniqueness of created ids, read-your-create,
//! never-cache-empty, read-your-update behind invalidate-before-mutate,
//! idempotent deletion, owner isolation, and survival of a cached value
//! through the fixed time-to-live window.

use vstd::prelude::*;
use crate::cache::{Cache, CacheValue, CACHE_TTL_SECONDS};
use crate::errors::TaskError;
use crate::keys::CacheKeyV;
use crate::model::{Task, TaskRequest};
use crate::repository::{lemma_live_coherent, TaskRepository};
use crate::service::{
    insert_validation_error, overlaid, update_validation_error, TaskService,
};

verus! {

/// Two successful creations return tasks with distinct ids, whatever order
/// they ran in, and each task's owner is exactly the identity submitted
/// with it.
pub proof fn lemma_created_ids_distinct(
    s0: TaskService,
    s1: TaskService,
    s2: TaskService,
    request1: TaskRequest,
    user1: Seq<char>,
    id1: Seq<char>,
    t1: Task,
    request2: TaskRequest,
    user2: Seq<char>,
    id2: Seq<char>,
    t2: Task,
)
    requires
        TaskService::insert_post(s0, s1, request1, user1, id1, Ok(t1)),
        TaskService::insert_post(s1, s2, request2, user2, id2, Ok(t2)),
    ensures
        t1.owner@ == user1,
        t2.owner@ == user2,
        t1.id@ != t2.id@,
{
    let rows1 = s1.repository.store.rows@;
    assert(rows1 == s0.repository.store.rows@.push(t1));
    assert(s1.repository.store.row_at(rows1.len() - 1, t1.id@));
    assert(s1.repository.store.has_id(t1.id@));
}

/// A freshly created task collides with nothing already stored: on success
/// its id differs from the id of every task the store held before.
pub proof fn lemma_created_id_fresh(
    s0: TaskService,
    s1: TaskService,
    request: TaskRequest,
    user_id: Seq<char>,
    task_id: Seq<char>,
    t: Task,
    j: int,
)
    requires
        TaskService::insert_post(s0, s1, request, user_id, task_id, Ok(t)),
        0 <= j < s0.repository.store.rows@.len(),
    ensures
        s0.repository.store.rows@[j].id@ != t.id@,
{
    if s0.repository.store.rows@[j].id@ == t.id@ {
        assert(s0.repository.store.row_at(j, t.id@));
        assert(s0.repository.store.has_id(t.id@));
    }
}

/// Reading a task back right after creating it, with no cache entry under
/// its key, answers exactly the task that was created, field for field.
pub proof fn lemma_read_back_after_insert(
    s0: TaskService,
    s1: TaskService,
    s2: TaskService,
    request: TaskRequest,
    user_id: Seq<char>,
    task_id: Seq<char>,
    t: Task,
    r2: Result<Option<Task>, TaskError>,
)
    requires
        s0.inv(),
        s1.inv(),
        TaskService::insert_post(s0, s1, request, user_id, task_id, Ok(t)),
        !s1.repository.cache.has_live(CacheKeyV::Item { owner: user_id, id: task_id }),
        s1.repository.store.available,
        TaskRepository::find_by_id_post(s1.repository, s2.repository, task_id, user_id, r2),
    ensures
        r2 == Ok::<Option<Task>, TaskError>(Some(t)),
{
    let store1 = s1.repository.store;
    let n = s0.repository.store.rows@.len() as int;
    assert(store1.rows@ == s0.repository.store.rows@.push(t));
    assert(t.id@ == task_id && t.owner@ == user_id);
    assert(store1.row_at(n, task_id));
    store1.lemma_row_unique(task_id, n);
    assert(store1.has_task(task_id, user_id));
    assert(!TaskRepository::item_hit(s1.repository, CacheKeyV::Item { owner: user_id, id: task_id }));
}

/// A collection read that the cache answers never hands back an empty
/// collection: empty results are never written to the cache, so a cached
/// snapshot cannot mask tasks inserted after it was taken.
pub proof fn lemma_cached_collection_non_empty(
    s0: TaskService,
    s1: TaskService,
    user_id: Seq<char>,
    r: Result<Vec<Task>, TaskError>,
)
    requires
        s0.inv(),
        TaskRepository::list_hit(s0.repository, CacheKeyV::List { owner: user_id }),
        TaskRepository::find_all_post(s0.repository, s1.repository, user_id, r),
    ensures
        r matches Ok(ts) && ts@.len() > 0,
{
    let k = CacheKeyV::List { owner: user_id };
    lemma_live_coherent(s0.repository.cache, k);
}

/// A collection read that finds nothing answers the empty collection and
/// writes nothing to the cache, so a task inserted right after is seen by
/// the next read instead of being masked by a cached empty snapshot.
pub proof fn lemma_empty_result_not_cached(
    s0: TaskService,
    s1: TaskService,
    user_id: Seq<char>,
    r: Result<Vec<Task>, TaskError>,
)
    requires
        s0.inv(),
        !TaskRepository::list_hit(s0.repository, CacheKeyV::List { owner: user_id }),
        s0.repository.store.available,
        s0.repository.store.owner_rows(user_id).len() == 0,
        TaskRepository::find_all_post(s0.repository, s1.repository, user_id, r),
    ensures
        r matches Ok(ts) && ts@.len() == 0,
        s1.repository.cache == s0.repository.cache,
{
}

/// Deleting a task that does not exist for the given id and owner still
/// succeeds and changes nothing: deletion is idempotent.
pub proof fn lemma_delete_absent_succeeds(
    s0: TaskService,
    s1: TaskService,
    task_id: Seq<char>,
    user_id: Seq<char>,
    r: Result<(), TaskError>,
)
    requires
        s0.repository.store.available,
        !s0.repository.store.has_task(task_id, user_id),
        TaskRepository::delete_post(s0.repository, s1.repository, task_id, user_id, r),
    ensures
        r == Ok::<(), TaskError>(()),
        s1.repository.store.rows@ == s0.repository.store.rows@,
{
}

/// Deletion never touches a task belonging to a different owner, even one
/// whose id collides with the id being deleted: every such row survives.
pub proof fn lemma_delete_preserves_other_owners(
    s0: TaskService,
    s1: TaskService,
    task_id: Seq<char>,
    user_id: Seq<char>,
    r: Result<(), TaskError>,
    j: int,
)
    requires
        s0.repository.store.available,
        TaskRepository::delete_post(s0.repository, s1.repository, task_id, user_id, r),
        0 <= j < s0.repository.store.rows@.len(),
        s0.repository.store.rows@[j].owner@ != user_id,
    ensures
        s1.repository.store.rows@.contains(s0.repository.store.rows@[j]),
{
}

/// An update never touches a task belonging to a different owner: whatever
/// the cache held, the mutation is scoped to the caller's id and owner, so
/// every row of another owner survives unchanged.
pub proof fn lemma_update_preserves_other_owners(
    s0: TaskService,
    s1: TaskService,
    request: TaskRequest,
    task_id: Seq<char>,
    user_id: Seq<char>,
    r: Result<Task, TaskError>,
    j: int,
)
    requires
        s0.inv(),
        update_validation_error(request, task_id, user_id) is None,
        TaskService::update_flow_post(s0, s1, request, task_id, user_id, r),
        0 <= j < s0.repository.store.rows@.len(),
        s0.repository.store.rows@[j].owner@ != user_id,
    ensures
        s1.repository.store.rows@.contains(s0.repository.store.rows@[j]),
{
    let k = CacheKeyV::Item { owner: user_id, id: task_id };
    let pre_store = s0.repository.store;
    if TaskRepository::item_hit(s0.repository, k) || (pre_store.available && pre_store.has_task(
        task_id,
        user_id,
    )) {
        let base = if TaskRepository::item_hit(s0.repository, k) {
            s0.repository.cache.live_value(k)@->One_0
        } else {
            pre_store.task_with_id(task_id)
        };
        if TaskRepository::item_hit(s0.repository, k) {
            lemma_live_coherent(s0.repository.cache, k);
        }
        assert(base.id@ == task_id && base.owner@ == user_id);
        let mid = choose|mid: TaskRepository|
            {
                &&& #[trigger] TaskRepository::find_by_id_post(
                    s0.repository,
                    mid,
                    task_id,
                    user_id,
                    Ok(Some(base)),
                )
                &&& TaskRepository::update_post(
                    mid,
                    s1.repository,
                    overlaid(base, request),
                    r,
                )
            };
        assert(mid.store == pre_store);
        let t2 = overlaid(base, request);
        assert(t2.id@ == task_id);
        assert(t2.owner@ == user_id);
        if pre_store.available && pre_store.has_task(task_id, user_id) {
            let idx = pre_store.row_index(task_id);
            assert(s1.repository.store.rows@ == pre_store.rows@.update(idx, t2));
            assert(pre_store.rows@[idx].owner@ == user_id);
            assert(j != idx);
            assert(s1.repository.store.rows@[j] == pre_store.rows@[j]);
        } else {
            assert(s1.repository.store.rows@[j] == pre_store.rows@[j]);
        }
    } else {
        assert(s1.repository.store.rows@[j] == pre_store.rows@[j]);
    }
    assert(s1.repository.store.rows@.contains(s0.repository.store.rows@[j]));
}

/// An update followed at once by a read of the same id and owner answers the
/// updated fields, not the stale ones, whatever the cache's condition: the
/// single-task entry is invalidated before the store is mutated, so the
/// read cannot be answered from a cached copy written before the update.
pub proof fn lemma_read_after_update(
    s0: TaskService,
    s1: TaskService,
    s2: TaskService,
    request: TaskRequest,
    task_id: Seq<char>,
    user_id: Seq<char>,
    t: Task,
    r2: Result<Option<Task>, TaskError>,
)
    requires
        s0.inv(),
        s1.inv(),
        update_validation_error(request, task_id, user_id) is None,
        TaskService::update_flow_post(s0, s1, request, task_id, user_id, Ok(t)),
        s0.repository.store.available,
        s0.repository.store.has_task(task_id, user_id),
        TaskRepository::find_by_id_post(s1.repository, s2.repository, task_id, user_id, r2),
    ensures
        r2 == Ok::<Option<Task>, TaskError>(Some(t)),
        t.title@ == request.title@,
        t.description@ == request.description@,
        t.completed == request.completed,
        t.id@ == task_id,
        t.owner@ == user_id,
{
    let k = CacheKeyV::Item { owner: user_id, id: task_id };
    let pre_store = s0.repository.store;
    let base = if TaskRepository::item_hit(s0.repository, k) {
        s0.repository.cache.live_value(k)@->One_0
    } else {
        pre_store.task_with_id(task_id)
    };
    if TaskRepository::item_hit(s0.repository, k) {
        lemma_live_coherent(s0.repository.cache, k);
    }
    assert(base.id@ == task_id && base.owner@ == user_id);
    let mid = choose|mid: TaskRepository|
        {
            &&& #[trigger] TaskRepository::find_by_id_post(
                s0.repository,
                mid,
                task_id,
                user_id,
                Ok(Some(base)),
            )
            &&& TaskRepository::update_post(
                mid,
                s1.repository,
                overlaid(base, request),
                Ok(t),
            )
        };
    let t2 = overlaid(base, request);
    assert(mid.store == pre_store);
    assert(mid.store.available);
    assert(t == t2);
    assert(t2.id@ == task_id && t2.owner@ == user_id);
    // the store now holds the overlaid task under the same id
    let idx = pre_store.row_index(task_id);
    pre_store.lemma_row_unique(task_id, choose|i: int| pre_store.row_at(i, task_id));
    assert(s1.repository.store.rows@ == pre_store.rows@.update(idx, t2));
    assert(s1.repository.store.row_at(idx, task_id));
    s1.repository.store.lemma_row_unique(task_id, idx);
    assert(s1.repository.store.has_task(task_id, user_id));
    assert(s1.repository.store.task_with_id(task_id) == t2);
    // the single-task cache entry is gone (or the cache is unreachable),
    // so the read is answered by the store
    if s1.repository.cache.available {
        assert(!s1.repository.cache.has_live(k));
        assert(!TaskRepository::item_hit(s1.repository, k));
    } else {
        assert(!TaskRepository::item_hit(s1.repository, k));
    }
    assert(r2 == Ok::<Option<Task>, TaskError>(Some(t2)));
}

/// A valid creation request is never rejected for validation reasons, and a
/// rejected one is rejected exactly as the validation order says.
pub proof fn lemma_insert_validation_exact(
    s0: TaskService,
    s1: TaskService,
    request: TaskRequest,
    user_id: Seq<char>,
    task_id: Seq<char>,
    r: Result<Task, TaskError>,
)
    requires
        TaskService::insert_post(s0, s1, request, user_id, task_id, r),
    ensures
        (r matches Err(e) && (e == TaskError::EmptyUserId || e == TaskError::EmptyTitle || e
            == TaskError::EmptyDescription)) <==> insert_validation_error(request, user_id)
            == Some(r->Err_0),
{
}

/// A value written to the cache keeps answering lookups, unchanged, for as
/// long as the fixed time-to-live has not elapsed since the write, provided
/// no later write or invalidation touched the cache: `c1` is the state a
/// successful write left behind, `c2` the same entries seen at a later
/// instant still inside the window.
pub proof fn lemma_cached_value_survives_under_ttl(
    c1: Cache,
    c2: Cache,
    k: CacheKeyV,
    value: CacheValue,
)
    requires
        c1.wf(),
        c2.wf(),
        c1.has_live(k),
        c1.live_value(k) == value,
        c1.live_expiry(k) == c1.now + CACHE_TTL_SECONDS,
        c2.entries == c1.entries,
        c1.now <= c2.now,
        c2.now - c1.now < CACHE_TTL_SECONDS,
    ensures
        c2.has_live(k),
        c2.live_value(k) == value,
{
    let i = choose|i: int| c1.live_at(i, k);
    c1.lemma_live_unique(k, i);
    assert(c2.live_at(i, k));
    c2.lemma_live_unique(k, i);
}

} // verus!
