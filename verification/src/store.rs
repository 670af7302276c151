use vstd::prelude::*;
use crate::errors::TaskError;
use crate::model::{copy_task, Task};

verus! {

/// A query for an owner's collection returns at most this many rows.
pub const STORE_QUERY_LIMIT: usize = 10;

/// The predicate selecting an owner's rows.
pub open spec fn owned_by(owner: Seq<char>) -> spec_fn(Task) -> bool {
    |t: Task| t.owner@ == owner
}

/// The source-of-record store: task rows queried and mutated by id and
/// owner, with an availability switch standing for the backend's condition.
///
/// Task ids are pairwise distinct; the store refuses an insert that would
/// break that, as a relational backend's key constraint would.
pub struct Store {
    pub rows: Vec<Task>,
    pub available: bool,
}

impl Store {
    /// Well-formed: ids are pairwise distinct.
    pub open spec fn wf(self) -> bool {
        forall|i: int, j: int|
            0 <= i < j < self.rows@.len() ==> self.rows@[i].id@ != self.rows@[j].id@
    }

    /// The row at index `i` carries id `id`.
    pub open spec fn row_at(self, i: int, id: Seq<char>) -> bool {
        &&& 0 <= i < self.rows@.len()
        &&& self.rows@[i].id@ == id
    }

    /// Some row carries id `id`.
    pub open spec fn has_id(self, id: Seq<char>) -> bool {
        exists|i: int| self.row_at(i, id)
    }

    /// The index of the row carrying `id` (meaningful when `has_id`).
    pub open spec fn row_index(self, id: Seq<char>) -> int {
        choose|i: int| self.row_at(i, id)
    }

    /// The row carrying `id` (meaningful when `has_id`).
    pub open spec fn task_with_id(self, id: Seq<char>) -> Task {
        self.rows@[self.row_index(id)]
    }

    /// Some row carries id `id` and belongs to `owner`.
    pub open spec fn has_task(self, id: Seq<char>, owner: Seq<char>) -> bool {
        self.has_id(id) && self.task_with_id(id).owner@ == owner
    }

    /// All of an owner's rows, in store order.
    pub open spec fn owner_rows(self, owner: Seq<char>) -> Seq<Task> {
        self.rows@.filter(owned_by(owner))
    }

    /// What a collection query answers: the owner's rows, cut at the limit.
    pub open spec fn visible_rows(self, owner: Seq<char>) -> Seq<Task> {
        if self.owner_rows(owner).len() <= STORE_QUERY_LIMIT {
            self.owner_rows(owner)
        } else {
            self.owner_rows(owner).take(STORE_QUERY_LIMIT as int)
        }
    }

    /// What a collection query answers is bounded by the limit and owned
    /// entirely by the queried owner.
    pub proof fn lemma_visible_rows_owned(self, owner: Seq<char>)
        ensures
            self.visible_rows(owner).len() <= STORE_QUERY_LIMIT,
            forall|j: int|
                0 <= j < self.visible_rows(owner).len() ==> #[trigger] self.visible_rows(
                    owner,
                )[j].owner@ == owner,
    {
        broadcast use vstd::seq_lib::group_filter_ensures;

        let or = self.owner_rows(owner);
        assert forall|j: int|
            0 <= j < self.visible_rows(owner).len() implies #[trigger] self.visible_rows(
                owner,
            )[j].owner@ == owner by {
            assert(self.visible_rows(owner)[j] == or[j]);
            assert(owned_by(owner)(or[j]));
        }
    }

    /// In a well-formed store the row carrying an id is unique.
    pub proof fn lemma_row_unique(self, id: Seq<char>, i: int)
        requires
            self.wf(),
            self.row_at(i, id),
        ensures
            self.has_id(id),
            self.row_index(id) == i,
            self.task_with_id(id) == self.rows@[i],
    {
        assert(self.has_id(id));
        let j = self.row_index(id);
        if i < j {
            assert(self.rows@[i].id@ != self.rows@[j].id@);
        } else if j < i {
            assert(self.rows@[j].id@ != self.rows@[i].id@);
        }
    }

    /// A fresh store: no rows, backend reachable.
    pub fn new() -> (s: Store)
        ensures
            s.wf(),
            s.available,
            s.rows@.len() == 0,
    {
        Store { rows: Vec::new(), available: true }
    }

    /// Models losing the backend: every later operation fails until
    /// `go_online` is called. Stored rows are unaffected.
    pub fn go_offline(&mut self)
        ensures
            *final(self) == (Store { available: false, ..*old(self) }),
    {
        self.available = false;
    }

    /// Models regaining the backend.
    pub fn go_online(&mut self)
        ensures
            *final(self) == (Store { available: true, ..*old(self) }),
    {
        self.available = true;
    }

    /// The index of the row carrying `id`, if any.
    fn index_of_id(&self, id: &String) -> (r: Option<usize>)
        ensures
            match r {
                Some(i) => i < self.rows@.len() && self.rows@[i as int].id@ == id@,
                None => forall|j: int| 0 <= j < self.rows@.len() ==> self.rows@[j].id@ != id@,
            },
    {
        let mut i: usize = 0;
        while i < self.rows.len()
            invariant
                0 <= i <= self.rows@.len(),
                forall|j: int| 0 <= j < i ==> self.rows@[j].id@ != id@,
            decreases self.rows@.len() - i,
        {
            if self.rows[i].id == *id {
                return Some(i);
            }
            i = i + 1;
        }
        None
    }

    /// Appends a new row. Fails with `DuplicateId` when a row already
    /// carries the task's id, and with `StoreUnavailable` when the backend
    /// is unreachable; in both cases nothing changes.
    pub fn insert(&mut self, t: Task) -> (r: Result<Task, TaskError>)
        requires
            old(self).wf(),
        ensures
            final(self).wf(),
            final(self).available == old(self).available,
            !old(self).available ==> r == Err::<Task, TaskError>(TaskError::StoreUnavailable)
                && final(self).rows@ == old(self).rows@,
            old(self).available ==> match r {
                Ok(t2) => !old(self).has_id(t2.id@) && final(self).rows@ == old(self).rows@.push(
                    t2,
                ),
                Err(e) => e == TaskError::DuplicateId && old(self).has_id(t.id@) && final(self).rows@
                    == old(self).rows@,
            },
            old(self).available && r is Ok ==> r == Ok::<Task, TaskError>(t),
    {
        if !self.available {
            return Err(TaskError::StoreUnavailable);
        }
        match self.index_of_id(&t.id) {
            Some(i) => {
                proof {
                    assert(self.row_at(i as int, t.id@));
                }
                Err(TaskError::DuplicateId)
            },
            None => {
                let ghost pre = *self;
                let stored = copy_task(&t);
                self.rows.push(stored);
                proof {
                    assert forall|a: int, b: int|
                        0 <= a < b < self.rows@.len() implies self.rows@[a].id@
                        != self.rows@[b].id@ by {
                        if b < pre.rows@.len() {
                            assert(pre.rows@[a].id@ != pre.rows@[b].id@);
                        }
                    }
                    if pre.has_id(t.id@) {
                        let j = choose|j: int| pre.row_at(j, t.id@);
                        assert(pre.rows@[j].id@ != t.id@);
                    }
                }
                Ok(t)
            },
        }
    }

    /// Answers a collection query: the owner's rows in store order, cut at
    /// the limit. Never mutates state.
    pub fn find_by_owner(&self, user_id: &String) -> (r: Result<Vec<Task>, TaskError>)
        ensures
            !self.available ==> r == Err::<Vec<Task>, TaskError>(TaskError::StoreUnavailable),
            self.available ==> match r {
                Ok(ts) => ts@ == self.visible_rows(user_id@),
                Err(_) => false,
            },
    {
        if !self.available {
            return Err(TaskError::StoreUnavailable);
        }
        let mut out: Vec<Task> = Vec::new();
        let mut i: usize = 0;
        while i < self.rows.len()
            invariant
                0 <= i <= self.rows@.len(),
                out@ == self.rows@.take(i as int).filter(owned_by(user_id@)),
            decreases self.rows@.len() - i,
        {
            proof {
                assert(self.rows@.take(i + 1 as int).drop_last() =~= self.rows@.take(i as int));
                assert(self.rows@.take(i + 1 as int).last() == self.rows@[i as int]);
                reveal(Seq::filter);
            }
            if self.rows[i].owner == *user_id {
                out.push(copy_task(&self.rows[i]));
            }
            i = i + 1;
        }
        proof {
            assert(self.rows@.take(self.rows@.len() as int) =~= self.rows@);
        }
        if out.len() > STORE_QUERY_LIMIT {
            out.truncate(STORE_QUERY_LIMIT);
            proof {
                assert(self.visible_rows(user_id@) =~= self.owner_rows(user_id@).subrange(
                    0,
                    STORE_QUERY_LIMIT as int,
                ));
            }
        }
        Ok(out)
    }

    /// Answers a single-row query filtered by id and owner; both must match.
    /// An absent row is an absent result, not an error. Never mutates state.
    pub fn find_by_id_owner(&self, task_id: &String, user_id: &String) -> (r: Result<
        Option<Task>,
        TaskError,
    >)
        requires
            self.wf(),
        ensures
            !self.available ==> r == Err::<Option<Task>, TaskError>(TaskError::StoreUnavailable),
            self.available ==> r == Ok::<Option<Task>, TaskError>(
                if self.has_task(task_id@, user_id@) {
                    Some(self.task_with_id(task_id@))
                } else {
                    None
                },
            ),
    {
        if !self.available {
            return Err(TaskError::StoreUnavailable);
        }
        let mut i: usize = 0;
        while i < self.rows.len()
            invariant
                self.wf(),
                self.available,
                0 <= i <= self.rows@.len(),
                forall|j: int|
                    0 <= j < i ==> !(self.rows@[j].id@ == task_id@ && self.rows@[j].owner@
                        == user_id@),
            decreases self.rows@.len() - i,
        {
            if self.rows[i].id == *task_id && self.rows[i].owner == *user_id {
                proof {
                    self.lemma_row_unique(task_id@, i as int);
                }
                return Ok(Some(copy_task(&self.rows[i])));
            }
            i = i + 1;
        }
        proof {
            if self.has_task(task_id@, user_id@) {
                let j = choose|j: int| self.row_at(j, task_id@);
                self.lemma_row_unique(task_id@, j);
                assert(!(self.rows@[j].id@ == task_id@ && self.rows@[j].owner@ == user_id@));
            }
        }
        Ok(None)
    }

    /// Overwrites the row carrying the task's id with the given fields,
    /// filtered by id and owner, as deletion is: a task can only be
    /// rewritten by its owner. When no row matches both, nothing changes and
    /// the call still succeeds, as a zero-row update would.
    pub fn update_by_id(&mut self, t: &Task) -> (r: Result<(), TaskError>)
        requires
            old(self).wf(),
        ensures
            final(self).wf(),
            final(self).available == old(self).available,
            !old(self).available ==> r == Err::<(), TaskError>(TaskError::StoreUnavailable)
                && final(self).rows@ == old(self).rows@,
            old(self).available ==> r == Ok::<(), TaskError>(()) && final(self).rows@ == (
            if old(self).has_task(t.id@, t.owner@) {
                old(self).rows@.update(old(self).row_index(t.id@), *t)
            } else {
                old(self).rows@
            }),
    {
        if !self.available {
            return Err(TaskError::StoreUnavailable);
        }
        let ghost pre = *self;
        match self.index_of_id(&t.id) {
            Some(i) => {
                proof {
                    pre.lemma_row_unique(t.id@, i as int);
                }
                if self.rows[i].owner == t.owner {
                    self.rows[i] = copy_task(t);
                    proof {
                        assert forall|a: int, b: int|
                            0 <= a < b < self.rows@.len() implies self.rows@[a].id@
                            != self.rows@[b].id@ by {
                            assert(pre.rows@[a].id@ != pre.rows@[b].id@);
                        }
                    }
                }
            },
            None => {
                proof {
                    if pre.has_id(t.id@) {
                        let j = choose|j: int| pre.row_at(j, t.id@);
                        assert(pre.rows@[j].id@ != t.id@);
                    }
                }
            },
        }
        Ok(())
    }

    /// Removes the row carrying the id, filtered by id and owner; absence of
    /// a matching row is success, so the operation is idempotent.
    pub fn delete_by_id_owner(&mut self, task_id: &String, user_id: &String) -> (r: Result<
        (),
        TaskError,
    >)
        requires
            old(self).wf(),
        ensures
            final(self).wf(),
            final(self).available == old(self).available,
            !old(self).available ==> r == Err::<(), TaskError>(TaskError::StoreUnavailable)
                && final(self).rows@ == old(self).rows@,
            old(self).available ==> r == Ok::<(), TaskError>(()) && final(self).rows@ == (
            if old(self).has_task(task_id@, user_id@) {
                old(self).rows@.remove(old(self).row_index(task_id@))
            } else {
                old(self).rows@
            }),
            old(self).available ==> !final(self).has_task(task_id@, user_id@),
            old(self).available ==> forall|j: int|
                0 <= j < old(self).rows@.len() && !(old(self).rows@[j].id@ == task_id@
                    && old(self).rows@[j].owner@ == user_id@) ==> final(self).rows@.contains(
                    old(self).rows@[j],
                ),
    {
        if !self.available {
            return Err(TaskError::StoreUnavailable);
        }
        let mut i: usize = 0;
        while i < self.rows.len()
            invariant
                self.wf(),
                self.available,
                *self == *old(self),
                0 <= i <= self.rows@.len(),
                forall|j: int|
                    0 <= j < i ==> !(self.rows@[j].id@ == task_id@ && self.rows@[j].owner@
                        == user_id@),
            decreases self.rows@.len() - i,
        {
            if self.rows[i].id == *task_id && self.rows[i].owner == *user_id {
                proof {
                    old(self).lemma_row_unique(task_id@, i as int);
                    assert(old(self).has_task(task_id@, user_id@));
                }
                self.rows.remove(i);
                proof {
                    Self::lemma_after_remove(*old(self), *self, i as int, task_id@, user_id@);
                }
                return Ok(());
            }
            i = i + 1;
        }
        proof {
            if old(self).has_task(task_id@, user_id@) {
                let j = choose|j: int| old(self).row_at(j, task_id@);
                old(self).lemma_row_unique(task_id@, j);
                assert(!(old(self).rows@[j].id@ == task_id@ && old(self).rows@[j].owner@
                    == user_id@));
            }
            assert forall|j: int|
                0 <= j < old(self).rows@.len() implies self.rows@.contains(old(self).rows@[j]) by {
                assert(self.rows@[j] == old(self).rows@[j]);
            }
        }
        Ok(())
    }

    /// After removing the unique row carrying `id`, the store is still
    /// well-formed, no row matches `(id, owner)`, and every other row
    /// survives.
    proof fn lemma_after_remove(pre: Store, post: Store, i: int, id: Seq<char>, owner: Seq<char>)
        requires
            pre.wf(),
            0 <= i < pre.rows@.len(),
            pre.rows@[i].id@ == id,
            post.rows@ == pre.rows@.remove(i),
        ensures
            post.wf(),
            !post.has_task(id, owner),
            forall|j: int|
                0 <= j < pre.rows@.len() && j != i ==> post.rows@.contains(pre.rows@[j]),
    {
        assert forall|a: int, b: int|
            0 <= a < b < post.rows@.len() implies post.rows@[a].id@ != post.rows@[b].id@ by {
            let a0: int = if a < i { a } else { a + 1 };
            let b0: int = if b < i { b } else { b + 1 };
            assert(post.rows@[a] == pre.rows@[a0]);
            assert(post.rows@[b] == pre.rows@[b0]);
            assert(pre.rows@[a0].id@ != pre.rows@[b0].id@);
        }
        if post.has_id(id) {
            let j = choose|j: int| post.row_at(j, id);
            let j0: int = if j < i { j } else { j + 1 };
            assert(post.rows@[j] == pre.rows@[j0]);
            assert(pre.rows@[j0].id@ != pre.rows@[i].id@);
            assert(false);
        }
        assert forall|j: int|
            0 <= j < pre.rows@.len() && j != i implies post.rows@.contains(pre.rows@[j]) by {
            let j1: int = if j < i { j } else { j - 1 };
            assert(post.rows@[j1] == pre.rows@[j]);
        }
    }
}

} // verus!
