use vstd::prelude::*;
use crate::errors::TaskError;
use crate::keys::CacheKeyV;
use crate::model::{Task, TaskRequest};
use crate::repository::TaskRepository;

verus! {

/// Relies on uuid::Uuid::new_v4 and uuid's hyphenated string rendering: a
/// fresh version-4 identifier always prints as 36 characters. The call is
/// also trusted not to abort; it reads the operating system's random
/// source, whose failure ends the process like an allocation failure would.
#[verifier::external_body]
fn new_task_id() -> (r: String)
    ensures
        r@.len() == 36,
{
    uuid::Uuid::new_v4().to_string()
}

/// The capability a service offers: the persistence operations, behind
/// input validation and identity derivation.
pub trait TaskServiceInterface: Sized {
    spec fn service_inv(&self) -> bool;

    fn insert(&mut self, task_request: TaskRequest, user_id: String) -> (r: Result<
        Task,
        TaskError,
    >)
        requires
            old(self).service_inv(),
        ensures
            final(self).service_inv(),
    ;

    fn find_all(&mut self, user_id: String) -> (r: Result<Vec<Task>, TaskError>)
        requires
            old(self).service_inv(),
        ensures
            final(self).service_inv(),
    ;

    fn find_by_id(&mut self, task_id: String, user_id: String) -> (r: Result<
        Option<Task>,
        TaskError,
    >)
        requires
            old(self).service_inv(),
        ensures
            final(self).service_inv(),
    ;

    fn update(&mut self, task_request: TaskRequest, task_id: String, user_id: String) -> (r:
        Result<Task, TaskError>)
        requires
            old(self).service_inv(),
        ensures
            final(self).service_inv(),
    ;

    fn delete(&mut self, task_id: String, user_id: String) -> (r: Result<(), TaskError>)
        requires
            old(self).service_inv(),
        ensures
            final(self).service_inv(),
    ;
}

/// The validation and identity layer above the repository: rejects empty
/// required fields, assigns fresh ids and ownership, and owns no caching
/// logic of its own.
pub struct TaskService {
    pub repository: TaskRepository,
}

/// The first validation failure of a creation request, if any: user id,
/// title and description must be non-empty, checked in that order.
pub open spec fn insert_validation_error(request: TaskRequest, user_id: Seq<char>) -> Option<
    TaskError,
> {
    if user_id.len() == 0 {
        Some(TaskError::EmptyUserId)
    } else if request.title@.len() == 0 {
        Some(TaskError::EmptyTitle)
    } else if request.description@.len() == 0 {
        Some(TaskError::EmptyDescription)
    } else {
        None
    }
}

/// The first validation failure of an update, if any: user id, task id,
/// title and description must be non-empty, checked in that order.
pub open spec fn update_validation_error(
    request: TaskRequest,
    task_id: Seq<char>,
    user_id: Seq<char>,
) -> Option<TaskError> {
    if user_id.len() == 0 {
        Some(TaskError::EmptyUserId)
    } else if task_id.len() == 0 {
        Some(TaskError::EmptyTaskId)
    } else if request.title@.len() == 0 {
        Some(TaskError::EmptyTitle)
    } else if request.description@.len() == 0 {
        Some(TaskError::EmptyDescription)
    } else {
        None
    }
}

/// Checks a creation request, answering the first failing field's error.
pub fn check_insert_request(request: &TaskRequest, user_id: &String) -> (r: Option<TaskError>)
    ensures
        r == insert_validation_error(*request, user_id@),
{
    if user_id.as_str().is_empty() {
        Some(TaskError::EmptyUserId)
    } else if request.title.as_str().is_empty() {
        Some(TaskError::EmptyTitle)
    } else if request.description.as_str().is_empty() {
        Some(TaskError::EmptyDescription)
    } else {
        None
    }
}

/// Checks an update request, answering the first failing field's error.
pub fn check_update_request(
    request: &TaskRequest,
    task_id: &String,
    user_id: &String,
) -> (r: Option<TaskError>)
    ensures
        r == update_validation_error(*request, task_id@, user_id@),
{
    if user_id.as_str().is_empty() {
        Some(TaskError::EmptyUserId)
    } else if task_id.as_str().is_empty() {
        Some(TaskError::EmptyTaskId)
    } else if request.title.as_str().is_empty() {
        Some(TaskError::EmptyTitle)
    } else if request.description.as_str().is_empty() {
        Some(TaskError::EmptyDescription)
    } else {
        None
    }
}

/// The task a creation request denotes once an id is assigned: the caller
/// chooses title, description and completion; the system fixes id and owner.
pub open spec fn made_task(
    request: TaskRequest,
    user_id: Seq<char>,
    task_id: Seq<char>,
    t: Task,
) -> bool {
    &&& t.id@ == task_id
    &&& t.title@ == request.title@
    &&& t.description@ == request.description@
    &&& t.completed == request.completed
    &&& t.owner@ == user_id
}

/// The base task overlaid with an update request: id and owner are kept,
/// the mutable fields are replaced.
pub open spec fn overlaid(base: Task, request: TaskRequest) -> Task {
    Task {
        title: request.title,
        description: request.description,
        completed: request.completed,
        ..base
    }
}

/// Builds the task a creation request denotes: the caller's title,
/// description and completion, under the given id and the submitted
/// identity as owner.
pub fn build_task(task_request: TaskRequest, user_id: String, task_id: String) -> (t: Task)
    ensures
        made_task(task_request, user_id@, task_id@, t),
{
    Task {
        id: task_id,
        title: task_request.title,
        description: task_request.description,
        completed: task_request.completed,
        owner: user_id,
    }
}

/// Overlays a base task with an update request: id and owner are kept, the
/// mutable fields are replaced.
pub fn overlay_task(base: Task, task_request: TaskRequest) -> (t: Task)
    ensures
        t == overlaid(base, task_request),
{
    Task {
        id: base.id,
        title: task_request.title,
        description: task_request.description,
        completed: task_request.completed,
        owner: base.owner,
    }
}

impl TaskService {
    pub open spec fn inv(self) -> bool {
        self.repository.inv()
    }

    /// Layers a service over a repository.
    pub fn new(repository: TaskRepository) -> (s: TaskService)
        requires
            repository.inv(),
        ensures
            s.repository == repository,
            s.inv(),
    {
        TaskService { repository }
    }

    /// What `insert_with_id` did, given the id that was assigned.
    pub open spec fn insert_post(
        pre: TaskService,
        post: TaskService,
        request: TaskRequest,
        user_id: Seq<char>,
        task_id: Seq<char>,
        r: Result<Task, TaskError>,
    ) -> bool {
        match insert_validation_error(request, user_id) {
            Some(e) => r == Err::<Task, TaskError>(e) && post == pre,
            None => {
                &&& post.repository.cache == pre.repository.cache
                &&& post.repository.store.available == pre.repository.store.available
                &&& !pre.repository.store.available ==> r == Err::<Task, TaskError>(
                    TaskError::StoreUnavailable,
                ) && post.repository.store.rows@ == pre.repository.store.rows@
                &&& pre.repository.store.available ==> match r {
                    Ok(t) => {
                        &&& made_task(request, user_id, task_id, t)
                        &&& !pre.repository.store.has_id(task_id)
                        &&& post.repository.store.rows@ == pre.repository.store.rows@.push(t)
                    },
                    Err(e) => {
                        &&& e == TaskError::DuplicateId
                        &&& pre.repository.store.has_id(task_id)
                        &&& post.repository.store.rows@ == pre.repository.store.rows@
                    },
                }
            },
        }
    }

    /// Validates the request, then persists a task carrying the given id and
    /// the submitted identity as owner. The store refuses a duplicate id.
    pub fn insert_with_id(&mut self, task_request: TaskRequest, user_id: String, task_id: String) -> (r:
        Result<Task, TaskError>)
        requires
            old(self).inv(),
        ensures
            final(self).inv(),
            Self::insert_post(*old(self), *final(self), task_request, user_id@, task_id@, r),
    {
        match check_insert_request(&task_request, &user_id) {
            Some(e) => {
                return Err(e);
            },
            None => {},
        }
        let task = build_task(task_request, user_id, task_id);
        self.repository.insert(task)
    }

    /// Validates the request, assigns a fresh globally-unique id and the
    /// submitted identity as owner, and persists the task.
    pub fn insert(&mut self, task_request: TaskRequest, user_id: String) -> (r: Result<
        Task,
        TaskError,
    >)
        requires
            old(self).inv(),
        ensures
            final(self).inv(),
            exists|task_id: Seq<char>|
                task_id.len() == 36 && #[trigger] Self::insert_post(
                    *old(self),
                    *final(self),
                    task_request,
                    user_id@,
                    task_id,
                    r,
                ),
            r matches Ok(t) ==> t.owner@ == user_id@ && t.title@ == task_request.title@
                && t.description@ == task_request.description@ && t.completed
                == task_request.completed && t.id@.len() == 36
                && !old(self).repository.store.has_id(t.id@),
    {
        let task_id = new_task_id();
        let ghost tid = task_id@;
        let r = self.insert_with_id(task_request, user_id, task_id);
        proof {
            assert(Self::insert_post(*old(self), *self, task_request, user_id@, tid, r));
        }
        r
    }

    /// Validates the identity, then reads the owner's collection through the
    /// cache-aside path.
    pub fn find_all(&mut self, user_id: String) -> (r: Result<Vec<Task>, TaskError>)
        requires
            old(self).inv(),
        ensures
            final(self).inv(),
            user_id@.len() == 0 ==> r == Err::<Vec<Task>, TaskError>(TaskError::EmptyUserId)
                && *final(self) == *old(self),
            user_id@.len() > 0 ==> TaskRepository::find_all_post(
                old(self).repository,
                final(self).repository,
                user_id@,
                r,
            ),
    {
        if user_id.as_str().is_empty() {
            return Err(TaskError::EmptyUserId);
        }
        self.repository.find_all(&user_id)
    }

    /// Validates the task id (the identity is deliberately not validated
    /// here), then reads the task through the cache-aside path.
    pub fn find_by_id(&mut self, task_id: String, user_id: String) -> (r: Result<
        Option<Task>,
        TaskError,
    >)
        requires
            old(self).inv(),
        ensures
            final(self).inv(),
            task_id@.len() == 0 ==> r == Err::<Option<Task>, TaskError>(TaskError::EmptyTaskId)
                && *final(self) == *old(self),
            task_id@.len() > 0 ==> TaskRepository::find_by_id_post(
                old(self).repository,
                final(self).repository,
                task_id@,
                user_id@,
                r,
            ),
    {
        if task_id.as_str().is_empty() {
            return Err(TaskError::EmptyTaskId);
        }
        self.repository.find_by_id(&task_id, &user_id)
    }

    /// What `update` did once validation passed: the current task is fetched
    /// through the cache-aside read, the mutable fields are overlaid, and the
    /// result is persisted behind an invalidation of its cache entry. An
    /// absent task is `NotFound`.
    pub open spec fn update_flow_post(
        pre: TaskService,
        post: TaskService,
        request: TaskRequest,
        task_id: Seq<char>,
        user_id: Seq<char>,
        r: Result<Task, TaskError>,
    ) -> bool {
        let k = CacheKeyV::Item { owner: user_id, id: task_id };
        if TaskRepository::item_hit(pre.repository, k) {
            Self::overlay_then_update(
                pre,
                post,
                request,
                task_id,
                user_id,
                pre.repository.cache.live_value(k)@->One_0,
                r,
            )
        } else if pre.repository.store.available && pre.repository.store.has_task(
            task_id,
            user_id,
        ) {
            Self::overlay_then_update(
                pre,
                post,
                request,
                task_id,
                user_id,
                pre.repository.store.task_with_id(task_id),
                r,
            )
        } else if !pre.repository.store.available {
            r == Err::<Task, TaskError>(TaskError::StoreUnavailable) && post == pre
        } else {
            r == Err::<Task, TaskError>(TaskError::NotFound) && post == pre
        }
    }

    /// The fetched base task, overlaid with the request, went through the
    /// repository's invalidate-then-mutate update, from some state the
    /// cache-aside read left behind.
    pub open spec fn overlay_then_update(
        pre: TaskService,
        post: TaskService,
        request: TaskRequest,
        task_id: Seq<char>,
        user_id: Seq<char>,
        base: Task,
        r: Result<Task, TaskError>,
    ) -> bool {
        exists|mid: TaskRepository|
            {
                &&& #[trigger] TaskRepository::find_by_id_post(
                    pre.repository,
                    mid,
                    task_id,
                    user_id,
                    Ok(Some(base)),
                )
                &&& TaskRepository::update_post(mid, post.repository, overlaid(base, request), r)
            }
    }

    /// Validates all four fields, fetches the current task, overlays the
    /// mutable fields, and persists the result; `NotFound` when no task
    /// matches the id and owner.
    pub fn update(&mut self, task_request: TaskRequest, task_id: String, user_id: String) -> (r:
        Result<Task, TaskError>)
        requires
            old(self).inv(),
        ensures
            final(self).inv(),
            r matches Ok(t) ==> t.id@ == task_id@ && t.owner@ == user_id@ && t.title@
                == task_request.title@ && t.description@ == task_request.description@
                && t.completed == task_request.completed,
            match update_validation_error(task_request, task_id@, user_id@) {
                Some(e) => r == Err::<Task, TaskError>(e) && *final(self) == *old(self),
                None => Self::update_flow_post(
                    *old(self),
                    *final(self),
                    task_request,
                    task_id@,
                    user_id@,
                    r,
                ),
            },
    {
        match check_update_request(&task_request, &task_id, &user_id) {
            Some(e) => {
                return Err(e);
            },
            None => {},
        }
        let found = match self.repository.find_by_id(&task_id, &user_id) {
            Ok(found) => found,
            Err(e) => {
                return Err(e);
            },
        };
        let ghost mid = self.repository;
        match found {
            Some(task) => {
                let ghost base = task;
                let task = overlay_task(task, task_request);
                let ghost over = task;
                let r = self.repository.update(task);
                proof {
                    let k = CacheKeyV::Item { owner: user_id@, id: task_id@ };
                    let pre = *old(self);
                    let sbase = if TaskRepository::item_hit(pre.repository, k) {
                        pre.repository.cache.live_value(k)@->One_0
                    } else {
                        pre.repository.store.task_with_id(task_id@)
                    };
                    assert(base == sbase);
                    assert(over == overlaid(sbase, task_request));
                    assert(TaskRepository::find_by_id_post(
                        pre.repository,
                        mid,
                        task_id@,
                        user_id@,
                        Ok(Some(sbase)),
                    ));
                    assert(TaskRepository::update_post(mid, self.repository, over, r));
                    assert(Self::update_flow_post(
                        *old(self),
                        *self,
                        task_request,
                        task_id@,
                        user_id@,
                        r,
                    ));
                }
                r
            },
            None => {
                proof {
                    assert(Self::update_flow_post(
                        *old(self),
                        *self,
                        task_request,
                        task_id@,
                        user_id@,
                        Err(TaskError::NotFound),
                    ));
                }
                Err(TaskError::NotFound)
            },
        }
    }

    /// Validates the task id, then deletes through the cache-aside path;
    /// deleting an absent task succeeds.
    pub fn delete(&mut self, task_id: String, user_id: String) -> (r: Result<(), TaskError>)
        requires
            old(self).inv(),
        ensures
            final(self).inv(),
            task_id@.len() == 0 ==> r == Err::<(), TaskError>(TaskError::EmptyTaskId)
                && *final(self) == *old(self),
            task_id@.len() > 0 ==> TaskRepository::delete_post(
                old(self).repository,
                final(self).repository,
                task_id@,
                user_id@,
                r,
            ),
    {
        if task_id.as_str().is_empty() {
            return Err(TaskError::EmptyTaskId);
        }
        self.repository.delete(&task_id, &user_id)
    }
}

impl TaskServiceInterface for TaskService {
    open spec fn service_inv(&self) -> bool {
        self.inv()
    }

    fn insert(&mut self, task_request: TaskRequest, user_id: String) -> (r: Result<
        Task,
        TaskError,
    >)
        ensures
            exists|task_id: Seq<char>|
                task_id.len() == 36 && #[trigger] Self::insert_post(
                    *old(self),
                    *final(self),
                    task_request,
                    user_id@,
                    task_id,
                    r,
                ),
    {
        self.insert(task_request, user_id)
    }

    fn find_all(&mut self, user_id: String) -> (r: Result<Vec<Task>, TaskError>)
        ensures
            user_id@.len() == 0 ==> r == Err::<Vec<Task>, TaskError>(TaskError::EmptyUserId)
                && *final(self) == *old(self),
            user_id@.len() > 0 ==> TaskRepository::find_all_post(
                old(self).repository,
                final(self).repository,
                user_id@,
                r,
            ),
    {
        self.find_all(user_id)
    }

    fn find_by_id(&mut self, task_id: String, user_id: String) -> (r: Result<
        Option<Task>,
        TaskError,
    >)
        ensures
            task_id@.len() == 0 ==> r == Err::<Option<Task>, TaskError>(TaskError::EmptyTaskId)
                && *final(self) == *old(self),
            task_id@.len() > 0 ==> TaskRepository::find_by_id_post(
                old(self).repository,
                final(self).repository,
                task_id@,
                user_id@,
                r,
            ),
    {
        self.find_by_id(task_id, user_id)
    }

    fn update(&mut self, task_request: TaskRequest, task_id: String, user_id: String) -> (r:
        Result<Task, TaskError>)
        ensures
            r matches Ok(t) ==> t.id@ == task_id@ && t.owner@ == user_id@ && t.title@
                == task_request.title@ && t.description@ == task_request.description@
                && t.completed == task_request.completed,
            match update_validation_error(task_request, task_id@, user_id@) {
                Some(e) => r == Err::<Task, TaskError>(e) && *final(self) == *old(self),
                None => Self::update_flow_post(
                    *old(self),
                    *final(self),
                    task_request,
                    task_id@,
                    user_id@,
                    r,
                ),
            },
    {
        self.update(task_request, task_id, user_id)
    }

    fn delete(&mut self, task_id: String, user_id: String) -> (r: Result<(), TaskError>)
        ensures
            task_id@.len() == 0 ==> r == Err::<(), TaskError>(TaskError::EmptyTaskId)
                && *final(self) == *old(self),
            task_id@.len() > 0 ==> TaskRepository::delete_post(
                old(self).repository,
                final(self).repository,
                task_id@,
                user_id@,
                r,
            ),
    {
        self.delete(task_id, user_id)
    }
}

} // verus!
