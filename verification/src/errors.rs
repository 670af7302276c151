use vstd::prelude::*;

verus! {

/// Every failure a caller of the service or repository can see.
///
/// The four `Empty*` variants are validation failures; `NotFound` is raised
/// only on the update path's lookup of the existing task; `DuplicateId` and
/// `StoreUnavailable` come from the source-of-record store and always
/// propagate. Cache failures never appear here: they are absorbed inside the
/// repository.
#[derive(Debug, Clone, Copy, PartialEq, Eq, Structural)]
pub enum TaskError {
    EmptyUserId,
    EmptyTaskId,
    EmptyTitle,
    EmptyDescription,
    NotFound,
    DuplicateId,
    StoreUnavailable,
}

impl TaskError {
    /// The human-readable description the response envelope carries.
    pub fn message(&self) -> (m: String)
        ensures
            *self is EmptyUserId ==> m@ == "user_id cannot be empty"@,
            *self is EmptyTaskId ==> m@ == "task_id cannot be empty"@,
            *self is EmptyTitle ==> m@ == "title cannot be empty"@,
            *self is EmptyDescription ==> m@ == "description cannot be empty"@,
            *self is NotFound ==> m@ == "task not found"@,
            *self is DuplicateId ==> m@ == "task id already exists"@,
            *self is StoreUnavailable ==> m@ == "store backend unavailable"@,
    {
        match self {
            TaskError::EmptyUserId => "user_id cannot be empty".to_owned(),
            TaskError::EmptyTaskId => "task_id cannot be empty".to_owned(),
            TaskError::EmptyTitle => "title cannot be empty".to_owned(),
            TaskError::EmptyDescription => "description cannot be empty".to_owned(),
            TaskError::NotFound => "task not found".to_owned(),
            TaskError::DuplicateId => "task id already exists".to_owned(),
            TaskError::StoreUnavailable => "store backend unavailable".to_owned(),
        }
    }
}

/// Every failure of the cache client. All of them are absorbed by the
/// repository: a failing read falls back to the store, a failing
/// invalidation does not block the mutation.
#[derive(Debug, Clone, Copy, PartialEq, Eq, Structural)]
pub enum CacheError {
    Connection,
    NotFound,
    Deserialization,
    Serialization,
    Backend,
}

} // verus!
