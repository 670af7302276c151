use vstd::prelude::*;

verus! {

/// A task record as the store keeps it.
///
/// The `(id, owner)` pair is fixed at creation; `title`, `description` and
/// `completed` are the only mutable fields.
#[derive(Debug, PartialEq)]
pub struct Task {
    pub id: String,
    pub title: String,
    pub description: String,
    pub completed: bool,
    pub owner: String,
}

impl Default for Task {
    fn default() -> (r: Task)
        ensures
            r.id@ == Seq::<char>::empty(),
            r.title@ == Seq::<char>::empty(),
            r.description@ == Seq::<char>::empty(),
            r.completed == false,
            r.owner@ == Seq::<char>::empty(),
    {
        Task {
            id: String::new(),
            title: String::new(),
            description: String::new(),
            completed: false,
            owner: String::new(),
        }
    }
}

/// Copies a task field by field; the copy equals the original.
pub fn copy_task(t: &Task) -> (r: Task)
    ensures
        r == *t,
{
    Task {
        id: t.id.clone(),
        title: t.title.clone(),
        description: t.description.clone(),
        completed: t.completed,
        owner: t.owner.clone(),
    }
}

/// Copies a collection of tasks; the copy holds the same tasks in the same order.
pub fn copy_tasks(v: &Vec<Task>) -> (r: Vec<Task>)
    ensures
        r@ == v@,
{
    let mut r: Vec<Task> = Vec::new();
    let mut i: usize = 0;
    while i < v.len()
        invariant
            0 <= i <= v@.len(),
            r@ == v@.take(i as int),
        decreases v@.len() - i,
    {
        r.push(copy_task(&v[i]));
        proof {
            assert(r@ =~= v@.take(i + 1 as int));
        }
        i = i + 1;
    }
    proof {
        assert(r@ =~= v@);
    }
    r
}

/// What a caller submits to create or overwrite a task: every field a user
/// may choose, and nothing of the identity the system assigns.
#[derive(Debug)]
pub struct TaskRequest {
    pub title: String,
    pub description: String,
    pub completed: bool,
}

/// The payload of a response envelope: one task or a collection.
#[derive(Debug)]
pub enum TaskResponseData {
    Task(Task),
    Tasks(Vec<Task>),
}

/// The envelope every operation answers with: a status code, a human-readable
/// description, and an optional payload.
#[derive(Debug)]
pub struct TaskResponse {
    pub code: String,
    pub description: String,
    pub data: Option<TaskResponseData>,
}

/// Builds a response envelope carrying exactly the given code, description
/// and payload.
pub fn create_task_response(code: &str, description: &str, data: Option<TaskResponseData>) -> (r: TaskResponse)
    ensures
        r.code@ == code@,
        r.description@ == description@,
        r.data == data,
{
    TaskResponse { code: code.to_owned(), description: description.to_owned(), data }
}

} // verus!
