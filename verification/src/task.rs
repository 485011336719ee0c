//! The task data model: a unit of submitted work with an identity, an
//! optional owner, a prompt payload, and a lifecycle status.

use vstd::prelude::*;

verus! {

/// Status of a task. A task is created `New`, is moved to `InProgress`
/// exactly once when a worker claims it, passes through zero or more
/// `InProgress` updates, and ends in the terminal `Finished` state, after
/// which no further transition is permitted.
#[derive(Debug, PartialEq, Eq)]
pub enum TaskStatus {
    New,
    InProgress { current_step: u32, total_steps: u32 },
    Finished { result: Vec<u8> },
}

/// A unit of submitted work.
#[derive(Debug, PartialEq, Eq)]
pub struct Task {
    /// Opaque unique identifier, assigned by the store at creation.
    pub id: u64,
    /// Identifier of the submitting user; `None` for anonymous submissions.
    pub owner: Option<String>,
    /// Free-form input payload for the model collaborator.
    pub prompt: String,
    pub status: TaskStatus,
}

impl TaskStatus {
    /// A terminal status admits no further transition.
    pub open spec fn is_terminal(self) -> bool {
        self is Finished
    }
}

/// Two statuses that agree up to the contents of the result payload.
pub open spec fn status_matches(a: TaskStatus, b: TaskStatus) -> bool {
    match (a, b) {
        (TaskStatus::New, TaskStatus::New) => true,
        (
            TaskStatus::InProgress { current_step: c1, total_steps: t1 },
            TaskStatus::InProgress { current_step: c2, total_steps: t2 },
        ) => c1 == c2 && t1 == t2,
        (TaskStatus::Finished { result: r1 }, TaskStatus::Finished { result: r2 }) => r1@ == r2@,
        _ => false,
    }
}

/// Two tasks that agree on identity, owner, prompt, and status contents.
pub open spec fn task_matches(a: Task, b: Task) -> bool {
    &&& a.id == b.id
    &&& a.owner == b.owner
    &&& a.prompt == b.prompt
    &&& status_matches(a.status, b.status)
}

/// Copies a byte payload.
pub fn clone_bytes(b: &Vec<u8>) -> (r: Vec<u8>)
    ensures
        r@ == b@,
{
    let n = b.len();
    let mut r: Vec<u8> = Vec::new();
    let mut i: usize = 0;
    while i < n
        invariant
            n == b@.len(),
            i <= n,
            r@ == b@.subrange(0, i as int),
        decreases n - i,
    {
        r.push(b[i]);
        proof {
            assert(r@ =~= b@.subrange(0, i + 1));
        }
        i += 1;
    }
    proof {
        assert(b@.subrange(0, n as int) =~= b@);
    }
    r
}

/// Copies a status; the copy matches the original.
pub fn clone_status(s: &TaskStatus) -> (r: TaskStatus)
    ensures
        status_matches(r, *s),
{
    match s {
        TaskStatus::New => TaskStatus::New,
        TaskStatus::InProgress { current_step, total_steps } => TaskStatus::InProgress {
            current_step: *current_step,
            total_steps: *total_steps,
        },
        TaskStatus::Finished { result } => TaskStatus::Finished { result: clone_bytes(result) },
    }
}

/// Copies a task; the copy matches the original.
pub fn clone_task(t: &Task) -> (r: Task)
    ensures
        task_matches(r, *t),
{
    Task {
        id: t.id,
        owner: crate::store::clone_owner(&t.owner),
        prompt: t.prompt.clone(),
        status: clone_status(&t.status),
    }
}

/// Compares two byte payloads by contents.
pub fn bytes_eq(a: &Vec<u8>, b: &Vec<u8>) -> (r: bool)
    ensures
        r == (a@ == b@),
{
    if a.len() != b.len() {
        assert(a@ != b@);
        return false;
    }
    let n = a.len();
    let mut i: usize = 0;
    while i < n
        invariant
            n == a@.len() == b@.len(),
            i <= n,
            forall|k: int| 0 <= k < i ==> a@[k] == b@[k],
        decreases n - i,
    {
        if a[i] != b[i] {
            return false;
        }
        i += 1;
    }
    proof {
        assert(a@ =~= b@);
    }
    true
}

} // verus!
