//! The task record: identity, lifecycle status, timing, payload and result.

use vstd::prelude::*;

verus! {

/// Lifecycle of a task. The order is monotonic: a task moves
/// `Queued -> Running -> Completed` and never back.
#[derive(Clone, Copy, Debug, PartialEq, Eq, Structural)]
pub enum TaskStatus {
    Queued,
    Running,
    Completed,
}

/// Outcome of submitting a task: it either started at once or was queued.
#[derive(Clone, Copy, Debug, PartialEq, Eq, Structural)]
pub enum AdmissionOutcome {
    Started,
    Queued,
}

/// The caller submitted an id the scheduler already tracks.
#[derive(Clone, Copy, Debug, PartialEq, Eq, Structural)]
pub struct DuplicateTaskError;

/// A slot was released although none was occupied; indicates a scheduler bug.
#[derive(Clone, Copy, Debug, PartialEq, Eq, Structural)]
pub struct UnderflowError;

/// A unit of work. The coordinator assigns the `id`; `task_type` tags the
/// kind of work; `input_data` and `result` are opaque payloads. `start_time`
/// is set exactly once, at the transition to `Running`, and `result` exactly
/// once, at the transition to `Completed`.
pub struct Task {
    pub id: String,
    pub task_type: String,
    pub status: TaskStatus,
    pub start_time: Option<u64>,
    pub input_data: Option<serde_json::Value>,
    pub result: Option<serde_json::Value>,
}

/// A task as the task source hands it in: not yet started, no result.
pub open spec fn is_fresh(t: Task) -> bool {
    &&& t.status == TaskStatus::Queued
    &&& t.start_time is None
    &&& t.result is None
}

/// A task as it sits in the running set: started, no result yet.
pub open spec fn is_running(t: Task) -> bool {
    &&& t.status == TaskStatus::Running
    &&& t.start_time is Some
    &&& t.result is None
}

/// Some task in `s` bears the id.
pub open spec fn has_id(s: Seq<Task>, id: Seq<char>) -> bool {
    exists|i: int| 0 <= i < s.len() && #[trigger] s[i].id@ == id
}

/// The position of the task bearing the id (meaningful when `has_id` holds
/// and the ids in `s` are distinct).
pub open spec fn index_of_id(s: Seq<Task>, id: Seq<char>) -> int {
    choose|i: int| 0 <= i < s.len() && #[trigger] s[i].id@ == id
}

/// No two tasks in `s` bear the same id.
pub open spec fn distinct_ids(s: Seq<Task>) -> bool {
    forall|i: int, j: int|
        0 <= i < j < s.len() ==> #[trigger] s[i].id@ != #[trigger] s[j].id@
}

/// No id occurs both in `a` and in `b`.
pub open spec fn disjoint_ids(a: Seq<Task>, b: Seq<Task>) -> bool {
    forall|i: int, j: int|
        0 <= i < a.len() && 0 <= j < b.len() ==> #[trigger] a[i].id@ != #[trigger] b[j].id@
}

/// `t` is `source` after the Queued -> Running transition: the same identity
/// and payload, status `Running`, and a start time recorded.
pub open spec fn runs_as(t: Task, source: Task) -> bool {
    &&& t.id@ == source.id@
    &&& t.task_type@ == source.task_type@
    &&& t.status == TaskStatus::Running
    &&& t.start_time is Some
    &&& t.input_data == source.input_data
    &&& t.result == source.result
}

/// `t` after the Running -> Completed transition with `result` attached.
pub open spec fn completed_of(t: Task, result: serde_json::Value) -> Task {
    Task { status: TaskStatus::Completed, result: Some(result), ..t }
}

/// Finds the position of the task bearing `id`, scanning from the front.
pub fn find_by_id(tasks: &Vec<Task>, id: &str) -> (r: Option<usize>)
    ensures
        match r {
            Some(i) => i < tasks@.len() && tasks@[i as int].id@ == id@,
            None => !has_id(tasks@, id@),
        },
{
    let mut i: usize = 0;
    while i < tasks.len()
        invariant
            i <= tasks@.len(),
            forall|j: int| 0 <= j < i ==> #[trigger] tasks@[j].id@ != id@,
        decreases tasks@.len() - i,
    {
        if tasks[i].id.as_str().eq(id) {
            return Some(i);
        }
        i = i + 1;
    }
    None
}

} // verus!
