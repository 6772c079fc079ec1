//! The admission queue: tasks that arrived while every slot was occupied.
//!
//! Promotion order is LIFO — `pop_next` returns the most recently queued
//! task, a stack-like backlog. Under sustained overload this lets an old
//! task wait indefinitely; the policy is deliberate and documented here.

use vstd::prelude::*;

use crate::task::{has_id, Task};

verus! {

/// An unbounded backlog of waiting tasks, drained most-recent-first.
pub struct AdmissionQueue {
    tasks: Vec<Task>,
}

impl View for AdmissionQueue {
    type V = Seq<Task>;

    /// The waiting tasks, oldest first; `pop_next` takes the last.
    closed spec fn view(&self) -> Seq<Task> {
        self.tasks@
    }
}

impl AdmissionQueue {
    /// An empty backlog.
    pub fn new() -> (q: Self)
        ensures
            q@ == Seq::<Task>::empty(),
    {
        AdmissionQueue { tasks: Vec::new() }
    }

    /// Appends a task to the backlog; there is no upper bound.
    pub fn push(&mut self, task: Task)
        ensures
            final(self)@ == old(self)@.push(task),
    {
        self.tasks.push(task);
    }

    /// Removes and returns the task to promote next: the most recently
    /// queued one (LIFO).
    pub fn pop_next(&mut self) -> (r: Option<Task>)
        ensures
            old(self)@.len() == 0 ==> r is None && final(self)@ == old(self)@,
            old(self)@.len() > 0 ==> r == Some(old(self)@.last())
                && final(self)@ == old(self)@.drop_last(),
    {
        self.tasks.pop()
    }

    /// How many tasks wait.
    pub fn len(&self) -> (n: usize)
        ensures
            n == self@.len(),
    {
        self.tasks.len()
    }

    /// Whether some waiting task bears the id.
    pub fn contains_id(&self, id: &str) -> (r: bool)
        ensures
            r == has_id(self@, id@),
    {
        crate::task::find_by_id(&self.tasks, id).is_some()
    }

    /// Read access to the waiting tasks, in queue order.
    pub fn tasks(&self) -> (r: &Vec<Task>)
        ensures
            r@ == self@,
    {
        &self.tasks
    }
}

} // verus!
