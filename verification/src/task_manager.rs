//! The task scheduler: the single entry and exit point that admits tasks
//! under a fixed concurrency cap, records completions, and promotes waiting
//! tasks into freed slots.

use vstd::prelude::*;

use crate::admission_queue::AdmissionQueue;
use crate::slot_pool::SlotPool;
use crate::task::{
    completed_of, disjoint_ids, distinct_ids, find_by_id, has_id, index_of_id, is_fresh,
    is_running, runs_as, AdmissionOutcome, DuplicateTaskError, Task, TaskStatus,
};
use crate::trusted::now_unix_seconds;

verus! {

/// The scheduler's whole state: the running set, the waiting queue and the
/// slot pool, owned as one aggregate. Exactly one logical operation mutates
/// it at a time; callers that share it place it behind a lock.
pub struct TaskManager {
    active_tasks: Vec<Task>,
    task_queue: AdmissionQueue,
    slots: SlotPool,
}

impl TaskManager {
    /// The running set, in storage order.
    pub closed spec fn running(self) -> Seq<Task> {
        self.active_tasks@
    }

    /// The waiting queue, oldest first.
    pub closed spec fn queued(self) -> Seq<Task> {
        self.task_queue@
    }

    /// The concurrency cap, fixed at construction.
    pub closed spec fn capacity(self) -> int {
        self.slots.capacity()
    }

    /// How many slots the pool counts as occupied.
    pub closed spec fn occupied(self) -> int {
        self.slots.occupied()
    }

    /// The id is tracked, running or waiting.
    pub open spec fn knows(self, id: Seq<char>) -> bool {
        has_id(self.running(), id) || has_id(self.queued(), id)
    }

    /// The scheduler's invariants: the cap is positive and respected, the
    /// slot count mirrors the running set, no id is tracked twice, running
    /// tasks are started and unfinished, waiting tasks are untouched.
    pub open spec fn wf(self) -> bool {
        &&& 1 <= self.capacity()
        &&& self.running().len() <= self.capacity()
        &&& self.occupied() == self.running().len()
        &&& distinct_ids(self.running())
        &&& distinct_ids(self.queued())
        &&& disjoint_ids(self.running(), self.queued())
        &&& forall|i: int| 0 <= i < self.running().len() ==> is_running(#[trigger] self.running()[i])
        &&& forall|i: int| 0 <= i < self.queued().len() ==> is_fresh(#[trigger] self.queued()[i])
    }

    /// An empty scheduler with the given concurrency cap.
    pub fn with_capacity(max_concurrent: usize) -> (m: Self)
        requires
            max_concurrent >= 1,
        ensures
            m.wf(),
            m.running() == Seq::<Task>::empty(),
            m.queued() == Seq::<Task>::empty(),
            m.capacity() == max_concurrent,
    {
        TaskManager {
            active_tasks: Vec::new(),
            task_queue: AdmissionQueue::new(),
            slots: SlotPool::new(max_concurrent),
        }
    }

    /// An empty scheduler with the default cap of three concurrent tasks.
    pub fn new() -> (m: Self)
        ensures
            m.wf(),
            m.running() == Seq::<Task>::empty(),
            m.queued() == Seq::<Task>::empty(),
            m.capacity() == 3,
    {
        Self::with_capacity(3)
    }

    /// Moves `task` into the running set: marks it `Running`, records the
    /// start time, occupies a slot. The only path into the running set.
    fn execute_task(&mut self, task: Task)
        requires
            old(self).wf(),
            old(self).running().len() < old(self).capacity(),
            !old(self).knows(task.id@),
            task.result is None,
        ensures
            final(self).wf(),
            final(self).capacity() == old(self).capacity(),
            final(self).queued() == old(self).queued(),
            final(self).running().len() == old(self).running().len() + 1,
            final(self).running().drop_last() == old(self).running(),
            runs_as(final(self).running().last(), task),
    {
        let mut task = task;
        task.status = TaskStatus::Running;
        task.start_time = Some(now_unix_seconds());
        self.slots.occupy();
        self.active_tasks.push(task);
        proof {
            let pre = old(self).running();
            let post = self.running();
            assert(post.drop_last() =~= pre);
            assert forall|i: int, j: int| 0 <= i < j < post.len() implies #[trigger] post[i].id@
                != #[trigger] post[j].id@ by {
                if j == post.len() - 1 {
                    assert(post[i] == pre[i]);
                }
            }
            assert forall|i: int, j: int|
                0 <= i < post.len() && 0 <= j < self.queued().len() implies #[trigger] post[i].id@
                != #[trigger] self.queued()[j].id@ by {
                if i < post.len() - 1 {
                    assert(post[i] == pre[i]);
                }
            }
            assert forall|i: int| 0 <= i < post.len() implies is_running(#[trigger] post[i]) by {
                if i < post.len() - 1 {
                    assert(post[i] == pre[i]);
                }
            }
        }
    }

    /// Admits a task: runs it at once when a slot is free, queues it
    /// otherwise, and rejects an id that is already tracked, changing
    /// nothing. The outcome reports which of the three happened.
    pub fn add_task(&mut self, task: Task) -> (r: Result<AdmissionOutcome, DuplicateTaskError>)
        requires
            old(self).wf(),
            is_fresh(task),
        ensures
            final(self).wf(),
            submit_transition(*old(self), *final(self), task, r),
    {
        let in_running = find_by_id(&self.active_tasks, task.id.as_str());
        let in_queue = self.task_queue.contains_id(task.id.as_str());
        if in_running.is_some() || in_queue {
            proof {
                if in_running is Some {
                    let i = in_running->0 as int;
                    assert(0 <= i < self.running().len() && self.running()[i].id@ == task.id@);
                }
            }
            return Err(DuplicateTaskError);
        }
        if self.slots.has_capacity() {
            self.execute_task(task);
            Ok(AdmissionOutcome::Started)
        } else {
            self.task_queue.push(task);
            proof {
                let pre = old(self).queued();
                let post = self.queued();
                assert forall|i: int, j: int| 0 <= i < j < post.len() implies #[trigger] post[i].id@
                    != #[trigger] post[j].id@ by {
                    if j == post.len() - 1 {
                        assert(post[i] == pre[i]);
                    }
                }
                assert forall|i: int, j: int|
                    0 <= i < self.running().len() && 0 <= j < post.len() implies #[trigger] self
                    .running()[i].id@ != #[trigger] post[j].id@ by {
                    if j < post.len() - 1 {
                        assert(post[j] == pre[j]);
                    }
                }
                assert forall|i: int| 0 <= i < post.len() implies is_fresh(#[trigger] post[i]) by {
                    if i < post.len() - 1 {
                        assert(post[i] == pre[i]);
                    }
                }
            }
            Ok(AdmissionOutcome::Queued)
        }
    }

    /// Records the completion of the running task bearing `task_id`: removes
    /// it, frees its slot, attaches `result`, and at once promotes the next
    /// waiting task, if any, into the freed slot. Returns the completed
    /// record; an id not in the running set is a benign no-op, not an error.
    pub fn complete_task(&mut self, task_id: &str, result: serde_json::Value) -> (r: Option<Task>)
        requires
            old(self).wf(),
        ensures
            final(self).wf(),
            complete_transition(*old(self), *final(self), task_id@, result, r),
    {
        let found = find_by_id(&self.active_tasks, task_id);
        match found {
            None => None,
            Some(i) => {
                proof {
                    let pre = old(self).running();
                    assert(0 <= (i as int) < pre.len() && pre[i as int].id@ == task_id@);
                    let k = index_of_id(pre, task_id@);
                    assert(0 <= k < pre.len() && pre[k].id@ == task_id@);
                    if k != i as int {
                        assert(false);
                    }
                    pre.remove_ensures(i as int);
                }
                let mut t = self.active_tasks.remove(i);
                t.status = TaskStatus::Completed;
                t.result = Some(result);
                let released = self.slots.release();
                proof {
                    assert(released is Ok);
                    self.lemma_wf_after_removal(*old(self), i as int, task_id@);
                }
                match self.task_queue.pop_next() {
                    Some(next) => {
                        proof {
                            let mid = *self;
                            let preq = old(self).queued();
                            assert(next == preq.last());
                            assert forall|j: int| 0 <= j < mid.running().len() implies #[trigger] mid
                                .running()[j].id@ != next.id@ by {}
                            assert forall|j: int| 0 <= j < mid.queued().len() implies #[trigger] mid
                                .queued()[j].id@ != next.id@ by {
                                assert(mid.queued()[j] == preq[j]);
                                assert(preq[j].id@ != preq[preq.len() - 1].id@);
                            }
                        }
                        self.execute_task(next);
                    },
                    None => {},
                }
                proof {
                    let pre = *old(self);
                    let post = *self;
                    let removed = pre.running().remove(i as int);
                    assert forall|j: int| 0 <= j < post.running().len() implies #[trigger] post
                        .running()[j].id@ != task_id@ by {
                        if pre.queued().len() > 0 && j == post.running().len() - 1 {
                            assert(runs_as(post.running()[j], pre.queued().last()));
                        } else {
                            assert(post.running()[j] == removed[j]);
                        }
                    }
                    assert forall|j: int| 0 <= j < post.queued().len() implies #[trigger] post
                        .queued()[j].id@ != task_id@ by {
                        assert(post.queued()[j] == pre.queued()[j]);
                    }
                    assert(!has_id(post.running(), task_id@));
                    assert(!has_id(post.queued(), task_id@));
                }
                Some(t)
            },
        }
    }

    /// After removing index `i` (bearing `id`) from the running set and
    /// releasing its slot, the scheduler is well-formed again and no running
    /// task bears `id` any more.
    proof fn lemma_wf_after_removal(self, pre: Self, i: int, id: Seq<char>)
        requires
            pre.wf(),
            0 <= i < pre.running().len(),
            pre.running()[i].id@ == id,
            self.running() == pre.running().remove(i),
            self.queued() == pre.queued(),
            self.capacity() == pre.capacity(),
            self.occupied() == pre.occupied() - 1,
        ensures
            self.wf(),
            forall|j: int|
                0 <= j < self.running().len() ==> #[trigger] self.running()[j].id@ != id,
    {
        let post = self.running();
        pre.running().remove_ensures(i);
        assert forall|p: int, q: int| 0 <= p < q < post.len() implies #[trigger] post[p].id@
            != #[trigger] post[q].id@ by {}
        assert forall|p: int, q: int|
            0 <= p < post.len() && 0 <= q < self.queued().len() implies #[trigger] post[p].id@
            != #[trigger] self.queued()[q].id@ by {}
        assert forall|p: int| 0 <= p < post.len() implies is_running(#[trigger] post[p]) by {}
        assert forall|p: int| 0 <= p < post.len() implies #[trigger] post[p].id@ != id by {
            if p < i {
                assert(post[p] == pre.running()[p]);
                assert(pre.running()[p].id@ != pre.running()[i].id@);
            } else {
                assert(post[p] == pre.running()[p + 1]);
                assert(pre.running()[i].id@ != pre.running()[p + 1].id@);
            }
        }
    }

    /// A view of the running tasks; the order carries no meaning.
    pub fn get_active_tasks(&self) -> (r: Vec<&Task>)
        ensures
            r@.len() == self.running().len(),
            forall|i: int| 0 <= i < r@.len() ==> *(#[trigger] r@[i]) == self.running()[i],
    {
        let mut out: Vec<&Task> = Vec::new();
        let mut i: usize = 0;
        while i < self.active_tasks.len()
            invariant
                i <= self.active_tasks@.len(),
                out@.len() == i,
                forall|j: int| 0 <= j < i ==> *(#[trigger] out@[j]) == self.active_tasks@[j],
            decreases self.active_tasks@.len() - i,
        {
            out.push(&self.active_tasks[i]);
            i = i + 1;
        }
        out
    }

    /// The waiting tasks, in queue order.
    pub fn get_task_queue(&self) -> (r: &Vec<Task>)
        ensures
            r@ == self.queued(),
    {
        self.task_queue.tasks()
    }

    /// The size of the running set.
    pub fn get_active_count(&self) -> (n: usize)
        ensures
            n == self.running().len(),
    {
        self.active_tasks.len()
    }
}

/// What `add_task` does: a tracked id is rejected and nothing changes; with
/// a free slot the task starts at once, appended to the running set; with
/// none it is appended to the waiting queue unchanged.
pub open spec fn submit_transition(
    pre: TaskManager,
    post: TaskManager,
    task: Task,
    r: Result<AdmissionOutcome, DuplicateTaskError>,
) -> bool {
    &&& post.capacity() == pre.capacity()
    &&& if pre.knows(task.id@) {
        &&& r == Err::<AdmissionOutcome, DuplicateTaskError>(DuplicateTaskError)
        &&& post == pre
    } else if pre.running().len() < pre.capacity() {
        &&& r == Ok::<AdmissionOutcome, DuplicateTaskError>(AdmissionOutcome::Started)
        &&& post.queued() == pre.queued()
        &&& post.running().len() == pre.running().len() + 1
        &&& post.running().drop_last() == pre.running()
        &&& runs_as(post.running().last(), task)
    } else {
        &&& r == Ok::<AdmissionOutcome, DuplicateTaskError>(AdmissionOutcome::Queued)
        &&& post.running() == pre.running()
        &&& post.queued() == pre.queued().push(task)
    }
}

/// What `complete_task` does: an id not in the running set is a no-op that
/// returns nothing; otherwise the task leaves the scheduler for good, comes
/// back completed with the result attached, and the most recently queued
/// task, if any, is promoted into the freed slot.
pub open spec fn complete_transition(
    pre: TaskManager,
    post: TaskManager,
    id: Seq<char>,
    result: serde_json::Value,
    r: Option<Task>,
) -> bool {
    &&& post.capacity() == pre.capacity()
    &&& if !has_id(pre.running(), id) {
        &&& r is None
        &&& post == pre
    } else {
        let i = index_of_id(pre.running(), id);
        &&& r == Some(completed_of(pre.running()[i], result))
        &&& !post.knows(id)
        &&& if pre.queued().len() == 0 {
            &&& post.running() == pre.running().remove(i)
            &&& post.queued() == pre.queued()
        } else {
            &&& post.queued() == pre.queued().drop_last()
            &&& post.running().len() == pre.running().len()
            &&& post.running().drop_last() == pre.running().remove(i)
            &&& runs_as(post.running().last(), pre.queued().last())
        }
    }
}

/// The capacity invariant: a well-formed scheduler never has more running
/// tasks than its cap. `with_capacity` establishes well-formedness and
/// every operation preserves it, so this bound holds after any sequence of
/// `add_task` and `complete_task` calls.
pub proof fn lemma_capacity_invariant(m: TaskManager)
    requires
        m.wf(),
    ensures
        m.running().len() <= m.capacity(),
{
}

/// No loss, no duplication: a tracked id stands in the running set or in
/// the waiting queue, never in both.
pub proof fn lemma_tracked_in_one_place(m: TaskManager, id: Seq<char>)
    requires
        m.wf(),
    ensures
        !(has_id(m.running(), id) && has_id(m.queued(), id)),
{
    if has_id(m.running(), id) && has_id(m.queued(), id) {
        let i = index_of_id(m.running(), id);
        let j = index_of_id(m.queued(), id);
        assert(m.running()[i].id@ != m.queued()[j].id@);
    }
}

/// No loss on admission: after a successful `add_task`, the task's id is
/// tracked — it stands in the running set or in the waiting queue.
pub proof fn lemma_admission_tracks_task(
    pre: TaskManager,
    post: TaskManager,
    task: Task,
    r: Result<AdmissionOutcome, DuplicateTaskError>,
)
    requires
        pre.wf(),
        submit_transition(pre, post, task, r),
        r is Ok,
    ensures
        post.knows(task.id@),
{
    if !pre.knows(task.id@) {
        if pre.running().len() < pre.capacity() {
            let i = post.running().len() - 1;
            assert(post.running()[i].id@ == task.id@);
        } else {
            let i = post.queued().len() - 1;
            assert(post.queued()[i].id@ == task.id@);
        }
    }
}

/// Promotion correctness: with the running set full and work waiting, a
/// completion refills the freed slot at once — the running count returns
/// to the cap, the promoted task is the most recently queued one and is
/// `Running`, and the queue shrinks by exactly one.
pub proof fn lemma_promotion_fills_freed_slot(
    pre: TaskManager,
    post: TaskManager,
    id: Seq<char>,
    result: serde_json::Value,
    r: Option<Task>,
)
    requires
        pre.wf(),
        pre.running().len() == pre.capacity(),
        pre.queued().len() > 0,
        has_id(pre.running(), id),
        complete_transition(pre, post, id, result, r),
    ensures
        post.running().len() == pre.capacity(),
        runs_as(post.running().last(), pre.queued().last()),
        post.queued().len() == pre.queued().len() - 1,
{
}

/// Idempotent completion: completing the same id twice returns the record
/// the first time and `None` the second time, and the second call changes
/// nothing — in particular the running count is unaffected.
pub proof fn lemma_complete_idempotent(
    pre: TaskManager,
    mid: TaskManager,
    post: TaskManager,
    id: Seq<char>,
    result1: serde_json::Value,
    result2: serde_json::Value,
    r1: Option<Task>,
    r2: Option<Task>,
)
    requires
        pre.wf(),
        has_id(pre.running(), id),
        complete_transition(pre, mid, id, result1, r1),
        complete_transition(mid, post, id, result2, r2),
    ensures
        r1 is Some,
        r2 is None,
        post == mid,
{
}

} // verus!
