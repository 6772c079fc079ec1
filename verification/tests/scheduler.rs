use grid_agent::admission_queue::AdmissionQueue;
use grid_agent::slot_pool::SlotPool;
use grid_agent::task::{AdmissionOutcome, DuplicateTaskError, Task, TaskStatus, UnderflowError};
use grid_agent::task_manager::TaskManager;

fn fresh(id: &str, kind: &str) -> Task {
    Task {
        id: id.to_string(),
        task_type: kind.to_string(),
        status: TaskStatus::Queued,
        start_time: None,
        input_data: None,
        result: None,
    }
}

#[test]
fn two_slot_admission_scenario() {
    let mut m = TaskManager::with_capacity(2);
    assert_eq!(m.add_task(fresh("a", "w")), Ok(AdmissionOutcome::Started));
    assert_eq!(m.add_task(fresh("b", "w")), Ok(AdmissionOutcome::Started));
    assert_eq!(m.add_task(fresh("c", "w")), Ok(AdmissionOutcome::Queued));
    assert_eq!(m.add_task(fresh("d", "w")), Ok(AdmissionOutcome::Queued));
    assert_eq!(m.get_active_count(), 2);
    assert_eq!(m.get_task_queue().len(), 2);

    let done = m
        .complete_task("a", serde_json::Value::String("done".to_string()))
        .expect("a was running");
    assert_eq!(done.id, "a");
    assert_eq!(done.status, TaskStatus::Completed);

    // One freed slot, one promotion: the most recently queued task (LIFO).
    assert_eq!(m.get_active_count(), 2);
    let active = m.get_active_tasks();
    assert!(active.iter().any(|t| t.id == "d"));
    assert!(active.iter().all(|t| t.id != "a"));
    let queue = m.get_task_queue();
    assert_eq!(queue.len(), 1);
    assert_eq!(queue[0].id, "c");
    assert_eq!(queue[0].status, TaskStatus::Queued);
}

#[test]
fn single_slot_completion_scenario() {
    let mut m = TaskManager::with_capacity(1);
    assert_eq!(m.add_task(fresh("a", "w")), Ok(AdmissionOutcome::Started));
    let result = serde_json::Value::String("ok".to_string());
    let done = m.complete_task("a", result.clone()).expect("a was running");
    assert_eq!(done.id, "a");
    assert_eq!(done.result, Some(result));
    assert_eq!(m.get_active_count(), 0);
    assert!(m
        .complete_task("a", serde_json::Value::Null)
        .is_none());
}

#[test]
fn duplicate_submission_is_rejected() {
    let mut m = TaskManager::with_capacity(1);
    assert_eq!(m.add_task(fresh("a", "w")), Ok(AdmissionOutcome::Started));
    assert_eq!(m.add_task(fresh("b", "w")), Ok(AdmissionOutcome::Queued));

    // An id in the running set and one in the waiting queue are both refused,
    // and nothing changes.
    assert_eq!(m.add_task(fresh("a", "w")), Err(DuplicateTaskError));
    assert_eq!(m.add_task(fresh("b", "other")), Err(DuplicateTaskError));
    assert_eq!(m.get_active_count(), 1);
    assert_eq!(m.get_task_queue().len(), 1);
    assert_eq!(m.get_task_queue()[0].id, "b");
    assert_eq!(m.get_task_queue()[0].task_type, "w");
}

#[test]
fn capacity_is_never_exceeded() {
    let mut m = TaskManager::with_capacity(2);
    for i in 0..6 {
        let _ = m.add_task(fresh(&format!("t{}", i), "w"));
        assert!(m.get_active_count() <= 2);
    }
    assert_eq!(m.get_active_count(), 2);
    assert_eq!(m.get_task_queue().len(), 4);
    for i in 0..6 {
        let _ = m.complete_task(&format!("t{}", i), serde_json::Value::Null);
        assert!(m.get_active_count() <= 2);
    }
}

#[test]
fn completion_of_unknown_id_changes_nothing() {
    let mut m = TaskManager::with_capacity(2);
    assert_eq!(m.add_task(fresh("a", "w")), Ok(AdmissionOutcome::Started));
    assert!(m.complete_task("ghost", serde_json::Value::Null).is_none());
    assert_eq!(m.get_active_count(), 1);
    let active = m.get_active_tasks();
    assert_eq!(active.len(), 1);
    assert_eq!(active[0].id, "a");
}

#[test]
fn started_tasks_carry_a_start_time() {
    let mut m = TaskManager::with_capacity(1);
    let mut input_task = fresh("a", "render");
    input_task.input_data = Some(serde_json::Value::String("payload".to_string()));
    assert_eq!(m.add_task(input_task), Ok(AdmissionOutcome::Started));
    let active = m.get_active_tasks();
    assert_eq!(active.len(), 1);
    assert_eq!(active[0].status, TaskStatus::Running);
    assert!(active[0].start_time.is_some());
    assert_eq!(
        active[0].input_data,
        Some(serde_json::Value::String("payload".to_string()))
    );
    assert_eq!(active[0].result, None);
}

#[test]
fn default_capacity_is_three() {
    let mut m = TaskManager::new();
    for id in ["a", "b", "c", "d"] {
        let _ = m.add_task(fresh(id, "w"));
    }
    assert_eq!(m.get_active_count(), 3);
    assert_eq!(m.get_task_queue().len(), 1);
}

#[test]
fn admission_queue_pops_most_recent_first() {
    let mut q = AdmissionQueue::new();
    q.push(fresh("old", "w"));
    q.push(fresh("new", "w"));
    assert_eq!(q.len(), 2);
    assert_eq!(q.pop_next().expect("queue was not empty").id, "new");
    assert_eq!(q.pop_next().expect("queue was not empty").id, "old");
    assert!(q.pop_next().is_none());
}

#[test]
fn slot_pool_guards_both_bounds() {
    let mut pool = SlotPool::new(1);
    assert_eq!(pool.release(), Err(UnderflowError));
    assert!(pool.has_capacity());
    pool.occupy();
    assert!(!pool.has_capacity());
    assert_eq!(pool.release(), Ok(()));
    assert!(pool.has_capacity());
}
