use sandbox_core::store::{StoreError, TaskStore};
use sandbox_core::task::TaskStatus;

#[test]
fn round_trip_create_get() {
    let mut store = TaskStore::new();
    let id = store.create_task(None, "a cat".to_owned());
    let task = store.get_task(id).unwrap();
    assert_eq!(task.id, id);
    assert_eq!(task.prompt, "a cat");
    assert!(matches!(task.status, TaskStatus::New));
    assert!(task.owner.is_none());
}

#[test]
fn claim_on_empty_store_returns_none() {
    let mut store = TaskStore::new();
    assert!(store.claim_next_task().is_none());
}

#[test]
fn claim_is_oldest_first() {
    let mut store = TaskStore::new();
    let first = store.create_task(None, "first".to_owned());
    let second = store.create_task(None, "second".to_owned());
    let t = store.claim_next_task().unwrap();
    assert_eq!(t.id, first);
    assert_eq!(t.prompt, "first");
    let t = store.claim_next_task().unwrap();
    assert_eq!(t.id, second);
}

#[test]
fn claims_are_exclusive_and_drain_the_queue() {
    let mut store = TaskStore::new();
    let n_tasks = 3;
    for i in 0..n_tasks {
        store.create_task(None, format!("task {}", i));
    }
    // More pollers than tasks: five claim attempts against three tasks.
    let mut claimed_ids = Vec::new();
    for _ in 0..5 {
        if let Some(task) = store.claim_next_task() {
            claimed_ids.push(task.id);
        }
    }
    // Exactly one claim per task, none claimed twice, and the claimed
    // identifiers are exactly those that were waiting.
    assert_eq!(claimed_ids.len(), n_tasks);
    for i in 0..claimed_ids.len() {
        for j in 0..i {
            assert_ne!(claimed_ids[i], claimed_ids[j]);
        }
    }
    claimed_ids.sort();
    assert_eq!(claimed_ids, vec![0, 1, 2]);
}

#[test]
fn claimed_task_starts_at_step_zero() {
    let mut store = TaskStore::new();
    store.create_task(None, "p".to_owned());
    let t = store.claim_next_task().unwrap();
    match t.status {
        TaskStatus::InProgress { current_step, total_steps } => {
            assert_eq!(current_step, 0);
            assert_eq!(total_steps, 0);
        }
        _ => panic!("claimed task must be in progress"),
    }
}

#[test]
fn report_progress_updates_in_place() {
    let mut store = TaskStore::new();
    let id = store.create_task(None, "p".to_owned());
    store.claim_next_task().unwrap();
    store.report_progress(id, 5, 20).unwrap();
    let task = store.get_task(id).unwrap();
    match task.status {
        TaskStatus::InProgress { current_step, total_steps } => {
            assert_eq!(current_step, 5);
            assert_eq!(total_steps, 20);
        }
        _ => panic!("expected in-progress status"),
    }
}

#[test]
fn report_progress_unknown_task_is_not_found() {
    let mut store = TaskStore::new();
    assert_eq!(store.report_progress(42, 1, 2), Err(StoreError::NotFound));
}

#[test]
fn report_progress_after_terminal_is_invalid_transition() {
    let mut store = TaskStore::new();
    let id = store.create_task(None, "p".to_owned());
    store.report_finished(id, vec![1, 2, 3]).unwrap();
    assert_eq!(store.report_progress(id, 9, 9), Err(StoreError::InvalidTransition));
    // The failed update must not have disturbed the terminal state.
    match store.get_task(id).unwrap().status {
        TaskStatus::Finished { result } => assert_eq!(result, vec![1, 2, 3]),
        _ => panic!("expected finished status"),
    }
}

#[test]
fn report_finished_is_idempotent_for_identical_payload() {
    let mut store = TaskStore::new();
    let id = store.create_task(None, "p".to_owned());
    assert!(store.report_finished(id, vec![9, 9, 9]).is_ok());
    assert!(store.report_finished(id, vec![9, 9, 9]).is_ok());
    match store.get_task(id).unwrap().status {
        TaskStatus::Finished { result } => assert_eq!(result, vec![9, 9, 9]),
        _ => panic!("expected finished status"),
    }
}

#[test]
fn report_finished_rejects_differing_payload() {
    let mut store = TaskStore::new();
    let id = store.create_task(None, "p".to_owned());
    assert!(store.report_finished(id, vec![9, 9, 9]).is_ok());
    assert_eq!(store.report_finished(id, vec![8]), Err(StoreError::InvalidTransition));
    match store.get_task(id).unwrap().status {
        TaskStatus::Finished { result } => assert_eq!(result, vec![9, 9, 9]),
        _ => panic!("expected finished status"),
    }
}

#[test]
fn report_finished_unknown_task_is_not_found() {
    let mut store = TaskStore::new();
    assert_eq!(store.report_finished(7, vec![]), Err(StoreError::NotFound));
}

#[test]
fn get_task_unknown_id_is_not_found() {
    let store = TaskStore::new();
    assert!(matches!(store.get_task(0), Err(StoreError::NotFound)));
}

#[test]
fn list_tasks_for_owner_filters_by_owner() {
    let mut store = TaskStore::new();
    let a1 = store.create_task(Some("alice".to_owned()), "one".to_owned());
    store.create_task(Some("bob".to_owned()), "two".to_owned());
    let a2 = store.create_task(Some("alice".to_owned()), "three".to_owned());
    store.create_task(None, "four".to_owned());
    let alices = store.list_tasks_for_owner(&"alice".to_owned());
    assert_eq!(alices.len(), 2);
    assert_eq!(alices[0].id, a1);
    assert_eq!(alices[0].prompt, "one");
    assert_eq!(alices[1].id, a2);
    assert_eq!(alices[1].prompt, "three");
    let carols = store.list_tasks_for_owner(&"carol".to_owned());
    assert!(carols.is_empty());
}
