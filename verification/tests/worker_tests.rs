use sandbox_core::protocol::TaskStatusUpdate;
use sandbox_core::store::TaskStore;
use sandbox_core::worker::{
    POLL_BACKOFF_SECONDS, ProgressEvent, ProgressQueue, WorkerAction, WorkerEvent, WorkerPhase,
    drain_updates, worker_step,
};

#[test]
fn idle_tick_polls() {
    let (phase, action) = worker_step(WorkerPhase::Idle, WorkerEvent::Tick);
    assert!(matches!(phase, WorkerPhase::Polling));
    assert!(matches!(action, WorkerAction::Poll));
}

#[test]
fn empty_poll_sleeps_and_goes_idle() {
    let (phase, action) = worker_step(WorkerPhase::Polling, WorkerEvent::PollEmpty);
    assert!(matches!(phase, WorkerPhase::Idle));
    match action {
        WorkerAction::Sleep { seconds } => assert_eq!(seconds, POLL_BACKOFF_SECONDS),
        _ => panic!("expected a sleep"),
    }
}

#[test]
fn claimed_task_starts_the_model() {
    let mut store = TaskStore::new();
    store.create_task(None, "cute cat".to_owned());
    let task = store.claim_next_task().unwrap();
    let task_id = task.id;
    let (phase, action) = worker_step(WorkerPhase::Polling, WorkerEvent::PollTask(task));
    match phase {
        WorkerPhase::Executing { task_id: t } => assert_eq!(t, task_id),
        _ => panic!("expected executing phase"),
    }
    match action {
        WorkerAction::RunModel { task_id: t, prompt } => {
            assert_eq!(t, task_id);
            assert_eq!(prompt, "cute cat");
        }
        _ => panic!("expected a model run"),
    }
}

#[test]
fn model_progress_is_reported_and_execution_continues() {
    let (phase, action) = worker_step(
        WorkerPhase::Executing { task_id: 7 },
        WorkerEvent::ModelProgress { current_step: 3, total_steps: 20 },
    );
    assert!(matches!(phase, WorkerPhase::Executing { task_id: 7 }));
    match action {
        WorkerAction::ReportProgress { task_id, current_step, total_steps } => {
            assert_eq!(task_id, 7);
            assert_eq!(current_step, 3);
            assert_eq!(total_steps, 20);
        }
        _ => panic!("expected a progress report"),
    }
}

#[test]
fn model_result_is_reported_exactly_once_then_idle() {
    let (phase, action) = worker_step(
        WorkerPhase::Executing { task_id: 7 },
        WorkerEvent::ModelFinished { image: vec![1, 2] },
    );
    assert!(matches!(phase, WorkerPhase::Reporting { task_id: 7 }));
    match action {
        WorkerAction::ReportFinished { task_id, image } => {
            assert_eq!(task_id, 7);
            assert_eq!(image, vec![1, 2]);
        }
        _ => panic!("expected a terminal report"),
    }
    let (phase, action) = worker_step(phase, WorkerEvent::ReportAck);
    assert!(matches!(phase, WorkerPhase::Idle));
    assert!(matches!(action, WorkerAction::Wait));
}

#[test]
fn out_of_phase_events_change_nothing() {
    let (phase, action) = worker_step(WorkerPhase::Idle, WorkerEvent::PollEmpty);
    assert!(matches!(phase, WorkerPhase::Idle));
    assert!(matches!(action, WorkerAction::Wait));
    let (phase, action) = worker_step(
        WorkerPhase::Polling,
        WorkerEvent::ModelProgress { current_step: 1, total_steps: 2 },
    );
    assert!(matches!(phase, WorkerPhase::Polling));
    assert!(matches!(action, WorkerAction::Wait));
}

#[test]
fn progress_queue_is_first_in_first_out() {
    let mut queue = ProgressQueue::new();
    assert!(queue.pop().is_none());
    queue.push(ProgressEvent::InProgress { current_step: 1, total_steps: 3 });
    queue.push(ProgressEvent::InProgress { current_step: 2, total_steps: 3 });
    queue.push(ProgressEvent::Finished);
    assert_eq!(queue.len(), 3);
    assert_eq!(queue.pop(), Some(ProgressEvent::InProgress { current_step: 1, total_steps: 3 }));
    assert_eq!(queue.pop(), Some(ProgressEvent::InProgress { current_step: 2, total_steps: 3 }));
    assert_eq!(queue.pop(), Some(ProgressEvent::Finished));
    assert_eq!(queue.pop(), None);
}

#[test]
fn drain_translates_in_arrival_order_until_the_sentinel() {
    let mut queue = ProgressQueue::new();
    queue.push(ProgressEvent::InProgress { current_step: 5, total_steps: 20 });
    queue.push(ProgressEvent::InProgress { current_step: 20, total_steps: 20 });
    queue.push(ProgressEvent::Finished);
    queue.push(ProgressEvent::InProgress { current_step: 99, total_steps: 99 });
    let updates = drain_updates(&mut queue, 4);
    assert_eq!(updates.len(), 2);
    for (k, expected_step) in [(0usize, 5u32), (1usize, 20u32)] {
        assert_eq!(updates[k].id, 4);
        match updates[k].task_status {
            TaskStatusUpdate::InProgress { current_step, total_steps } => {
                assert_eq!(current_step, expected_step);
                assert_eq!(total_steps, 20);
            }
            _ => panic!("drained updates must be progress updates"),
        }
    }
    // Whatever followed the sentinel stays queued.
    assert_eq!(queue.len(), 1);
    assert_eq!(queue.pop(), Some(ProgressEvent::InProgress { current_step: 99, total_steps: 99 }));
}

#[test]
fn drain_of_monotone_events_reports_monotone_steps() {
    let mut queue = ProgressQueue::new();
    for step in [1u32, 1, 2, 5, 5, 9] {
        queue.push(ProgressEvent::InProgress { current_step: step, total_steps: 10 });
    }
    queue.push(ProgressEvent::Finished);
    let updates = drain_updates(&mut queue, 0);
    assert_eq!(updates.len(), 6);
    let mut last = 0u32;
    for update in &updates {
        match update.task_status {
            TaskStatusUpdate::InProgress { current_step, .. } => {
                assert!(current_step >= last);
                last = current_step;
            }
            _ => panic!("drained updates must be progress updates"),
        }
    }
}

#[test]
fn drain_without_sentinel_takes_everything() {
    let mut queue = ProgressQueue::new();
    queue.push(ProgressEvent::InProgress { current_step: 1, total_steps: 2 });
    queue.push(ProgressEvent::InProgress { current_step: 2, total_steps: 2 });
    let updates = drain_updates(&mut queue, 1);
    assert_eq!(updates.len(), 2);
    assert_eq!(queue.len(), 0);
}
