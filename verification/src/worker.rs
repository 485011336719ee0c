//! The worker: a poll/execute/report loop, and the progress reporter that
//! decouples model execution from network reporting.
//!
//! The loop is given here as a pure transition function from a phase and
//! an observed event to the next phase and the action to perform; the
//! surrounding process performs the action (poll, sleep, run the model,
//! report) and feeds the outcome back in. The reporter is a first-in
//! first-out queue of progress events; draining it issues one status
//! update per event in arrival order, stopping at the `Finished` sentinel,
//! so steps reach the store in the order the model produced them.

use vstd::prelude::*;
use crate::protocol::{TaskStatusUpdate, UpdateTaskStatusRequest};
use crate::task::Task;

verus! {

/// Seconds a worker sleeps after an empty poll before retrying.
pub const POLL_BACKOFF_SECONDS: u64 = 10;

/// A step event the model emits while executing, or the sentinel that
/// execution ended.
#[derive(Clone, Copy, Debug, PartialEq, Eq, Structural)]
pub enum ProgressEvent {
    InProgress { current_step: u32, total_steps: u32 },
    Finished,
}

/// The phase of the worker loop.
pub enum WorkerPhase {
    /// Between tasks.
    Idle,
    /// A claim request is outstanding.
    Polling,
    /// The model is running the claimed task.
    Executing { task_id: u64 },
    /// The terminal report for the task is outstanding.
    Reporting { task_id: u64 },
}

/// What the worker observes.
pub enum WorkerEvent {
    /// The loop is ready for its next turn.
    Tick,
    /// A poll came back empty.
    PollEmpty,
    /// A poll claimed a task.
    PollTask(Task),
    /// The model reported a step.
    ModelProgress { current_step: u32, total_steps: u32 },
    /// The model returned the final payload.
    ModelFinished { image: Vec<u8> },
    /// The terminal report was acknowledged.
    ReportAck,
}

/// What the worker does next.
pub enum WorkerAction {
    /// Call the claim endpoint.
    Poll,
    /// Back off before polling again.
    Sleep { seconds: u64 },
    /// Hand the prompt to the model collaborator.
    RunModel { task_id: u64, prompt: String },
    /// Report a step update for the task.
    ReportProgress { task_id: u64, current_step: u32, total_steps: u32 },
    /// Report the terminal result for the task.
    ReportFinished { task_id: u64, image: Vec<u8> },
    /// Nothing; wait for the next event.
    Wait,
}

/// The worker loop's transition table: one task at a time, `Idle` to
/// `Polling` to `Executing` to `Reporting` and back to `Idle`. An event
/// that does not belong to the current phase changes nothing.
pub open spec fn spec_worker_step(phase: WorkerPhase, event: WorkerEvent) -> (
    WorkerPhase,
    WorkerAction,
) {
    match (phase, event) {
        (WorkerPhase::Idle, WorkerEvent::Tick) => (WorkerPhase::Polling, WorkerAction::Poll),
        (WorkerPhase::Polling, WorkerEvent::PollEmpty) => (
            WorkerPhase::Idle,
            WorkerAction::Sleep { seconds: POLL_BACKOFF_SECONDS },
        ),
        (WorkerPhase::Polling, WorkerEvent::PollTask(task)) => (
            WorkerPhase::Executing { task_id: task.id },
            WorkerAction::RunModel { task_id: task.id, prompt: task.prompt },
        ),
        (
            WorkerPhase::Executing { task_id },
            WorkerEvent::ModelProgress { current_step, total_steps },
        ) => (
            WorkerPhase::Executing { task_id },
            WorkerAction::ReportProgress { task_id, current_step, total_steps },
        ),
        (WorkerPhase::Executing { task_id }, WorkerEvent::ModelFinished { image }) => (
            WorkerPhase::Reporting { task_id },
            WorkerAction::ReportFinished { task_id, image },
        ),
        (WorkerPhase::Reporting { task_id: _ }, WorkerEvent::ReportAck) => (
            WorkerPhase::Idle,
            WorkerAction::Wait,
        ),
        (p, _) => (p, WorkerAction::Wait),
    }
}

/// One turn of the worker loop.
pub fn worker_step(phase: WorkerPhase, event: WorkerEvent) -> (r: (WorkerPhase, WorkerAction))
    ensures
        r == spec_worker_step(phase, event),
{
    match (phase, event) {
        (WorkerPhase::Idle, WorkerEvent::Tick) => (WorkerPhase::Polling, WorkerAction::Poll),
        (WorkerPhase::Polling, WorkerEvent::PollEmpty) => (
            WorkerPhase::Idle,
            WorkerAction::Sleep { seconds: POLL_BACKOFF_SECONDS },
        ),
        (WorkerPhase::Polling, WorkerEvent::PollTask(task)) => (
            WorkerPhase::Executing { task_id: task.id },
            WorkerAction::RunModel { task_id: task.id, prompt: task.prompt },
        ),
        (
            WorkerPhase::Executing { task_id },
            WorkerEvent::ModelProgress { current_step, total_steps },
        ) => (
            WorkerPhase::Executing { task_id },
            WorkerAction::ReportProgress { task_id, current_step, total_steps },
        ),
        (WorkerPhase::Executing { task_id }, WorkerEvent::ModelFinished { image }) => (
            WorkerPhase::Reporting { task_id },
            WorkerAction::ReportFinished { task_id, image },
        ),
        (WorkerPhase::Reporting { task_id: _ }, WorkerEvent::ReportAck) => (
            WorkerPhase::Idle,
            WorkerAction::Wait,
        ),
        (p, _) => (p, WorkerAction::Wait),
    }
}

/// The internal queue between model execution and network reporting:
/// first in, first out.
pub struct ProgressQueue {
    events: Vec<ProgressEvent>,
}

impl View for ProgressQueue {
    type V = Seq<ProgressEvent>;

    closed spec fn view(&self) -> Seq<ProgressEvent> {
        self.events@
    }
}

impl ProgressQueue {
    /// An empty queue.
    pub fn new() -> (r: Self)
        ensures
            r@ == Seq::<ProgressEvent>::empty(),
    {
        let r = ProgressQueue { events: Vec::new() };
        proof {
            assert(r@ =~= Seq::<ProgressEvent>::empty());
        }
        r
    }

    /// The model side: appends an event.
    pub fn push(&mut self, event: ProgressEvent)
        ensures
            final(self)@ == old(self)@.push(event),
    {
        self.events.push(event);
    }

    /// The reporting side: removes and returns the oldest event.
    pub fn pop(&mut self) -> (r: Option<ProgressEvent>)
        ensures
            old(self)@.len() == 0 ==> r is None && final(self)@ == old(self)@,
            old(self)@.len() > 0 ==> r == Some(old(self)@[0]) && final(self)@ == old(
                self,
            )@.drop_first(),
    {
        if self.events.len() == 0 {
            return None;
        }
        let e = self.events.remove(0);
        proof {
            assert(self.events@ =~= old(self)@.drop_first());
        }
        Some(e)
    }

    pub fn len(&self) -> (r: usize)
        ensures
            r == self@.len(),
    {
        self.events.len()
    }
}

/// The step counter an event carries.
pub open spec fn event_step(e: ProgressEvent) -> u32 {
    match e {
        ProgressEvent::InProgress { current_step, total_steps: _ } => current_step,
        ProgressEvent::Finished => 0,
    }
}

/// The step counter an update request carries.
pub open spec fn update_step(u: UpdateTaskStatusRequest) -> u32 {
    match u.task_status {
        TaskStatusUpdate::InProgress { current_step, total_steps: _ } => current_step,
        TaskStatusUpdate::Finished { image: _ } => 0,
    }
}

/// The status updates a drain issues for task `id`: one `InProgress`
/// update per event, in arrival order, up to the first `Finished`
/// sentinel.
pub open spec fn spec_updates(events: Seq<ProgressEvent>, id: u64) -> Seq<UpdateTaskStatusRequest>
    decreases events.len(),
{
    if events.len() == 0 {
        Seq::empty()
    } else {
        match events[0] {
            ProgressEvent::Finished => Seq::empty(),
            ProgressEvent::InProgress { current_step, total_steps } => seq![
                UpdateTaskStatusRequest {
                    id,
                    task_status: TaskStatusUpdate::InProgress { current_step, total_steps },
                },
            ] + spec_updates(events.drop_first(), id),
        }
    }
}

/// What a drain leaves in the queue: the events after the first
/// `Finished` sentinel, or nothing.
pub open spec fn spec_undrained(events: Seq<ProgressEvent>) -> Seq<ProgressEvent>
    decreases events.len(),
{
    if events.len() == 0 {
        Seq::empty()
    } else {
        match events[0] {
            ProgressEvent::Finished => events.drop_first(),
            ProgressEvent::InProgress { .. } => spec_undrained(events.drop_first()),
        }
    }
}

/// Drains the reporter queue for task `id` into the status updates to
/// send, in arrival order; stops at the first `Finished` sentinel.
pub fn drain_updates(queue: &mut ProgressQueue, id: u64) -> (r: Vec<UpdateTaskStatusRequest>)
    ensures
        r@ == spec_updates(old(queue)@, id),
        final(queue)@ == spec_undrained(old(queue)@),
{
    let mut out: Vec<UpdateTaskStatusRequest> = Vec::new();
    loop
        invariant
            spec_updates(old(queue)@, id) == out@ + spec_updates(queue@, id),
            spec_undrained(old(queue)@) == spec_undrained(queue@),
        decreases queue@.len(),
    {
        let ghost before = queue@;
        match queue.pop() {
            None => {
                proof {
                    assert(out@ + spec_updates(queue@, id) =~= out@);
                }
                return out;
            },
            Some(ProgressEvent::Finished) => {
                proof {
                    assert(spec_updates(before, id) =~= Seq::<UpdateTaskStatusRequest>::empty());
                    assert(out@ + spec_updates(before, id) =~= out@);
                    assert(spec_undrained(before) == before.drop_first());
                }
                return out;
            },
            Some(ProgressEvent::InProgress { current_step, total_steps }) => {
                let update = UpdateTaskStatusRequest {
                    id,
                    task_status: TaskStatusUpdate::InProgress { current_step, total_steps },
                };
                proof {
                    let u = UpdateTaskStatusRequest {
                        id,
                        task_status: TaskStatusUpdate::InProgress { current_step, total_steps },
                    };
                    assert(spec_updates(before, id) == seq![u] + spec_updates(
                        before.drop_first(),
                        id,
                    ));
                    assert(out@ + spec_updates(before, id) =~= out@.push(u) + spec_updates(
                        before.drop_first(),
                        id,
                    ));
                }
                out.push(update);
            },
        }
    }
}

/// Step counters that never decrease across the `InProgress` events of a
/// sequence.
pub open spec fn events_monotone(events: Seq<ProgressEvent>) -> bool {
    forall|i: int, j: int|
        0 <= i <= j < events.len() && (#[trigger] events[i]) is InProgress && (
        #[trigger] events[j]) is InProgress ==> event_step(events[i]) <= event_step(events[j])
}

/// Step counters that never decrease across a sequence of updates.
pub open spec fn updates_monotone(updates: Seq<UpdateTaskStatusRequest>) -> bool {
    forall|i: int, j: int|
        0 <= i <= j < updates.len() ==> update_step(#[trigger] updates[i]) <= update_step(
            #[trigger] updates[j],
        )
}

proof fn lemma_updates_lower_bound(events: Seq<ProgressEvent>, id: u64, bound: u32)
    requires
        forall|i: int|
            0 <= i < events.len() && (#[trigger] events[i]) is InProgress ==> bound <= event_step(
                events[i],
            ),
    ensures
        forall|k: int|
            0 <= k < spec_updates(events, id).len() ==> bound <= update_step(
                #[trigger] spec_updates(events, id)[k],
            ),
    decreases events.len(),
{
    if events.len() == 0 {
    } else {
        match events[0] {
            ProgressEvent::Finished => {},
            ProgressEvent::InProgress { current_step, total_steps } => {
                let rest = events.drop_first();
                assert forall|i: int|
                    0 <= i < rest.len() && (#[trigger] rest[i]) is InProgress implies bound
                    <= event_step(rest[i]) by {
                    assert(rest[i] == events[i + 1]);
                }
                lemma_updates_lower_bound(rest, id, bound);
                assert forall|k: int|
                    0 <= k < spec_updates(events, id).len() implies bound <= update_step(
                    #[trigger] spec_updates(events, id)[k]) by {
                    if k == 0 {
                        assert(events[0] is InProgress);
                    } else {
                        assert(spec_updates(events, id)[k] == spec_updates(rest, id)[k - 1]);
                    }
                }
            },
        }
    }
}

/// Ordered progress reporting. Draining the reporter queue preserves the
/// model's arrival order, so if the model's step counters never decrease,
/// neither do those of the updates issued to the store; every update
/// targets the drained task and is an `InProgress` update.
pub proof fn lemma_drain_monotone(events: Seq<ProgressEvent>, id: u64)
    requires
        events_monotone(events),
    ensures
        updates_monotone(spec_updates(events, id)),
        forall|k: int|
            0 <= k < spec_updates(events, id).len() ==> (#[trigger] spec_updates(events, id)[k]).id
                == id && spec_updates(events, id)[k].task_status is InProgress,
    decreases events.len(),
{
    if events.len() == 0 {
    } else {
        match events[0] {
            ProgressEvent::Finished => {},
            ProgressEvent::InProgress { current_step, total_steps } => {
                let rest = events.drop_first();
                assert forall|i: int, j: int|
                    0 <= i <= j < rest.len() && (#[trigger] rest[i]) is InProgress && (
                    #[trigger] rest[j]) is InProgress implies event_step(rest[i]) <= event_step(
                    rest[j]) by {
                    assert(rest[i] == events[i + 1]);
                    assert(rest[j] == events[j + 1]);
                }
                lemma_drain_monotone(rest, id);
                assert forall|i: int|
                    0 <= i < rest.len() && (#[trigger] rest[i]) is InProgress implies current_step
                    <= event_step(rest[i]) by {
                    assert(rest[i] == events[i + 1]);
                    assert(events[0] is InProgress);
                }
                lemma_updates_lower_bound(rest, id, current_step);
                let u = spec_updates(events, id);
                let ru = spec_updates(rest, id);
                assert forall|i: int, j: int| 0 <= i <= j < u.len() implies update_step(
                    #[trigger] u[i]) <= update_step(#[trigger] u[j]) by {
                    if i == 0 {
                        if j > 0 {
                            assert(u[j] == ru[j - 1]);
                        }
                    } else {
                        assert(u[i] == ru[i - 1]);
                        assert(u[j] == ru[j - 1]);
                    }
                }
                assert forall|k: int| 0 <= k < u.len() implies (#[trigger] u[k]).id == id
                    && u[k].task_status is InProgress by {
                    if k > 0 {
                        assert(u[k] == ru[k - 1]);
                    }
                }
            },
        }
    }
}

} // verus!
