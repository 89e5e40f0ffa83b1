//! The decisions of the worker's export loop. The worker waits on the export
//! queue and the shutdown queue at once; on the sentinel it closes the export
//! queue to new batches, drains what is left, and stops.
use vstd::prelude::*;

verus! {

/// Where the export loop stands.
#[derive(Clone, Copy, Debug, PartialEq, Eq, Structural)]
pub enum WorkerPhase {
    /// Waiting on both queues.
    Running,
    /// Taking the batches left in the closed export queue.
    Draining,
    /// Done: the worker returns.
    Stopped,
}

/// What the worker observed.
#[derive(Clone, Copy, Debug, PartialEq, Eq, Structural)]
pub enum WorkerEvent {
    /// A batch was taken from the export queue.
    BatchReceived,
    /// The shutdown sentinel was taken from the shutdown queue.
    ShutdownReceived,
    /// Both queues are closed and empty.
    QueuesClosed,
    /// While draining, the export queue turned out empty.
    DrainEmpty,
}

/// What the worker does next.
#[derive(Clone, Copy, Debug, PartialEq, Eq, Structural)]
pub enum WorkerAction {
    /// Send the batch just taken to the collector.
    ExportBatch,
    /// Close the export queue to new batches and start draining it.
    CloseAndDrain,
    /// Take the next batch of the closed queue.
    ContinueDrain,
    /// Return from the loop.
    Exit,
}

pub open spec fn spec_worker_step(phase: WorkerPhase, event: WorkerEvent) -> (
    WorkerPhase,
    WorkerAction,
) {
    match (phase, event) {
        (WorkerPhase::Running, WorkerEvent::BatchReceived) => {
            (WorkerPhase::Running, WorkerAction::ExportBatch)
        },
        (WorkerPhase::Running, WorkerEvent::ShutdownReceived) => {
            (WorkerPhase::Draining, WorkerAction::CloseAndDrain)
        },
        (WorkerPhase::Draining, WorkerEvent::BatchReceived) => {
            (WorkerPhase::Draining, WorkerAction::ExportBatch)
        },
        (WorkerPhase::Draining, WorkerEvent::ShutdownReceived) => {
            (WorkerPhase::Draining, WorkerAction::ContinueDrain)
        },
        _ => (WorkerPhase::Stopped, WorkerAction::Exit),
    }
}

/// One step of the export loop: every batch taken while running or draining
/// is exported; the sentinel turns running into draining; closed queues, or
/// an empty queue while draining, stop the loop, and a stopped loop stays
/// stopped.
pub fn worker_step(phase: WorkerPhase, event: WorkerEvent) -> (r: (WorkerPhase, WorkerAction))
    ensures
        r == spec_worker_step(phase, event),
{
    match (phase, event) {
        (WorkerPhase::Running, WorkerEvent::BatchReceived) => {
            (WorkerPhase::Running, WorkerAction::ExportBatch)
        },
        (WorkerPhase::Running, WorkerEvent::ShutdownReceived) => {
            (WorkerPhase::Draining, WorkerAction::CloseAndDrain)
        },
        (WorkerPhase::Draining, WorkerEvent::BatchReceived) => {
            (WorkerPhase::Draining, WorkerAction::ExportBatch)
        },
        (WorkerPhase::Draining, WorkerEvent::ShutdownReceived) => {
            (WorkerPhase::Draining, WorkerAction::ContinueDrain)
        },
        _ => (WorkerPhase::Stopped, WorkerAction::Exit),
    }
}

/// The phase after a sequence of events.
pub open spec fn phase_after(start: WorkerPhase, events: Seq<WorkerEvent>) -> WorkerPhase
    decreases events.len(),
{
    if events.len() == 0 {
        start
    } else {
        spec_worker_step(phase_after(start, events.drop_last()), events.last()).0
    }
}

/// The actions taken for a sequence of events, one per event.
pub open spec fn actions(start: WorkerPhase, events: Seq<WorkerEvent>) -> Seq<WorkerAction>
    decreases events.len(),
{
    if events.len() == 0 {
        Seq::empty()
    } else {
        actions(start, events.drop_last()).push(
            spec_worker_step(phase_after(start, events.drop_last()), events.last()).1,
        )
    }
}

proof fn lemma_actions_len(start: WorkerPhase, events: Seq<WorkerEvent>)
    ensures
        actions(start, events).len() == events.len(),
    decreases events.len(),
{
    if events.len() > 0 {
        lemma_actions_len(start, events.drop_last());
    }
}

proof fn lemma_action_at(start: WorkerPhase, events: Seq<WorkerEvent>, i: int)
    requires
        0 <= i < events.len(),
    ensures
        actions(start, events)[i] == spec_worker_step(
            phase_after(start, events.take(i)),
            events[i],
        ).1,
    decreases events.len(),
{
    lemma_actions_len(start, events.drop_last());
    if i < events.len() - 1 {
        lemma_action_at(start, events.drop_last(), i);
        assert(events.drop_last().take(i) =~= events.take(i));
    } else {
        assert(events.drop_last() =~= events.take(i));
    }
}

/// Once stopped, the loop stays stopped whatever it observes.
pub proof fn lemma_stopped_is_final(events: Seq<WorkerEvent>)
    ensures
        phase_after(WorkerPhase::Stopped, events) == WorkerPhase::Stopped,
    decreases events.len(),
{
    if events.len() > 0 {
        lemma_stopped_is_final(events.drop_last());
    }
}

/// Every batch the worker takes from the export queue before it stops,
/// whether before the sentinel or while draining, is exported.
pub proof fn lemma_taken_batches_are_exported(events: Seq<WorkerEvent>, i: int)
    requires
        0 <= i < events.len(),
        events[i] == WorkerEvent::BatchReceived,
        phase_after(WorkerPhase::Running, events.take(i)) != WorkerPhase::Stopped,
    ensures
        actions(WorkerPhase::Running, events)[i] == WorkerAction::ExportBatch,
{
    lemma_action_at(WorkerPhase::Running, events, i);
}

} // verus!
