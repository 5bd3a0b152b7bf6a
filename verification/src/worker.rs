//! The patch worker as a state machine: it greets the launcher, takes one
//! batch at a time, applies its patches in list order and reports each.
//!
//! The machine decides; the caller sends each message, applies each patch
//! and hands back what happened as the next event.

use vstd::prelude::*;

verus! {

/// Where the worker stands.
#[derive(Debug, Clone, Copy, PartialEq, Eq, Structural)]
pub enum WorkerPhase {
    Connecting,
    AwaitingHello,
    Idle,
    /// Applying the patch with this index.
    Applying(usize),
    Stopped,
}

/// State of the worker.
#[derive(Debug, Clone, Copy, PartialEq, Eq, Structural)]
pub struct Worker {
    pub phase: WorkerPhase,
    /// Number of patches in the batch.
    pub total: usize,
    /// Whether the launcher has asked to cancel the batch.
    pub cancelled: bool,
}

/// What happened outside the machine.
#[derive(Debug, Clone, Copy, PartialEq, Eq, Structural)]
pub enum WorkerEvent {
    /// The connection to the launcher stands.
    Connected,
    Hello,
    /// A batch of this many patches arrived.
    StartPatch(usize),
    Cancel,
    Shutdown,
    ConnectionLost,
    /// The current patch was applied.
    PatchApplied,
    /// The current patch could not be applied.
    PatchFailed,
}

/// What the caller is to do; the actions of one step are done in order.
#[derive(Debug, Clone, Copy, PartialEq, Eq, Structural)]
pub enum WorkerAction {
    SendReady,
    /// Report that the patch with this index is being installed.
    SendProgress(usize),
    /// Apply the patch with this index.
    Apply(usize),
    SendPatchCompleted(usize),
    SendAllCompleted,
    SendCancelled,
    /// Report the failure of the current patch.
    SendError,
    /// End the process with this exit code.
    Exit(i32),
}

/// The worker stops over a message that the protocol does not allow.
pub open spec fn violation(w: Worker) -> (Worker, Seq<WorkerAction>) {
    (Worker { phase: WorkerPhase::Stopped, ..w }, seq![WorkerAction::Exit(1)])
}

/// The worker stops in good order.
pub open spec fn stop(w: Worker) -> (Worker, Seq<WorkerAction>) {
    (Worker { phase: WorkerPhase::Stopped, ..w }, seq![WorkerAction::Exit(0)])
}

/// The transition function: the next state and the actions to perform.
pub open spec fn worker_step(w: Worker, e: WorkerEvent) -> (Worker, Seq<WorkerAction>) {
    match (w.phase, e) {
        (WorkerPhase::Stopped, _) => (w, Seq::empty()),
        (_, WorkerEvent::ConnectionLost) => stop(w),
        (_, WorkerEvent::Shutdown) => stop(w),
        (WorkerPhase::Connecting, WorkerEvent::Connected) => (
            Worker { phase: WorkerPhase::AwaitingHello, ..w },
            seq![WorkerAction::SendReady],
        ),
        (WorkerPhase::AwaitingHello, WorkerEvent::Hello) => (
            Worker { phase: WorkerPhase::Idle, ..w },
            Seq::empty(),
        ),
        (WorkerPhase::Idle, WorkerEvent::StartPatch(n)) => if n == 0 {
            (Worker { total: 0, cancelled: false, ..w }, seq![WorkerAction::SendAllCompleted])
        } else {
            (
                Worker { phase: WorkerPhase::Applying(0), total: n, cancelled: false },
                seq![WorkerAction::SendProgress(0), WorkerAction::Apply(0)],
            )
        },
        (WorkerPhase::Idle, WorkerEvent::Cancel) => (w, Seq::empty()),
        (WorkerPhase::Applying(i), WorkerEvent::Cancel) => (
            Worker { cancelled: true, ..w },
            Seq::empty(),
        ),
        (WorkerPhase::Applying(i), WorkerEvent::PatchApplied) => if w.cancelled {
            (
                Worker { phase: WorkerPhase::Idle, ..w },
                seq![WorkerAction::SendPatchCompleted(i), WorkerAction::SendCancelled],
            )
        } else if i + 1 >= w.total {
            (
                Worker { phase: WorkerPhase::Idle, ..w },
                seq![WorkerAction::SendPatchCompleted(i), WorkerAction::SendAllCompleted],
            )
        } else {
            (
                Worker { phase: WorkerPhase::Applying((i + 1) as usize), ..w },
                seq![
                    WorkerAction::SendPatchCompleted(i),
                    WorkerAction::SendProgress((i + 1) as usize),
                    WorkerAction::Apply((i + 1) as usize),
                ],
            )
        },
        (WorkerPhase::Applying(i), WorkerEvent::PatchFailed) => (
            Worker { phase: WorkerPhase::Idle, ..w },
            seq![WorkerAction::SendError],
        ),
        (WorkerPhase::Connecting, _) => (w, Seq::empty()),
        (_, WorkerEvent::Connected) => (w, Seq::empty()),
        (WorkerPhase::Idle, WorkerEvent::PatchApplied) => (w, Seq::empty()),
        (WorkerPhase::Idle, WorkerEvent::PatchFailed) => (w, Seq::empty()),
        (WorkerPhase::AwaitingHello, WorkerEvent::PatchApplied) => (w, Seq::empty()),
        (WorkerPhase::AwaitingHello, WorkerEvent::PatchFailed) => (w, Seq::empty()),
        _ => violation(w),
    }
}

impl Worker {
    /// What holds of every state the worker can reach from `new()`.
    pub open spec fn wf(self) -> bool {
        match self.phase {
            WorkerPhase::Applying(i) => i < self.total,
            _ => true,
        }
    }

    /// A worker that has not connected yet.
    pub fn new() -> (w: Self)
        ensures
            w == (Worker { phase: WorkerPhase::Connecting, total: 0, cancelled: false }),
            w.wf(),
    {
        Worker { phase: WorkerPhase::Connecting, total: 0, cancelled: false }
    }

    /// Takes one event and returns the actions to perform, in order.
    pub fn step(&mut self, event: WorkerEvent) -> (actions: Vec<WorkerAction>)
        requires
            old(self).wf(),
        ensures
            (*final(self), actions@) == worker_step(*old(self), event),
            final(self).wf(),
    {
        let mut actions: Vec<WorkerAction> = Vec::new();
        let phase = self.phase;
        match phase {
            WorkerPhase::Stopped => {
                assert(actions@ =~= Seq::<WorkerAction>::empty());
                return actions;
            },
            _ => {},
        }
        match event {
            WorkerEvent::ConnectionLost | WorkerEvent::Shutdown => {
                self.phase = WorkerPhase::Stopped;
                actions.push(WorkerAction::Exit(0));
                assert(actions@ =~= seq![WorkerAction::Exit(0)]);
                return actions;
            },
            _ => {},
        }
        match (phase, event) {
            (WorkerPhase::Connecting, WorkerEvent::Connected) => {
                self.phase = WorkerPhase::AwaitingHello;
                actions.push(WorkerAction::SendReady);
                assert(actions@ =~= seq![WorkerAction::SendReady]);
            },
            (WorkerPhase::AwaitingHello, WorkerEvent::Hello) => {
                self.phase = WorkerPhase::Idle;
                assert(actions@ =~= Seq::<WorkerAction>::empty());
            },
            (WorkerPhase::Idle, WorkerEvent::StartPatch(n)) => {
                self.cancelled = false;
                self.total = n;
                if n == 0 {
                    actions.push(WorkerAction::SendAllCompleted);
                    assert(actions@ =~= seq![WorkerAction::SendAllCompleted]);
                } else {
                    self.phase = WorkerPhase::Applying(0);
                    actions.push(WorkerAction::SendProgress(0));
                    actions.push(WorkerAction::Apply(0));
                    assert(actions@ =~= seq![WorkerAction::SendProgress(0), WorkerAction::Apply(0)]);
                }
            },
            (WorkerPhase::Idle, WorkerEvent::Cancel) => {
                assert(actions@ =~= Seq::<WorkerAction>::empty());
            },
            (WorkerPhase::Applying(_), WorkerEvent::Cancel) => {
                self.cancelled = true;
                assert(actions@ =~= Seq::<WorkerAction>::empty());
            },
            (WorkerPhase::Applying(i), WorkerEvent::PatchApplied) => {
                actions.push(WorkerAction::SendPatchCompleted(i));
                if self.cancelled {
                    self.phase = WorkerPhase::Idle;
                    actions.push(WorkerAction::SendCancelled);
                    assert(actions@ =~= seq![
                        WorkerAction::SendPatchCompleted(i),
                        WorkerAction::SendCancelled,
                    ]);
                } else if i + 1 >= self.total {
                    self.phase = WorkerPhase::Idle;
                    actions.push(WorkerAction::SendAllCompleted);
                    assert(actions@ =~= seq![
                        WorkerAction::SendPatchCompleted(i),
                        WorkerAction::SendAllCompleted,
                    ]);
                } else {
                    self.phase = WorkerPhase::Applying(i + 1);
                    actions.push(WorkerAction::SendProgress(i + 1));
                    actions.push(WorkerAction::Apply(i + 1));
                    assert(actions@ =~= seq![
                        WorkerAction::SendPatchCompleted(i),
                        WorkerAction::SendProgress((i + 1) as usize),
                        WorkerAction::Apply((i + 1) as usize),
                    ]);
                }
            },
            (WorkerPhase::Applying(_), WorkerEvent::PatchFailed) => {
                self.phase = WorkerPhase::Idle;
                actions.push(WorkerAction::SendError);
                assert(actions@ =~= seq![WorkerAction::SendError]);
            },
            (WorkerPhase::Connecting, _) => {
                assert(actions@ =~= Seq::<WorkerAction>::empty());
            },
            (_, WorkerEvent::Connected) => {
                assert(actions@ =~= Seq::<WorkerAction>::empty());
            },
            (WorkerPhase::Idle, WorkerEvent::PatchApplied) => {
                assert(actions@ =~= Seq::<WorkerAction>::empty());
            },
            (WorkerPhase::Idle, WorkerEvent::PatchFailed) => {
                assert(actions@ =~= Seq::<WorkerAction>::empty());
            },
            (WorkerPhase::AwaitingHello, WorkerEvent::PatchApplied) => {
                assert(actions@ =~= Seq::<WorkerAction>::empty());
            },
            (WorkerPhase::AwaitingHello, WorkerEvent::PatchFailed) => {
                assert(actions@ =~= Seq::<WorkerAction>::empty());
            },
            _ => {
                self.phase = WorkerPhase::Stopped;
                actions.push(WorkerAction::Exit(1));
                assert(actions@ =~= seq![WorkerAction::Exit(1)]);
            },
        }
        actions
    }
}

/// The patches that a row of actions asks to apply, in order.
pub open spec fn applied_in(actions: Seq<WorkerAction>) -> Seq<usize>
    decreases actions.len(),
{
    if actions.len() == 0 {
        Seq::empty()
    } else {
        match actions.last() {
            WorkerAction::Apply(i) => applied_in(actions.drop_last()).push(i),
            _ => applied_in(actions.drop_last()),
        }
    }
}

/// The state after a run of events, and the patches the worker asked to
/// apply since the last batch arrived.
pub open spec fn worker_run(w: Worker, events: Seq<WorkerEvent>) -> (Worker, Seq<usize>)
    decreases events.len(),
{
    if events.len() == 0 {
        (w, Seq::empty())
    } else {
        let (before, applied) = worker_run(w, events.drop_last());
        let (after, actions) = worker_step(before, events.last());
        (
            after,
            if before.phase == WorkerPhase::Idle && events.last() is StartPatch {
                applied_in(actions)
            } else {
                applied + applied_in(actions)
            },
        )
    }
}

/// What ties a state to the patches applied so far: they are the first
/// patches of the batch in list order, each once, up to and with the one
/// being applied.
pub open spec fn in_step(w: Worker, applied: Seq<usize>) -> bool {
    &&& w.wf()
    &&& forall|k: int| 0 <= k < applied.len() ==> applied[k] == k
    &&& match w.phase {
        WorkerPhase::Applying(i) => applied.len() == i + 1,
        _ => applied.len() <= w.total,
    }
}

/// Along every run the worker applies the patches of a batch in list
/// order, each at most once, and none after one has failed.
pub proof fn lemma_worker_applies_in_order(events: Seq<WorkerEvent>)
    ensures
        ({
            let start = Worker { phase: WorkerPhase::Connecting, total: 0, cancelled: false };
            in_step(worker_run(start, events).0, worker_run(start, events).1)
        }),
    decreases events.len(),
{
    let start = Worker { phase: WorkerPhase::Connecting, total: 0, cancelled: false };
    if events.len() > 0 {
        lemma_worker_applies_in_order(events.drop_last());
        let (before, applied) = worker_run(start, events.drop_last());
        let (after, actions) = worker_step(before, events.last());
        reveal_with_fuel(applied_in, 4);
        if actions.len() == 1 {
            assert(actions.drop_last() =~= Seq::<WorkerAction>::empty());
        } else if actions.len() == 2 {
            assert(actions.drop_last() =~= seq![actions[0]]);
            assert(actions.drop_last().drop_last() =~= Seq::<WorkerAction>::empty());
        } else if actions.len() == 3 {
            assert(actions.drop_last() =~= seq![actions[0], actions[1]]);
            assert(actions.drop_last().drop_last() =~= seq![actions[0]]);
            assert(actions.drop_last().drop_last().drop_last() =~= Seq::<WorkerAction>::empty());
        }
    }
}

} // verus!
