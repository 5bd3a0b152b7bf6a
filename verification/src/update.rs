//! One update cycle as a state machine: check, download and verify each
//! patch, hand the batch to the patch worker, record each applied version.
//!
//! The machine decides; the caller performs each action and hands back what
//! happened as the next event.

use vstd::prelude::*;
use crate::entities::{PatchEntry, Repository};
use crate::patch::total_length;
use crate::text::concat2;

verus! {

/// Where an update cycle stands.
#[derive(Debug, Clone, Copy, PartialEq, Eq, Structural)]
pub enum UpdatePhase {
    Idle,
    CheckingPatches,
    PreparingScratch,
    /// Downloading the patch with this index.
    Downloading(usize),
    /// Verifying the downloaded patch with this index.
    Verifying(usize),
    /// Starting the worker process.
    HandoffToWorker,
    /// Sending the batch to the worker.
    StartingWorker,
    /// The worker is applying the patch with this index.
    Applying(usize),
    /// The patch with this index is applied; its version is being written.
    Recording(usize),
    Completed,
    Cancelled,
    Failed,
}

/// State of an update cycle.
#[derive(Debug, Clone, Copy, PartialEq, Eq, Structural)]
pub struct UpdateGameUseCase {
    pub phase: UpdatePhase,
    /// Number of patches in the batch.
    pub total: usize,
    /// Number of patches applied whose version has been written.
    pub recorded: usize,
    /// Whether the caller has asked to cancel.
    pub cancel_requested: bool,
}

/// What happened outside the machine.
#[derive(Debug, Clone)]
pub enum UpdateEvent {
    /// The caller asks for a cycle.
    Begin,
    /// The patch server listed this many patches.
    PatchesListed(usize),
    CheckFailed(String),
    ScratchReady,
    ScratchFailed(String),
    /// A chunk of the current download reached the disk.
    DownloadChunk,
    DownloadFinished,
    DownloadFailed(String),
    /// The verification ran and the file did or did not match.
    VerifyFinished(bool),
    VerifyFailed(String),
    WorkerSpawned,
    WorkerSpawnFailed(String),
    /// The worker took the batch.
    WorkerAccepted,
    WorkerStartFailed(String),
    /// The worker reported progress, or nothing arrived in time.
    WorkerProgress,
    /// The worker applied the patch with this index.
    WorkerPatchCompleted(usize),
    WorkerAllCompleted,
    WorkerError(String),
    WorkerCancelled,
    WorkerDied,
    VersionWritten,
    VersionWriteFailed(String),
    CancelRequested,
}

/// What the caller is to do next.
#[derive(Debug, Clone)]
pub enum UpdateAction {
    /// Nothing: wait for the next event.
    Nothing,
    /// A cycle is already active; the request is turned down.
    Reject,
    CheckPatches,
    CreateScratch,
    Download(usize),
    Verify(usize),
    SpawnWorker,
    StartWorker,
    /// Wait for the worker's next message.
    Poll,
    /// Write the version of the patch with this index to its version file.
    WriteVersion(usize),
    /// Shut the worker down, remove the scratch directory, report success.
    Finish,
    /// End the cycle early.
    Abort {
        /// Patch file to delete, if one is on disk for the current step.
        remove_file: Option<usize>,
        /// Whether a worker is running and has to be shut down.
        shutdown_worker: bool,
        /// Whether the cycle ends because the caller cancelled.
        cancelled: bool,
        /// Whether running the cycle again can succeed.
        recoverable: bool,
        message: String,
    },
}

/// An action with its text as a sequence of characters.
pub enum Decision {
    Nothing,
    Reject,
    CheckPatches,
    CreateScratch,
    Download(usize),
    Verify(usize),
    SpawnWorker,
    StartWorker,
    Poll,
    WriteVersion(usize),
    Finish,
    Abort {
        remove_file: Option<usize>,
        shutdown_worker: bool,
        cancelled: bool,
        recoverable: bool,
        message: Seq<char>,
    },
}

impl View for UpdateAction {
    type V = Decision;

    open spec fn view(&self) -> Decision {
        match *self {
            UpdateAction::Nothing => Decision::Nothing,
            UpdateAction::Reject => Decision::Reject,
            UpdateAction::CheckPatches => Decision::CheckPatches,
            UpdateAction::CreateScratch => Decision::CreateScratch,
            UpdateAction::Download(i) => Decision::Download(i),
            UpdateAction::Verify(i) => Decision::Verify(i),
            UpdateAction::SpawnWorker => Decision::SpawnWorker,
            UpdateAction::StartWorker => Decision::StartWorker,
            UpdateAction::Poll => Decision::Poll,
            UpdateAction::WriteVersion(i) => Decision::WriteVersion(i),
            UpdateAction::Finish => Decision::Finish,
            UpdateAction::Abort { remove_file, shutdown_worker, cancelled, recoverable, message } =>
                Decision::Abort {
                    remove_file,
                    shutdown_worker,
                    cancelled,
                    recoverable,
                    message: message@,
                },
        }
    }
}

impl UpdatePhase {
    /// Whether a cycle is under way.
    pub open spec fn is_active(self) -> bool {
        !(self == UpdatePhase::Idle || self == UpdatePhase::Completed || self
            == UpdatePhase::Cancelled || self == UpdatePhase::Failed)
    }

    /// Whether a worker process is running in this phase.
    pub open spec fn has_worker(self) -> bool {
        self == UpdatePhase::StartingWorker || self is Applying || self is Recording
    }

    /// The patch file that the current step has on disk, if any.
    pub open spec fn file_in_hand(self) -> Option<usize> {
        match self {
            UpdatePhase::Downloading(i) => Some(i),
            UpdatePhase::Verifying(i) => Some(i),
            _ => None,
        }
    }
}

/// The cycle ended with `phase`, everything else as in `c`.
pub open spec fn ended(c: UpdateGameUseCase, phase: UpdatePhase) -> UpdateGameUseCase {
    UpdateGameUseCase { phase, ..c }
}

/// The cycle fails: the current file goes, the worker is shut down.
pub open spec fn fail(c: UpdateGameUseCase, recoverable: bool, message: Seq<char>) -> (
    UpdateGameUseCase,
    Decision,
) {
    (
        ended(c, UpdatePhase::Failed),
        Decision::Abort {
            remove_file: c.phase.file_in_hand(),
            shutdown_worker: c.phase.has_worker(),
            cancelled: false,
            recoverable,
            message,
        },
    )
}

/// The cycle ends because the caller cancelled.
pub open spec fn cancel(c: UpdateGameUseCase) -> (UpdateGameUseCase, Decision) {
    (
        ended(c, UpdatePhase::Cancelled),
        Decision::Abort {
            remove_file: c.phase.file_in_hand(),
            shutdown_worker: c.phase.has_worker(),
            cancelled: true,
            recoverable: true,
            message: "Cancelled"@,
        },
    )
}

/// The step after patch `i` was verified: the next download, or the worker.
pub open spec fn after_verified(c: UpdateGameUseCase, i: usize) -> (UpdateGameUseCase, Decision) {
    if i + 1 < c.total {
        (ended(c, UpdatePhase::Downloading((i + 1) as usize)), Decision::Download((i + 1) as usize))
    } else {
        (ended(c, UpdatePhase::HandoffToWorker), Decision::SpawnWorker)
    }
}

pub open spec fn protocol_violation() -> Seq<char> {
    "Patch application error: IPC communication error: unexpected response"@
}

/// The transition function: the next state and the action to perform.
///
/// A cancellation request is noted when it arrives and acted on at the next
/// event between download chunks, between patches, and at each message of
/// the worker, but never between a patch being applied and its version
/// being written. An event that the current phase does not expect changes
/// nothing.
pub open spec fn step_spec(c: UpdateGameUseCase, e: UpdateEvent) -> (UpdateGameUseCase, Decision) {
    match (c.phase, e) {
        (_, UpdateEvent::Begin) => if c.phase.is_active() {
            (c, Decision::Reject)
        } else {
            (
                UpdateGameUseCase {
                    phase: UpdatePhase::CheckingPatches,
                    total: 0,
                    recorded: 0,
                    cancel_requested: false,
                },
                Decision::CheckPatches,
            )
        },
        (_, UpdateEvent::CancelRequested) => if c.phase.is_active() {
            (UpdateGameUseCase { cancel_requested: true, ..c }, Decision::Nothing)
        } else {
            (c, Decision::Nothing)
        },
        (UpdatePhase::CheckingPatches, UpdateEvent::PatchesListed(n)) => if n == 0 {
            (UpdateGameUseCase { phase: UpdatePhase::Completed, total: 0, ..c }, Decision::Nothing)
        } else if c.cancel_requested {
            cancel(c)
        } else {
            (
                UpdateGameUseCase { phase: UpdatePhase::PreparingScratch, total: n, ..c },
                Decision::CreateScratch,
            )
        },
        (UpdatePhase::CheckingPatches, UpdateEvent::CheckFailed(m)) => fail(
            c,
            true,
            "Failed to check updates: "@ + m@,
        ),
        (UpdatePhase::PreparingScratch, UpdateEvent::ScratchReady) => if c.cancel_requested {
            cancel(c)
        } else {
            (ended(c, UpdatePhase::Downloading(0)), Decision::Download(0))
        },
        (UpdatePhase::PreparingScratch, UpdateEvent::ScratchFailed(m)) => fail(
            c,
            false,
            "Failed to create temp dir: "@ + m@,
        ),
        (UpdatePhase::Downloading(i), UpdateEvent::DownloadChunk) => if c.cancel_requested {
            cancel(c)
        } else {
            (c, Decision::Nothing)
        },
        (UpdatePhase::Downloading(i), UpdateEvent::DownloadFinished) => if c.cancel_requested {
            cancel(c)
        } else {
            (ended(c, UpdatePhase::Verifying(i)), Decision::Verify(i))
        },
        (UpdatePhase::Downloading(i), UpdateEvent::DownloadFailed(m)) => fail(
            c,
            true,
            "Download failed: "@ + m@,
        ),
        (UpdatePhase::Verifying(i), UpdateEvent::VerifyFinished(ok)) => if !ok {
            fail(c, true, "Patch verification failed"@)
        } else if c.cancel_requested {
            cancel(c)
        } else {
            after_verified(c, i)
        },
        (UpdatePhase::Verifying(i), UpdateEvent::VerifyFailed(m)) => fail(
            c,
            true,
            "Verification error: "@ + m@,
        ),
        (UpdatePhase::HandoffToWorker, UpdateEvent::WorkerSpawned) => (
            ended(c, UpdatePhase::StartingWorker),
            Decision::StartWorker,
        ),
        (UpdatePhase::HandoffToWorker, UpdateEvent::WorkerSpawnFailed(m)) => fail(
            c,
            false,
            "Failed to spawn patcher: "@ + m@,
        ),
        (UpdatePhase::StartingWorker, UpdateEvent::WorkerAccepted) => if c.cancel_requested {
            cancel(c)
        } else {
            (ended(c, UpdatePhase::Applying(0)), Decision::Poll)
        },
        (UpdatePhase::StartingWorker, UpdateEvent::WorkerStartFailed(m)) => fail(
            c,
            false,
            "Failed to start patching: "@ + m@,
        ),
        (UpdatePhase::Applying(i), UpdateEvent::WorkerProgress) => if c.cancel_requested {
            cancel(c)
        } else {
            (c, Decision::Poll)
        },
        (UpdatePhase::Applying(i), UpdateEvent::WorkerPatchCompleted(k)) => if k == i && i
            < c.total {
            (ended(c, UpdatePhase::Recording(i)), Decision::WriteVersion(i))
        } else {
            fail(c, false, protocol_violation())
        },
        (UpdatePhase::Applying(i), UpdateEvent::WorkerAllCompleted) => if c.recorded == c.total {
            (ended(c, UpdatePhase::Completed), Decision::Finish)
        } else {
            fail(c, false, protocol_violation())
        },
        (UpdatePhase::Applying(i), UpdateEvent::WorkerError(m)) => fail(
            c,
            false,
            "Patch application error: zipatch apply error: "@ + m@,
        ),
        (UpdatePhase::Applying(i), UpdateEvent::WorkerCancelled) => cancel(c),
        (UpdatePhase::Applying(i), UpdateEvent::WorkerDied) => fail(
            c,
            false,
            "Patch application error: IPC communication error: patcher process died"@,
        ),
        (UpdatePhase::Recording(i), UpdateEvent::VersionWritten) => {
            let done = UpdateGameUseCase {
                phase: UpdatePhase::Applying((i + 1) as usize),
                recorded: (i + 1) as usize,
                ..c
            };
            if c.cancel_requested {
                cancel(done)
            } else {
                (done, Decision::Poll)
            }
        },
        (UpdatePhase::Recording(i), UpdateEvent::VersionWriteFailed(m)) => fail(
            c,
            false,
            "Failed to update version: "@ + m@,
        ),
        _ => (c, Decision::Nothing),
    }
}

impl UpdateGameUseCase {
    /// What holds of every state a cycle can reach from `new()`.
    pub open spec fn wf(self) -> bool {
        &&& self.recorded <= self.total
        &&& match self.phase {
            UpdatePhase::CheckingPatches => self.total == 0,
            UpdatePhase::Downloading(i) => i < self.total && self.recorded == 0,
            UpdatePhase::Verifying(i) => i < self.total && self.recorded == 0,
            UpdatePhase::PreparingScratch => self.total > 0 && self.recorded == 0,
            UpdatePhase::HandoffToWorker => self.total > 0 && self.recorded == 0,
            UpdatePhase::StartingWorker => self.total > 0 && self.recorded == 0,
            UpdatePhase::Applying(i) => i == self.recorded,
            UpdatePhase::Recording(i) => i == self.recorded && i < self.total,
            UpdatePhase::Completed => self.recorded == self.total,
            _ => true,
        }
    }

    /// A machine with no cycle under way.
    pub fn new() -> (c: Self)
        ensures
            c == (UpdateGameUseCase {
                phase: UpdatePhase::Idle,
                total: 0,
                recorded: 0,
                cancel_requested: false,
            }),
            c.wf(),
    {
        UpdateGameUseCase { phase: UpdatePhase::Idle, total: 0, recorded: 0, cancel_requested: false }
    }

    /// Whether a cycle is under way.
    pub fn is_active(&self) -> (r: bool)
        ensures
            r == self.phase.is_active(),
    {
        match self.phase {
            UpdatePhase::Idle => false,
            UpdatePhase::Completed => false,
            UpdatePhase::Cancelled => false,
            UpdatePhase::Failed => false,
            _ => true,
        }
    }

    fn has_worker(&self) -> (r: bool)
        ensures
            r == self.phase.has_worker(),
    {
        match self.phase {
            UpdatePhase::StartingWorker => true,
            UpdatePhase::Applying(_) => true,
            UpdatePhase::Recording(_) => true,
            _ => false,
        }
    }

    fn file_in_hand(&self) -> (r: Option<usize>)
        ensures
            r == self.phase.file_in_hand(),
    {
        match self.phase {
            UpdatePhase::Downloading(i) => Some(i),
            UpdatePhase::Verifying(i) => Some(i),
            _ => None,
        }
    }

    fn fail_with(&mut self, recoverable: bool, message: String) -> (a: UpdateAction)
        ensures
            (*final(self), a@) == fail(*old(self), recoverable, message@),
    {
        let a = UpdateAction::Abort {
            remove_file: self.file_in_hand(),
            shutdown_worker: self.has_worker(),
            cancelled: false,
            recoverable,
            message,
        };
        self.phase = UpdatePhase::Failed;
        a
    }

    fn cancel_now(&mut self) -> (a: UpdateAction)
        ensures
            (*final(self), a@) == cancel(*old(self)),
    {
        let a = UpdateAction::Abort {
            remove_file: self.file_in_hand(),
            shutdown_worker: self.has_worker(),
            cancelled: true,
            recoverable: true,
            message: String::from_str("Cancelled"),
        };
        self.phase = UpdatePhase::Cancelled;
        a
    }

    /// Takes one event and returns the action to perform.
    pub fn step(&mut self, event: UpdateEvent) -> (action: UpdateAction)
        requires
            old(self).wf(),
        ensures
            (*final(self), action@) == step_spec(*old(self), event),
            final(self).wf(),
    {
        let phase = self.phase;
        match event {
            UpdateEvent::Begin => {
                if self.is_active() {
                    UpdateAction::Reject
                } else {
                    self.phase = UpdatePhase::CheckingPatches;
                    self.total = 0;
                    self.recorded = 0;
                    self.cancel_requested = false;
                    UpdateAction::CheckPatches
                }
            },
            UpdateEvent::CancelRequested => {
                if self.is_active() {
                    self.cancel_requested = true;
                }
                UpdateAction::Nothing
            },
            UpdateEvent::PatchesListed(n) => match phase {
                UpdatePhase::CheckingPatches => {
                    if n == 0 {
                        self.phase = UpdatePhase::Completed;
                        self.total = 0;
                        UpdateAction::Nothing
                    } else if self.cancel_requested {
                        self.cancel_now()
                    } else {
                        self.phase = UpdatePhase::PreparingScratch;
                        self.total = n;
                        UpdateAction::CreateScratch
                    }
                },
                _ => UpdateAction::Nothing,
            },
            UpdateEvent::CheckFailed(m) => match phase {
                UpdatePhase::CheckingPatches => {
                    let msg = concat2("Failed to check updates: ", m.as_str());
                    self.fail_with(true, msg)
                },
                _ => UpdateAction::Nothing,
            },
            UpdateEvent::ScratchReady => match phase {
                UpdatePhase::PreparingScratch => {
                    if self.cancel_requested {
                        self.cancel_now()
                    } else {
                        self.phase = UpdatePhase::Downloading(0);
                        UpdateAction::Download(0)
                    }
                },
                _ => UpdateAction::Nothing,
            },
            UpdateEvent::ScratchFailed(m) => match phase {
                UpdatePhase::PreparingScratch => {
                    let msg = concat2("Failed to create temp dir: ", m.as_str());
                    self.fail_with(false, msg)
                },
                _ => UpdateAction::Nothing,
            },
            UpdateEvent::DownloadChunk => match phase {
                UpdatePhase::Downloading(_) => {
                    if self.cancel_requested {
                        self.cancel_now()
                    } else {
                        UpdateAction::Nothing
                    }
                },
                _ => UpdateAction::Nothing,
            },
            UpdateEvent::DownloadFinished => match phase {
                UpdatePhase::Downloading(i) => {
                    if self.cancel_requested {
                        self.cancel_now()
                    } else {
                        self.phase = UpdatePhase::Verifying(i);
                        UpdateAction::Verify(i)
                    }
                },
                _ => UpdateAction::Nothing,
            },
            UpdateEvent::DownloadFailed(m) => match phase {
                UpdatePhase::Downloading(_) => {
                    let msg = concat2("Download failed: ", m.as_str());
                    self.fail_with(true, msg)
                },
                _ => UpdateAction::Nothing,
            },
            UpdateEvent::VerifyFinished(ok) => match phase {
                UpdatePhase::Verifying(i) => {
                    if !ok {
                        self.fail_with(true, String::from_str("Patch verification failed"))
                    } else if self.cancel_requested {
                        self.cancel_now()
                    } else if i + 1 < self.total {
                        self.phase = UpdatePhase::Downloading(i + 1);
                        UpdateAction::Download(i + 1)
                    } else {
                        self.phase = UpdatePhase::HandoffToWorker;
                        UpdateAction::SpawnWorker
                    }
                },
                _ => UpdateAction::Nothing,
            },
            UpdateEvent::VerifyFailed(m) => match phase {
                UpdatePhase::Verifying(_) => {
                    let msg = concat2("Verification error: ", m.as_str());
                    self.fail_with(true, msg)
                },
                _ => UpdateAction::Nothing,
            },
            UpdateEvent::WorkerSpawned => match phase {
                UpdatePhase::HandoffToWorker => {
                    self.phase = UpdatePhase::StartingWorker;
                    UpdateAction::StartWorker
                },
                _ => UpdateAction::Nothing,
            },
            UpdateEvent::WorkerSpawnFailed(m) => match phase {
                UpdatePhase::HandoffToWorker => {
                    let msg = concat2("Failed to spawn patcher: ", m.as_str());
                    self.fail_with(false, msg)
                },
                _ => UpdateAction::Nothing,
            },
            UpdateEvent::WorkerAccepted => match phase {
                UpdatePhase::StartingWorker => {
                    if self.cancel_requested {
                        self.cancel_now()
                    } else {
                        self.phase = UpdatePhase::Applying(0);
                        UpdateAction::Poll
                    }
                },
                _ => UpdateAction::Nothing,
            },
            UpdateEvent::WorkerStartFailed(m) => match phase {
                UpdatePhase::StartingWorker => {
                    let msg = concat2("Failed to start patching: ", m.as_str());
                    self.fail_with(false, msg)
                },
                _ => UpdateAction::Nothing,
            },
            UpdateEvent::WorkerProgress => match phase {
                UpdatePhase::Applying(_) => {
                    if self.cancel_requested {
                        self.cancel_now()
                    } else {
                        UpdateAction::Poll
                    }
                },
                _ => UpdateAction::Nothing,
            },
            UpdateEvent::WorkerPatchCompleted(k) => match phase {
                UpdatePhase::Applying(i) => {
                    if k == i && i < self.total {
                        self.phase = UpdatePhase::Recording(i);
                        UpdateAction::WriteVersion(i)
                    } else {
                        self.fail_with(
                            false,
                            String::from_str(
                                "Patch application error: IPC communication error: unexpected response",
                            ),
                        )
                    }
                },
                _ => UpdateAction::Nothing,
            },
            UpdateEvent::WorkerAllCompleted => match phase {
                UpdatePhase::Applying(_) => {
                    if self.recorded == self.total {
                        self.phase = UpdatePhase::Completed;
                        UpdateAction::Finish
                    } else {
                        self.fail_with(
                            false,
                            String::from_str(
                                "Patch application error: IPC communication error: unexpected response",
                            ),
                        )
                    }
                },
                _ => UpdateAction::Nothing,
            },
            UpdateEvent::WorkerError(m) => match phase {
                UpdatePhase::Applying(_) => {
                    let msg = concat2(
                        "Patch application error: zipatch apply error: ",
                        m.as_str(),
                    );
                    self.fail_with(false, msg)
                },
                _ => UpdateAction::Nothing,
            },
            UpdateEvent::WorkerCancelled => match phase {
                UpdatePhase::Applying(_) => self.cancel_now(),
                _ => UpdateAction::Nothing,
            },
            UpdateEvent::WorkerDied => match phase {
                UpdatePhase::Applying(_) => self.fail_with(
                    false,
                    String::from_str(
                        "Patch application error: IPC communication error: patcher process died",
                    ),
                ),
                _ => UpdateAction::Nothing,
            },
            UpdateEvent::VersionWritten => match phase {
                UpdatePhase::Recording(i) => {
                    self.phase = UpdatePhase::Applying(i + 1);
                    self.recorded = i + 1;
                    if self.cancel_requested {
                        self.cancel_now()
                    } else {
                        UpdateAction::Poll
                    }
                },
                _ => UpdateAction::Nothing,
            },
            UpdateEvent::VersionWriteFailed(m) => match phase {
                UpdatePhase::Recording(_) => {
                    let msg = concat2("Failed to update version: ", m.as_str());
                    self.fail_with(false, msg)
                },
                _ => UpdateAction::Nothing,
            },
        }
    }
}

} // verus!

verus! {

/// The state after a run of events, and the indexes of the patches whose
/// version the machine asked to be written since the last cycle began.
pub open spec fn run(c: UpdateGameUseCase, events: Seq<UpdateEvent>) -> (UpdateGameUseCase, Seq<usize>)
    decreases events.len(),
{
    if events.len() == 0 {
        (c, Seq::empty())
    } else {
        let (before, writes) = run(c, events.drop_last());
        let (after, decision) = step_spec(before, events.last());
        (
            after,
            match decision {
                Decision::CheckPatches => Seq::empty(),
                Decision::WriteVersion(i) => writes.push(i),
                _ => writes,
            },
        )
    }
}

/// The writes are the indexes 0, 1, 2, ... in this order.
pub open spec fn in_list_order(writes: Seq<usize>) -> bool {
    forall|i: int| 0 <= i < writes.len() ==> writes[i] == i
}

/// What ties a state to the writes asked for so far: they came in list
/// order, one for each recorded patch, and one more while a version is
/// being written or where writing it failed.
pub open spec fn consistent(c: UpdateGameUseCase, writes: Seq<usize>) -> bool {
    &&& c.wf()
    &&& in_list_order(writes)
    &&& match c.phase {
        UpdatePhase::Recording(_) => writes.len() == c.recorded + 1,
        UpdatePhase::Failed => c.recorded <= writes.len() <= c.recorded + 1,
        _ => writes.len() == c.recorded,
    }
}

/// One step keeps state and writes consistent.
pub proof fn lemma_step_consistent(c: UpdateGameUseCase, writes: Seq<usize>, e: UpdateEvent)
    requires
        consistent(c, writes),
    ensures
        ({
            let (after, decision) = step_spec(c, e);
            consistent(
                after,
                match decision {
                    Decision::CheckPatches => Seq::empty(),
                    Decision::WriteVersion(i) => writes.push(i),
                    _ => writes,
                },
            )
        }),
{
}

/// Along every run from a fresh machine the versions are written in list
/// order, each at most once, and a patch's version is asked for only after
/// the versions of all patches before it were written.
pub proof fn lemma_run_consistent(events: Seq<UpdateEvent>)
    ensures
        ({
            let start = UpdateGameUseCase {
                phase: UpdatePhase::Idle,
                total: 0,
                recorded: 0,
                cancel_requested: false,
            };
            consistent(run(start, events).0, run(start, events).1)
        }),
    decreases events.len(),
{
    let start = UpdateGameUseCase {
        phase: UpdatePhase::Idle,
        total: 0,
        recorded: 0,
        cancel_requested: false,
    };
    if events.len() > 0 {
        lemma_run_consistent(events.drop_last());
        let (before, writes) = run(start, events.drop_last());
        lemma_step_consistent(before, writes, events.last());
    }
}

/// A cycle that completed wrote the version of every patch of the batch,
/// in list order, each exactly once.
pub proof fn lemma_completed_cycle_wrote_all(events: Seq<UpdateEvent>)
    ensures
        ({
            let start = UpdateGameUseCase {
                phase: UpdatePhase::Idle,
                total: 0,
                recorded: 0,
                cancel_requested: false,
            };
            let (end, writes) = run(start, events);
            end.phase == UpdatePhase::Completed ==> writes.len() == end.total && in_list_order(
                writes,
            )
        }),
{
    lemma_run_consistent(events);
}

} // verus!

verus! {

/// What an update is doing, as it is reported.
#[derive(Debug, Clone)]
pub enum UpdateStage {
    CheckingPatches,
    /// Downloading patch `patch_index` of `total_patches`, counted from 1.
    Downloading { patch_index: usize, total_patches: usize, repository: Repository, version: String },
    Verifying { patch_index: usize, total_patches: usize },
    Applying { patch_index: usize, total_patches: usize, repository: Repository, version: String },
    Completed,
    Failed { error: String },
}

/// Progress of an update: of the current patch, and of the whole batch in
/// bytes done of bytes in all.
#[derive(Debug, Clone)]
pub struct UpdateProgress {
    pub stage: UpdateStage,
    pub bytes_downloaded: u64,
    pub bytes_total: u64,
    pub overall_done: u64,
    pub overall_total: u64,
}

/// A number of bytes, capped at the largest number.
pub open spec fn capped64(n: nat) -> u64 {
    if n > u64::MAX {
        u64::MAX
    } else {
        n as u64
    }
}

/// Whether `p` reports the download of patch `i` with `downloaded` bytes
/// of it on disk: the bytes of the patches before it count as done.
pub open spec fn reports_download(p: UpdateProgress, patches: Seq<PatchEntry>, i: int, downloaded: u64) -> bool {
    &&& p.stage matches UpdateStage::Downloading { patch_index, total_patches, repository, version }
    &&& patch_index == i + 1
    &&& total_patches == patches.len()
    &&& repository == patches[i].repository
    &&& version@ == patches[i].version_id@
    &&& p.bytes_downloaded == downloaded
    &&& p.bytes_total == patches[i].length
    &&& p.overall_done == capped64((total_length(patches.take(i)) + downloaded) as nat)
    &&& p.overall_total == capped64(total_length(patches))
}

/// Whether `p` reports the verification of patch `i`, all of it on disk.
pub open spec fn reports_verification(p: UpdateProgress, patches: Seq<PatchEntry>, i: int) -> bool {
    &&& p.stage matches UpdateStage::Verifying { patch_index, total_patches }
    &&& patch_index == i + 1
    &&& total_patches == patches.len()
    &&& p.bytes_downloaded == patches[i].length
    &&& p.bytes_total == patches[i].length
    &&& p.overall_done == capped64(total_length(patches.take(i + 1)))
    &&& p.overall_total == capped64(total_length(patches))
}

/// Whether `p` reports the application of patch `i`.
pub open spec fn reports_application(p: UpdateProgress, patches: Seq<PatchEntry>, i: int) -> bool {
    &&& p.stage matches UpdateStage::Applying { patch_index, total_patches, repository, version }
    &&& patch_index == i + 1
    &&& total_patches == patches.len()
    &&& repository == patches[i].repository
    &&& version@ == patches[i].version_id@
    &&& p.bytes_downloaded == patches[i].length
    &&& p.bytes_total == patches[i].length
    &&& p.overall_done == capped64(total_length(patches))
    &&& p.overall_total == capped64(total_length(patches))
}

fn bytes_before(patches: &[PatchEntry], i: usize) -> (n: u64)
    requires
        i <= patches@.len(),
    ensures
        n == capped64(total_length(patches@.take(i as int))),
{
    let mut n: u64 = 0;
    let mut k: usize = 0;
    while k < i
        invariant
            k <= i <= patches.len(),
            n == capped64(total_length(patches@.take(k as int))),
        decreases i - k,
    {
        assert(patches@.take(k + 1).drop_last() == patches@.take(k as int));
        n = n.saturating_add(patches[k].length);
        k += 1;
    }
    n
}

impl UpdateGameUseCase {
    /// What to report in the current phase, `downloaded` bytes of the
    /// current download being on disk. Nothing is reported while no patch
    /// is in hand, or where the batch is not the one of this cycle.
    pub fn progress(&self, patches: &[PatchEntry], downloaded: u64) -> (r: Option<UpdateProgress>)
        ensures
            match self.phase {
                UpdatePhase::Downloading(i) => if i < patches@.len() {
                    r matches Some(p) && reports_download(p, patches@, i as int, downloaded)
                } else {
                    r is None
                },
                UpdatePhase::Verifying(i) => if i < patches@.len() {
                    r matches Some(p) && reports_verification(p, patches@, i as int)
                } else {
                    r is None
                },
                UpdatePhase::Applying(i) => if i < patches@.len() {
                    r matches Some(p) && reports_application(p, patches@, i as int)
                } else {
                    r is None
                },
                UpdatePhase::Recording(i) => if i < patches@.len() {
                    r matches Some(p) && reports_application(p, patches@, i as int)
                } else {
                    r is None
                },
                UpdatePhase::CheckingPatches => r matches Some(p) && p.stage is CheckingPatches
                    && p.bytes_downloaded == 0 && p.bytes_total == 0 && p.overall_done == 0
                    && p.overall_total == 0,
                UpdatePhase::Completed => r matches Some(p) && p.stage is Completed
                    && p.bytes_downloaded == p.bytes_total && p.overall_done == p.overall_total
                    && p.overall_total == capped64(total_length(patches@)),
                _ => r is None,
            },
    {
        let total = bytes_before(patches, patches.len());
        assert(patches@.take(patches@.len() as int) == patches@);
        match self.phase {
            UpdatePhase::Downloading(i) => {
                if i >= patches.len() {
                    return None;
                }
                let before = bytes_before(patches, i);
                Some(
                    UpdateProgress {
                        stage: UpdateStage::Downloading {
                            patch_index: i + 1,
                            total_patches: patches.len(),
                            repository: patches[i].repository,
                            version: patches[i].version_id.clone(),
                        },
                        bytes_downloaded: downloaded,
                        bytes_total: patches[i].length,
                        overall_done: before.saturating_add(downloaded),
                        overall_total: total,
                    },
                )
            },
            UpdatePhase::Verifying(i) => {
                if i >= patches.len() {
                    return None;
                }
                let done = bytes_before(patches, i + 1);
                Some(
                    UpdateProgress {
                        stage: UpdateStage::Verifying {
                            patch_index: i + 1,
                            total_patches: patches.len(),
                        },
                        bytes_downloaded: patches[i].length,
                        bytes_total: patches[i].length,
                        overall_done: done,
                        overall_total: total,
                    },
                )
            },
            UpdatePhase::Applying(i) | UpdatePhase::Recording(i) => {
                if i >= patches.len() {
                    return None;
                }
                Some(
                    UpdateProgress {
                        stage: UpdateStage::Applying {
                            patch_index: i + 1,
                            total_patches: patches.len(),
                            repository: patches[i].repository,
                            version: patches[i].version_id.clone(),
                        },
                        bytes_downloaded: patches[i].length,
                        bytes_total: patches[i].length,
                        overall_done: total,
                        overall_total: total,
                    },
                )
            },
            UpdatePhase::CheckingPatches => Some(
                UpdateProgress {
                    stage: UpdateStage::CheckingPatches,
                    bytes_downloaded: 0,
                    bytes_total: 0,
                    overall_done: 0,
                    overall_total: 0,
                },
            ),
            UpdatePhase::Completed => Some(
                UpdateProgress {
                    stage: UpdateStage::Completed,
                    bytes_downloaded: total,
                    bytes_total: total,
                    overall_done: total,
                    overall_total: total,
                },
            ),
            _ => None,
        }
    }
}

/// The name of the file that the patch with the index `index` is
/// downloaded to: the last segment of its address, or a name made from the
/// index where the address ends in a slash.
pub fn patch_file_name(patch: &PatchEntry, index: usize) -> (name: String)
    ensures
        name@ == ({
            let last = crate::entities::after_last(patch.url@, '/');
            if last.len() > 0 {
                last
            } else {
                "patch_"@ + crate::numbers::decimal(index as nat) + ".patch"@
            }
        }),
{
    match patch.filename() {
        Some(name) => {
            let v = crate::text::chars_of(name);
            if v.len() > 0 {
                return crate::text::string_of(v.as_slice());
            }
        },
        None => {},
    }
    let mut out = crate::text::chars_of("patch_");
    let n = crate::numbers::decimal_chars(index as u64);
    crate::text::append_chars(&mut out, n.as_slice());
    crate::text::append_str(&mut out, ".patch");
    crate::text::string_of(out.as_slice())
}

} // verus!
