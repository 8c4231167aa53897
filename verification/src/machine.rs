//! The orchestration state machine that drives provisioning.
//!
//! The machine is purely decisional: it is fed filesystem observations and
//! the outcome of each action, and answers with the next action.  The
//! surrounding binary owns the loop: it observes the install directory,
//! performs the commands (network fetches, archive extraction, deletions,
//! the final process spawn) and reports back whether each succeeded.
//!
//! Every failed action draws on a single per-run retry budget, so a
//! persistently broken remote service or unwritable disk ends the run with
//! a fatal verdict instead of looping forever.

use vstd::prelude::*;

use crate::progress::Status;
use crate::stage::{spec_resolve, Stage};

verus! {

/// The retry budget a fresh run starts with, unless the caller picks another.
pub const DEFAULT_RETRY_BUDGET: u64 = 5;

/// One snapshot of the three on-disk paths whose presence is the whole
/// persisted state of a run.
#[derive(PartialEq, Eq, Structural, Clone, Copy, Debug)]
pub struct Observation {
    /// The runtime archive file exists.
    pub archive_present: bool,
    /// The extracted runtime directory exists.
    pub runtime_dir_present: bool,
    /// The application package file exists.
    pub launcher_present: bool,
}

/// An action the surrounding binary must perform and report on.
#[derive(PartialEq, Eq, Structural, Clone, Copy, Debug)]
pub enum Command {
    /// Fetch the runtime release metadata and download the archive.
    DownloadJre,
    /// Check the archive file against the remote digest.
    CheckJreArchive,
    /// Extract the archive into the runtime directory.  The archive stays
    /// put: only the checked tree commits the runtime.
    ExtractJre,
    /// Check the extracted tree against the archive's own entry checksums.
    /// Success orders the archive deleted — the commit signal that marks
    /// the runtime as finalized.
    CheckJreFolder,
    /// Download the application package.
    DownloadLauncher,
    /// Check the application package file.
    VerifyLauncher,
    /// Spawn the application process.
    RunLauncher,
    /// Delete the corrupt runtime archive (forces a re-download).
    RemoveArchive,
    /// Delete the corrupt runtime directory (forces a re-extraction).
    RemoveFolder,
    /// Delete the corrupt application package (forces a re-download).
    RemoveLauncher,
}

/// What performing a command came to.
///
/// `Unavailable` means the action could not be carried out or decided at
/// all — a remote lookup or download failed, a file it needed was
/// unreadable — and the filesystem is unchanged, so the machine retries
/// without ordering anything deleted.  `Failure` is a definite negative:
/// a digest or checksum mismatch, or the operation itself failed.
#[derive(PartialEq, Eq, Structural, Clone, Copy, Debug)]
pub enum Outcome {
    Success,
    Failure,
    Unavailable,
}

/// How a finished run ended.
#[derive(PartialEq, Eq, Structural, Clone, Copy, Debug)]
pub enum Verdict {
    /// The application process was spawned; the run is over.
    Launched,
    /// An unrecoverable failure, or the retry budget ran out.
    Aborted,
}

/// What the machine asks of its driver next.
#[derive(PartialEq, Eq, Structural, Clone, Copy, Debug)]
pub enum Directive {
    /// Perform this command and report the outcome.
    Perform(Command),
    /// Observe the filesystem afresh and hand the observation back.
    Observe,
    /// The run is over.
    Stop(Verdict),
}

/// Where the machine stands between calls.
#[derive(PartialEq, Eq, Structural, Clone, Copy, Debug)]
pub enum MachineState {
    /// Waiting for a fresh filesystem observation.
    Ready,
    /// Waiting for the outcome of a command it handed out.
    Awaiting(Command),
    /// The run is over.
    Finished(Verdict),
}

/// The orchestration state machine: a mode and the remaining retry budget.
#[derive(PartialEq, Eq, Structural, Clone, Copy, Debug)]
pub struct Machine {
    pub state: MachineState,
    pub retries_left: u64,
}

/// The first command of each resolved stage.  Within the
/// `AcquireOrLaunchApplication` stage the package's own presence picks
/// between downloading and verifying it.
pub open spec fn spec_first_command(stage: Stage, launcher_present: bool) -> Command {
    match stage {
        Stage::AcquireRuntime => Command::DownloadJre,
        Stage::VerifyRuntimeArchive => Command::CheckJreArchive,
        Stage::VerifyExtractedRuntime => Command::CheckJreFolder,
        Stage::AcquireOrLaunchApplication => if launcher_present {
            Command::VerifyLauncher
        } else {
            Command::DownloadLauncher
        },
        Stage::Stable => Command::RunLauncher,
    }
}

/// Feeding an observation to a ready machine: resolve the stage and hand
/// out its first command.
pub open spec fn spec_observe(m: Machine, obs: Observation) -> (Machine, Directive) {
    let cmd = spec_first_command(
        spec_resolve(obs.archive_present, obs.runtime_dir_present, obs.launcher_present),
        obs.launcher_present,
    );
    (Machine { state: MachineState::Awaiting(cmd), ..m }, Directive::Perform(cmd))
}

/// A recoverable failure: spend one retry and continue with `next`, or
/// abort when the budget is exhausted.
pub open spec fn spec_spend_retry(m: Machine, cmd: Command, next: Directive) -> (
    Machine,
    Directive,
) {
    if m.retries_left == 0 {
        (
            Machine { state: MachineState::Finished(Verdict::Aborted), ..m },
            Directive::Stop(Verdict::Aborted),
        )
    } else {
        let state = match next {
            Directive::Perform(c) => MachineState::Awaiting(c),
            _ => MachineState::Ready,
        };
        (Machine { state, retries_left: (m.retries_left - 1) as u64 }, next)
    }
}

/// The transition table for a reported outcome, against the command the
/// machine was awaiting.
///
/// - A successful check of the archive leads straight to extraction, and a
///   successful check of the package straight to the launch, inside the
///   same pass.  A successful check of the extracted tree orders the
///   archive deleted as the commit signal.  Every other success sends the
///   driver back to observing.
/// - A check that could not be decided at all (`Unavailable`: the remote
///   digest lookup failed, or a file the check needed was unreadable)
///   spends a retry and goes back to observing — the filesystem is
///   unchanged and nothing is deleted, so the same stage is simply tried
///   again.
/// - A definite check failure spends a retry and first orders the corrupt
///   artifact deleted, which forces it to be re-made.  A failed runtime
///   download spends a retry too.
/// - A failed extraction, deletion, package download or launch is fatal.
pub open spec fn spec_report(m: Machine, cmd: Command, o: Outcome) -> (Machine, Directive) {
    let stop_aborted = (
        Machine { state: MachineState::Finished(Verdict::Aborted), ..m },
        Directive::Stop(Verdict::Aborted),
    );
    let back_to_observe = (Machine { state: MachineState::Ready, ..m }, Directive::Observe);
    match cmd {
        Command::DownloadJre => if o is Success {
            back_to_observe
        } else {
            spec_spend_retry(m, cmd, Directive::Observe)
        },
        Command::CheckJreArchive => if o is Success {
            (
                Machine { state: MachineState::Awaiting(Command::ExtractJre), ..m },
                Directive::Perform(Command::ExtractJre),
            )
        } else if o is Unavailable {
            spec_spend_retry(m, cmd, Directive::Observe)
        } else {
            spec_spend_retry(m, cmd, Directive::Perform(Command::RemoveArchive))
        },
        Command::ExtractJre => if o is Success {
            back_to_observe
        } else {
            stop_aborted
        },
        Command::CheckJreFolder => if o is Success {
            (
                Machine { state: MachineState::Awaiting(Command::RemoveArchive), ..m },
                Directive::Perform(Command::RemoveArchive),
            )
        } else if o is Unavailable {
            spec_spend_retry(m, cmd, Directive::Observe)
        } else {
            spec_spend_retry(m, cmd, Directive::Perform(Command::RemoveFolder))
        },
        Command::DownloadLauncher => if o is Success {
            back_to_observe
        } else {
            stop_aborted
        },
        Command::VerifyLauncher => if o is Success {
            (
                Machine { state: MachineState::Awaiting(Command::RunLauncher), ..m },
                Directive::Perform(Command::RunLauncher),
            )
        } else if o is Unavailable {
            spec_spend_retry(m, cmd, Directive::Observe)
        } else {
            spec_spend_retry(m, cmd, Directive::Perform(Command::RemoveLauncher))
        },
        Command::RunLauncher => if o is Success {
            (
                Machine { state: MachineState::Finished(Verdict::Launched), ..m },
                Directive::Stop(Verdict::Launched),
            )
        } else {
            stop_aborted
        },
        Command::RemoveArchive => if o is Success {
            back_to_observe
        } else {
            stop_aborted
        },
        Command::RemoveFolder => if o is Success {
            back_to_observe
        } else {
            stop_aborted
        },
        Command::RemoveLauncher => if o is Success {
            back_to_observe
        } else {
            stop_aborted
        },
    }
}

impl Machine {
    /// A fresh machine with the given retry budget, waiting for its first
    /// observation.
    pub fn new(retry_budget: u64) -> (r: Machine)
        ensures
            r.state == MachineState::Ready,
            r.retries_left == retry_budget,
    {
        Machine { state: MachineState::Ready, retries_left: retry_budget }
    }

    /// Feed a fresh filesystem observation to a ready machine.  The
    /// resolved stage's first command comes back, and the machine waits
    /// for its outcome.
    pub fn observe(&mut self, obs: Observation) -> (r: Directive)
        requires
            old(self).state == MachineState::Ready,
        ensures
            (*final(self), r) == spec_observe(*old(self), obs),
    {
        let stage = crate::stage::get_stage(
            obs.archive_present,
            obs.runtime_dir_present,
            obs.launcher_present,
        );
        let cmd = match stage {
            Stage::AcquireRuntime => Command::DownloadJre,
            Stage::VerifyRuntimeArchive => Command::CheckJreArchive,
            Stage::VerifyExtractedRuntime => Command::CheckJreFolder,
            Stage::AcquireOrLaunchApplication => if obs.launcher_present {
                Command::VerifyLauncher
            } else {
                Command::DownloadLauncher
            },
            Stage::Stable => Command::RunLauncher,
        };
        self.state = MachineState::Awaiting(cmd);
        Directive::Perform(cmd)
    }

    /// Report the outcome of the command the machine is awaiting, and get
    /// the next directive.
    pub fn report(&mut self, o: Outcome) -> (r: Directive)
        requires
            old(self).state is Awaiting,
        ensures
            (*final(self), r) == spec_report(*old(self), old(self).state->Awaiting_0, o),
    {
        let cmd = match self.state {
            MachineState::Awaiting(c) => c,
            // excluded by the precondition
            _ => Command::DownloadJre,
        };
        match cmd {
            Command::DownloadJre => if matches!(o, Outcome::Success) {
                self.back_to_observe()
            } else {
                self.spend_retry(Directive::Observe)
            },
            Command::CheckJreArchive => match o {
                Outcome::Success => self.hand_out(Command::ExtractJre),
                Outcome::Unavailable => self.spend_retry(Directive::Observe),
                Outcome::Failure => self.spend_retry(Directive::Perform(Command::RemoveArchive)),
            },
            Command::ExtractJre => if matches!(o, Outcome::Success) {
                self.back_to_observe()
            } else {
                self.stop_aborted()
            },
            Command::CheckJreFolder => match o {
                Outcome::Success => self.hand_out(Command::RemoveArchive),
                Outcome::Unavailable => self.spend_retry(Directive::Observe),
                Outcome::Failure => self.spend_retry(Directive::Perform(Command::RemoveFolder)),
            },
            Command::DownloadLauncher => if matches!(o, Outcome::Success) {
                self.back_to_observe()
            } else {
                self.stop_aborted()
            },
            Command::VerifyLauncher => match o {
                Outcome::Success => self.hand_out(Command::RunLauncher),
                Outcome::Unavailable => self.spend_retry(Directive::Observe),
                Outcome::Failure => self.spend_retry(Directive::Perform(Command::RemoveLauncher)),
            },
            Command::RunLauncher => if matches!(o, Outcome::Success) {
                self.state = MachineState::Finished(Verdict::Launched);
                Directive::Stop(Verdict::Launched)
            } else {
                self.stop_aborted()
            },
            Command::RemoveArchive => if matches!(o, Outcome::Success) {
                self.back_to_observe()
            } else {
                self.stop_aborted()
            },
            Command::RemoveFolder => if matches!(o, Outcome::Success) {
                self.back_to_observe()
            } else {
                self.stop_aborted()
            },
            Command::RemoveLauncher => if matches!(o, Outcome::Success) {
                self.back_to_observe()
            } else {
                self.stop_aborted()
            },
        }
    }

    fn back_to_observe(&mut self) -> (r: Directive)
        ensures
            *final(self) == (Machine { state: MachineState::Ready, ..*old(self) }),
            r == Directive::Observe,
    {
        self.state = MachineState::Ready;
        Directive::Observe
    }

    fn stop_aborted(&mut self) -> (r: Directive)
        ensures
            *final(self) == (Machine {
                state: MachineState::Finished(Verdict::Aborted),
                ..*old(self)
            }),
            r == Directive::Stop(Verdict::Aborted),
    {
        self.state = MachineState::Finished(Verdict::Aborted);
        Directive::Stop(Verdict::Aborted)
    }

    fn hand_out(&mut self, cmd: Command) -> (r: Directive)
        ensures
            *final(self) == (Machine { state: MachineState::Awaiting(cmd), ..*old(self) }),
            r == Directive::Perform(cmd),
    {
        self.state = MachineState::Awaiting(cmd);
        Directive::Perform(cmd)
    }

    fn spend_retry(&mut self, next: Directive) -> (r: Directive)
        ensures
            (*final(self), r) == spec_spend_retry(
                *old(self),
                old(self).state->Awaiting_0,
                next,
            ),
    {
        if self.retries_left == 0 {
            self.state = MachineState::Finished(Verdict::Aborted);
            Directive::Stop(Verdict::Aborted)
        } else {
            self.retries_left = self.retries_left - 1;
            self.state = match next {
                Directive::Perform(c) => MachineState::Awaiting(c),
                _ => MachineState::Ready,
            };
            next
        }
    }
}

/// The progress event each command is narrated with; the repair deletions
/// are internal to their stage and narrate nothing.
impl Command {
    pub fn status(&self) -> (r: Option<Status>)
        ensures
            r == spec_command_status(*self),
    {
        match self {
            Command::DownloadJre => Some(Status::DownloadJre),
            Command::CheckJreArchive => Some(Status::CheckJreArchive),
            Command::ExtractJre => Some(Status::ExtractJre),
            Command::CheckJreFolder => Some(Status::CheckJreFolder),
            Command::DownloadLauncher => Some(Status::DownloadLauncher),
            Command::VerifyLauncher => Some(Status::VerifyLauncher),
            Command::RunLauncher => Some(Status::RunLauncher),
            Command::RemoveArchive => None,
            Command::RemoveFolder => None,
            Command::RemoveLauncher => None,
        }
    }
}

pub open spec fn spec_command_status(cmd: Command) -> Option<Status> {
    match cmd {
        Command::DownloadJre => Some(Status::DownloadJre),
        Command::CheckJreArchive => Some(Status::CheckJreArchive),
        Command::ExtractJre => Some(Status::ExtractJre),
        Command::CheckJreFolder => Some(Status::CheckJreFolder),
        Command::DownloadLauncher => Some(Status::DownloadLauncher),
        Command::VerifyLauncher => Some(Status::VerifyLauncher),
        Command::RunLauncher => Some(Status::RunLauncher),
        Command::RemoveArchive => None,
        Command::RemoveFolder => None,
        Command::RemoveLauncher => None,
    }
}

/// Every report short of success either ends the run or strictly shrinks
/// the retry budget: neither failures nor unavailable outcomes can be
/// absorbed silently.
pub proof fn lemma_failure_consumes_budget(m: Machine, cmd: Command, o: Outcome)
    requires
        m.state == MachineState::Awaiting(cmd),
        !(o is Success),
    ensures
        spec_report(m, cmd, o).0.state is Finished || spec_report(
            m,
            cmd,
            o,
        ).0.retries_left < m.retries_left,
{
}

/// A lookup that could not be answered deletes nothing: an `Unavailable`
/// outcome of either integrity check (or of the package check) only spends
/// a retry and sends the driver back to observing the unchanged
/// filesystem — no deletion is ever ordered on that path.
pub proof fn lemma_unavailable_check_deletes_nothing(m: Machine, cmd: Command)
    requires
        m.state == MachineState::Awaiting(cmd),
        cmd == Command::CheckJreArchive || cmd == Command::CheckJreFolder || cmd
            == Command::VerifyLauncher,
    ensures
        ({
            let (m2, d) = spec_report(m, cmd, Outcome::Unavailable);
            &&& !(d is Perform)
            &&& d is Observe ==> m2.state == MachineState::Ready && m2.retries_left
                < m.retries_left
            &&& d is Stop ==> m.retries_left == 0
        }),
{
}

/// One full round against a machine that can never download the runtime:
/// observing an empty install directory resolves `AcquireRuntime`, the
/// download is attempted, and its failure is reported.
pub open spec fn spec_failing_fetch_round(m: Machine) -> Machine {
    let obs = Observation {
        archive_present: false,
        runtime_dir_present: false,
        launcher_present: false,
    };
    spec_report(spec_observe(m, obs).0, Command::DownloadJre, Outcome::Failure).0
}

/// A run against a remote fetch that always fails: rounds are played until
/// the machine is no longer ready, or `n` rounds are up.
pub open spec fn spec_failing_fetch_run(m: Machine, n: nat) -> Machine
    decreases n,
{
    if n == 0 || !(m.state is Ready) {
        m
    } else {
        spec_failing_fetch_run(spec_failing_fetch_round(m), (n - 1) as nat)
    }
}

/// Bounded retries terminate: when the remote fetch always fails, the run
/// is over — fatally, not silently — after at most one round more than the
/// remaining budget.  It never loops forever.
pub proof fn lemma_retry_termination(m: Machine, n: nat)
    requires
        m.state == MachineState::Ready,
        n > m.retries_left,
    ensures
        spec_failing_fetch_run(m, n).state == MachineState::Finished(Verdict::Aborted),
    decreases n,
{
    let next = spec_failing_fetch_round(m);
    if m.retries_left == 0 {
        assert(next.state == MachineState::Finished(Verdict::Aborted));
        assert(spec_failing_fetch_run(next, (n - 1) as nat) == next);
    } else {
        assert(next.state == MachineState::Ready);
        assert(next.retries_left == m.retries_left - 1);
        lemma_retry_termination(next, (n - 1) as nat);
    }
}

} // verus!
