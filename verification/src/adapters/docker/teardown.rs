//! Removing the Ollama container: stop it (a failure to stop is ignored),
//! remove it with its anonymous volumes, then remove the named model volume
//! when models were persisted.

use vstd::prelude::*;
use vstd::pervasive::unreached;
use crate::adapters::docker::manager::{DockerManager, DockerCommand, command_line, args_view};
use crate::adapters::process::CommandOutcome;
use crate::domain::error::OddOnkeyError;

verus! {

/// Where the removal stands.
#[derive(Debug, Clone, Copy, PartialEq, Eq)]
pub enum TeardownPhase {
    /// `docker stop` runs.
    Stopping,
    /// `docker rm -v` runs.
    Removing,
    /// `docker volume rm` of the model volume runs.
    RemovingVolume,
    /// The removal is over.
    Finished,
}

/// What the caller does next for the removal.
#[derive(Debug)]
pub enum TeardownAction {
    /// Run `docker` with `args` (the streams as `command.stdio()` says).
    Run { command: DockerCommand, args: Vec<String> },
    /// The removal is over, with this result.
    Finish(Result<(), OddOnkeyError>),
}

/// Whether `a` runs `c` for the container of `mgr`.
pub open spec fn tears_with(a: TeardownAction, mgr: DockerManager, c: DockerCommand) -> bool {
    a matches TeardownAction::Run { command, args } && command == c && args_view(args@)
        == command_line(mgr@, c)
}

/// The text of the error a removal of the container ends with, if it fails.
pub open spec fn remove_failure(o: CommandOutcome) -> Option<Seq<char>> {
    match o {
        CommandOutcome::SpawnFailed(e) => Some("docker rm failed: "@ + e@),
        CommandOutcome::Exited { success, .. } => if success {
            None
        } else {
            Some("docker rm exited with non-zero status"@)
        },
    }
}

/// The text of the error a removal of the model volume ends with, if it fails.
pub open spec fn volume_failure(o: CommandOutcome) -> Option<Seq<char>> {
    match o {
        CommandOutcome::SpawnFailed(e) => Some("docker volume rm failed: "@ + e@),
        CommandOutcome::Exited { success, .. } => if success {
            None
        } else {
            Some("docker volume rm exited with non-zero status"@)
        },
    }
}

/// Whether `a` ends the removal with a `ServerStartFailed` error of text `t`.
pub open spec fn fails_with(a: TeardownAction, t: Seq<char>) -> bool {
    a matches TeardownAction::Finish(Err(OddOnkeyError::ServerStartFailed(m))) && m@ == t
}

/// Stop **and remove** the container and its model volume.
#[derive(Debug)]
pub struct Teardown {
    phase: TeardownPhase,
}

impl Teardown {
    /// The current phase.
    pub closed spec fn phase(&self) -> TeardownPhase {
        self.phase
    }

    /// A removal that begins with `docker stop`.
    pub fn new(mgr: &DockerManager) -> (r: (Self, TeardownAction))
        ensures
            r.0.phase() is Stopping,
            tears_with(r.1, *mgr, DockerCommand::Stop),
    {
        let c = DockerCommand::Stop;
        let args = mgr.command_args(&c);
        (Teardown { phase: TeardownPhase::Stopping }, TeardownAction::Run { command: c, args })
    }

    /// Whether the removal still waits for a command's outcome.
    pub fn is_running(&self) -> (r: bool)
        ensures
            r == !(self.phase() is Finished),
    {
        !matches!(self.phase, TeardownPhase::Finished)
    }

    /// Takes in the outcome of the command last asked for and says what comes
    /// next.  Stopping may fail unnoticed; a failed removal of the container
    /// ends with its error; the model volume is removed only when models were
    /// persisted, and a failed removal of it ends with its error.
    pub fn step(&mut self, mgr: &DockerManager, o: CommandOutcome) -> (a: TeardownAction)
        requires
            !(old(self).phase() is Finished),
        ensures
            match old(self).phase() {
                TeardownPhase::Stopping => tears_with(a, *mgr, DockerCommand::RemoveWithVolume)
                    && final(self).phase() is Removing,
                TeardownPhase::Removing => match remove_failure(o) {
                    Some(t) => fails_with(a, t) && final(self).phase() is Finished,
                    None => if mgr@.persist_models {
                        tears_with(a, *mgr, DockerCommand::RemoveModelVolume) && final(
                            self).phase() is RemovingVolume
                    } else {
                        a matches TeardownAction::Finish(Ok(_)) && final(self).phase() is Finished
                    },
                },
                TeardownPhase::RemovingVolume => match volume_failure(o) {
                    Some(t) => fails_with(a, t) && final(self).phase() is Finished,
                    None => a matches TeardownAction::Finish(Ok(_)) && final(self).phase() is Finished,
                },
                TeardownPhase::Finished => false,
            },
    {
        match self.phase {
            TeardownPhase::Stopping => {
                self.phase = TeardownPhase::Removing;
                let c = DockerCommand::RemoveWithVolume;
                let args = mgr.command_args(&c);
                TeardownAction::Run { command: c, args }
            },
            TeardownPhase::Removing => match DockerManager::remove_verdict(o) {
                Err(e) => {
                    self.phase = TeardownPhase::Finished;
                    TeardownAction::Finish(Err(e))
                },
                Ok(()) => {
                    if mgr.persists_models() {
                        self.phase = TeardownPhase::RemovingVolume;
                        let c = DockerCommand::RemoveModelVolume;
                        let args = mgr.command_args(&c);
                        TeardownAction::Run { command: c, args }
                    } else {
                        self.phase = TeardownPhase::Finished;
                        TeardownAction::Finish(Ok(()))
                    }
                },
            },
            TeardownPhase::RemovingVolume => {
                self.phase = TeardownPhase::Finished;
                TeardownAction::Finish(DockerManager::volume_verdict(o))
            },
            TeardownPhase::Finished => unreached(),
        }
    }
}

} // verus!
