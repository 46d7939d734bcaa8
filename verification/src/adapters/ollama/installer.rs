//! Making sure Ollama is installed and its server answers.
//!
//! Both are conversations with the machine: the caller looks for the binary,
//! runs the installer, starts the server and probes it, and reports each
//! outcome; these state machines decide what comes next.

use vstd::prelude::*;
use vstd::pervasive::unreached;
use crate::adapters::ollama::client::{api_url, endpoint};
use crate::adapters::wait::{ReadinessWait, WaitStep, MAX_PROBES, PROBE_INTERVAL_MS};
use crate::domain::error::OddOnkeyError;

verus! {

/// Where the installation check stands.
#[derive(Debug, Clone, Copy, PartialEq, Eq)]
pub enum InstallPhase {
    /// Looking for `ollama` on the `PATH`.
    Locate,
    /// The installer script is running.
    Installing,
    /// Looking for `ollama` again after the installer ran.
    Relocate,
    /// The check is over.
    Finished,
}

/// What the caller reports to the installation check.
#[derive(Debug)]
pub enum InstallEvent {
    /// Whether `ollama` was found on the `PATH`.
    Located(bool),
    /// The installer script could not be started; the I/O error's text.
    InstallerFailedToStart(String),
    /// The installer script exited, successfully or not.
    InstallerExited(bool),
}

/// What the caller does next for the installation check.
#[derive(Debug)]
pub enum InstallAction {
    /// Look for `ollama` on the `PATH`.
    Locate,
    /// Run `curl -fsSL https://ollama.com/install.sh | sh` with `sh -c`.
    RunInstaller,
    /// The check is over, with this result.
    Finish(Result<(), OddOnkeyError>),
}

/// The installer command line handed to `sh -c`.
pub open spec fn installer_script() -> Seq<char> {
    "curl -fsSL https://ollama.com/install.sh | sh"@
}

/// Make sure the `ollama` binary is on `PATH`; install it if missing.
#[derive(Debug)]
pub struct InstallCheck {
    phase: InstallPhase,
}

impl InstallCheck {
    /// The current phase.
    pub closed spec fn phase(&self) -> InstallPhase {
        self.phase
    }

    /// Whether the check waits for this event.
    pub open spec fn awaits(&self, e: InstallEvent) -> bool {
        match self.phase() {
            InstallPhase::Locate | InstallPhase::Relocate => e is Located,
            InstallPhase::Installing => !(e is Located),
            InstallPhase::Finished => false,
        }
    }

    /// A check that starts by looking for the binary.
    pub fn new() -> (r: (Self, InstallAction))
        ensures
            r.0.phase() is Locate,
            r.1 is Locate,
    {
        (InstallCheck { phase: InstallPhase::Locate }, InstallAction::Locate)
    }

    /// The installer command line.
    pub fn script() -> (s: String)
        ensures
            s@ == installer_script(),
    {
        String::from_str("curl -fsSL https://ollama.com/install.sh | sh")
    }

    /// Whether the check waits for `e` (the executable form of `awaits`).
    pub fn accepts(&self, e: &InstallEvent) -> (r: bool)
        ensures
            r == self.awaits(*e),
    {
        let located = matches!(e, InstallEvent::Located(_));
        match self.phase {
            InstallPhase::Locate | InstallPhase::Relocate => located,
            InstallPhase::Installing => !located,
            InstallPhase::Finished => false,
        }
    }

    /// Takes in an outcome and says what comes next.  A binary found ends the
    /// check; a missing one is installed, after which it must be found; a
    /// failed installer ends the check with an install error.
    pub fn step(&mut self, e: InstallEvent) -> (a: InstallAction)
        requires
            old(self).awaits(e),
        ensures
            match (old(self).phase(), e) {
                (InstallPhase::Locate, InstallEvent::Located(true)) => a matches InstallAction::Finish(Ok(_))
                    && final(self).phase() is Finished,
                (InstallPhase::Locate, InstallEvent::Located(false)) => a is RunInstaller
                    && final(self).phase() is Installing,
                (InstallPhase::Installing, InstallEvent::InstallerFailedToStart(m)) => (a matches InstallAction::Finish(
                    Err(OddOnkeyError::InstallFailed(t)),
                ) && t@ == m@) && final(self).phase() is Finished,
                (InstallPhase::Installing, InstallEvent::InstallerExited(false)) => (a matches InstallAction::Finish(
                    Err(OddOnkeyError::InstallFailed(t)),
                ) && t@ == "install script exited with non-zero status"@) && final(self).phase() is Finished,
                (InstallPhase::Installing, InstallEvent::InstallerExited(true)) => a is Locate
                    && final(self).phase() is Relocate,
                (InstallPhase::Relocate, InstallEvent::Located(true)) => a matches InstallAction::Finish(Ok(_))
                    && final(self).phase() is Finished,
                (InstallPhase::Relocate, InstallEvent::Located(false)) => (a matches InstallAction::Finish(
                    Err(OddOnkeyError::InstallFailed(t)),
                ) && t@ == "ollama binary not found on PATH after install"@) && final(self).phase() is Finished,
                _ => false,
            },
    {
        match (&self.phase, e) {
            (InstallPhase::Locate, InstallEvent::Located(found)) => {
                if found {
                    self.phase = InstallPhase::Finished;
                    InstallAction::Finish(Ok(()))
                } else {
                    self.phase = InstallPhase::Installing;
                    InstallAction::RunInstaller
                }
            },
            (InstallPhase::Installing, InstallEvent::InstallerFailedToStart(m)) => {
                self.phase = InstallPhase::Finished;
                InstallAction::Finish(Err(OddOnkeyError::InstallFailed(m)))
            },
            (InstallPhase::Installing, InstallEvent::InstallerExited(ok)) => {
                if ok {
                    self.phase = InstallPhase::Relocate;
                    InstallAction::Locate
                } else {
                    self.phase = InstallPhase::Finished;
                    InstallAction::Finish(
                        Err(
                            OddOnkeyError::InstallFailed(
                                String::from_str("install script exited with non-zero status"),
                            ),
                        ),
                    )
                }
            },
            (_, InstallEvent::Located(found)) => {
                self.phase = InstallPhase::Finished;
                if found {
                    InstallAction::Finish(Ok(()))
                } else {
                    InstallAction::Finish(
                        Err(
                            OddOnkeyError::InstallFailed(
                                String::from_str("ollama binary not found on PATH after install"),
                            ),
                        ),
                    )
                }
            },
            (_, _) => unreached(),
        }
    }
}

/// Where the server start-up stands.
#[derive(Debug, Clone, Copy, PartialEq, Eq)]
pub enum ServerPhase {
    /// A first probe, to see whether a server already answers.
    QuickCheck,
    /// `ollama serve` is being started.
    Spawning,
    /// Waiting for the started server to answer.
    Waiting,
    /// The start-up is over.
    Finished,
}

/// What the caller reports to the server start-up.
#[derive(Debug)]
pub enum ServerEvent {
    /// Whether a `GET` of the tags endpoint was answered (with any status).
    Probed(bool),
    /// `ollama serve` was started in the background.
    Spawned,
    /// `ollama serve` could not be started; the I/O error's text.
    SpawnFailed(String),
}

/// What the caller does next for the server start-up.
#[derive(Debug)]
pub enum ServerAction {
    /// Sleep `delay_ms`, then `GET` `url` with a 2 s timeout.
    Probe { url: String, delay_ms: u64 },
    /// Start `ollama serve` in the background, its output discarded.
    SpawnServer,
    /// The start-up is over.  `waited_ms` is how long the started server took
    /// to answer, when one was started.
    Finish { result: Result<(), OddOnkeyError>, waited_ms: Option<u64> },
}

/// Make sure the Ollama HTTP server is reachable; start it if it isn't.
#[derive(Debug)]
pub struct ServerStart {
    url: String,
    phase: ServerPhase,
    wait: ReadinessWait,
}

impl ServerStart {
    /// The current phase.
    pub closed spec fn phase(&self) -> ServerPhase {
        self.phase
    }

    /// The URL probed.
    pub closed spec fn url(&self) -> Seq<char> {
        self.url@
    }

    /// Probes made while waiting for a started server.
    pub closed spec fn probes(&self) -> nat {
        self.wait@
    }

    /// The internal consistency of a start-up.
    pub closed spec fn wf(&self) -> bool {
        &&& self.wait@ < MAX_PROBES
        &&& (self.phase matches ServerPhase::Waiting || self.wait@ == 0)
    }

    /// Whether the start-up waits for this event.
    pub open spec fn awaits(&self, e: ServerEvent) -> bool {
        match self.phase() {
            ServerPhase::QuickCheck | ServerPhase::Waiting => e is Probed,
            ServerPhase::Spawning => !(e is Probed),
            ServerPhase::Finished => false,
        }
    }

    /// A start-up for the server at `base_url`; it starts by probing at once.
    pub fn new(base_url: &str) -> (r: (Self, ServerAction))
        ensures
            r.0.wf(),
            r.0.phase() is QuickCheck,
            r.0.url() == api_url(base_url@, "tags"@),
            r.1 matches ServerAction::Probe { url, delay_ms } && url@ == api_url(base_url@, "tags"@)
                && delay_ms == 0,
    {
        let url = endpoint(base_url, "tags");
        let probe = ServerAction::Probe { url: url.clone(), delay_ms: 0 };
        (ServerStart { url, phase: ServerPhase::QuickCheck, wait: ReadinessWait::new() }, probe)
    }

    /// Whether the start-up waits for `e` (the executable form of `awaits`).
    pub fn accepts(&self, e: &ServerEvent) -> (r: bool)
        ensures
            r == self.awaits(*e),
    {
        let probed = matches!(e, ServerEvent::Probed(_));
        match self.phase {
            ServerPhase::QuickCheck | ServerPhase::Waiting => probed,
            ServerPhase::Spawning => !probed,
            ServerPhase::Finished => false,
        }
    }

    /// Takes in an outcome and says what comes next.  A server that answers
    /// the first probe is used as it is; otherwise one is started and probed
    /// every half second until it answers or sixty probes have failed.
    pub fn step(&mut self, e: ServerEvent) -> (a: ServerAction)
        requires
            old(self).wf(),
            old(self).awaits(e),
        ensures
            final(self).wf(),
            final(self).url() == old(self).url(),
            match (old(self).phase(), e) {
                (ServerPhase::QuickCheck, ServerEvent::Probed(true)) => a matches ServerAction::Finish {
                    result: Ok(_),
                    waited_ms: None,
                } && final(self).phase() is Finished,
                (ServerPhase::QuickCheck, ServerEvent::Probed(false)) => a is SpawnServer && final(self).phase() is Spawning,
                (ServerPhase::Spawning, ServerEvent::SpawnFailed(m)) => (a matches ServerAction::Finish {
                    result: Err(OddOnkeyError::ServerStartFailed(t)),
                    waited_ms: None,
                } && t@ == m@) && final(self).phase() is Finished,
                (ServerPhase::Spawning, ServerEvent::Spawned) => (a matches ServerAction::Probe {
                    url,
                    delay_ms,
                } && url@ == old(self).url() && delay_ms == PROBE_INTERVAL_MS) && final(self).phase() is Waiting && final(self).probes() == 0,
                (ServerPhase::Waiting, ServerEvent::Probed(true)) => a matches ServerAction::Finish {
                    result: Ok(_),
                    waited_ms: Some(ms),
                } && ms == (old(self).probes() + 1) * PROBE_INTERVAL_MS && final(self).phase() is Finished,
                (ServerPhase::Waiting, ServerEvent::Probed(false)) => if old(self).probes() + 1 < MAX_PROBES {
                    (a matches ServerAction::Probe { url, delay_ms } && url@ == old(self).url()
                        && delay_ms == PROBE_INTERVAL_MS) && final(self).phase() is Waiting && final(self).probes() == old(self).probes() + 1
                } else {
                    (a matches ServerAction::Finish {
                        result: Err(OddOnkeyError::ServerStartFailed(t)),
                        waited_ms: None,
                    } && t@ == "server did not respond within 30 s"@) && final(self).phase() is Finished
                },
                _ => false,
            },
    {
        match (&self.phase, e) {
            (ServerPhase::QuickCheck, ServerEvent::Probed(ok)) => {
                if ok {
                    self.phase = ServerPhase::Finished;
                    ServerAction::Finish { result: Ok(()), waited_ms: None }
                } else {
                    self.phase = ServerPhase::Spawning;
                    ServerAction::SpawnServer
                }
            },
            (ServerPhase::Spawning, ServerEvent::SpawnFailed(m)) => {
                self.phase = ServerPhase::Finished;
                ServerAction::Finish { result: Err(OddOnkeyError::ServerStartFailed(m)), waited_ms: None }
            },
            (ServerPhase::Spawning, _) => {
                self.phase = ServerPhase::Waiting;
                ServerAction::Probe { url: self.url.clone(), delay_ms: PROBE_INTERVAL_MS }
            },
            (_, ServerEvent::Probed(ok)) => {
                match self.wait.after_probe(ok) {
                    WaitStep::Ready { waited_ms } => {
                        self.phase = ServerPhase::Finished;
                        self.wait = ReadinessWait::new();
                        ServerAction::Finish { result: Ok(()), waited_ms: Some(waited_ms) }
                    },
                    WaitStep::ProbeAgain => {
                        ServerAction::Probe { url: self.url.clone(), delay_ms: PROBE_INTERVAL_MS }
                    },
                    WaitStep::GaveUp => {
                        self.phase = ServerPhase::Finished;
                        self.wait = ReadinessWait::new();
                        ServerAction::Finish {
                            result: Err(
                                OddOnkeyError::ServerStartFailed(
                                    String::from_str("server did not respond within 30 s"),
                                ),
                            ),
                            waited_ms: None,
                        }
                    },
                }
            },
            (_, _) => unreached(),
        }
    }
}

} // verus!
