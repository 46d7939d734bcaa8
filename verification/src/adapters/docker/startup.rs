//! Starting the Ollama container: make sure Docker works and the image is
//! present, start (or create) the container, then wait for its API.
//!
//! The caller runs each `docker` command, probes ports and the API, and
//! reports the outcome; this state machine decides what comes next.

use vstd::prelude::*;
use crate::adapters::docker::manager::{
    DockerManager, DockerView, DockerCommand, command_line, args_view, reports_running,
};
use crate::adapters::ollama::client::{api_url, endpoint};
use crate::adapters::process::CommandOutcome;
use crate::adapters::wait::{ReadinessWait, WaitStep, MAX_PROBES, PROBE_INTERVAL_MS};
use crate::domain::error::OddOnkeyError;
use crate::text::{decimal, append_str, lossy_text, utf8_lossy, trim, trim_str};

verus! {

/// Where the container start-up stands.
#[derive(Debug, Clone, Copy, PartialEq, Eq)]
pub enum DockerPhase {
    /// `docker --version` runs.
    CheckDocker,
    /// `docker image inspect` runs.
    InspectImage,
    /// `docker pull` runs.
    PullImage,
    /// `docker inspect` of the running state runs.
    CheckRunning,
    /// `docker inspect` of the container's existence runs.
    CheckExists,
    /// `docker start` of the stopped container runs.
    StartExisting,
    /// `docker rm -f` of a container that would not start runs.
    RemoveBroken,
    /// Free host ports are being looked for.
    FindPort,
    /// `docker run` runs.
    CreateContainer,
    /// The API of the container is being probed.
    Waiting,
    /// The start-up is over.
    Finished,
}

/// What the caller reports to the container start-up.
#[derive(Debug)]
pub enum DockerEvent {
    /// The outcome of the command last asked for.
    Ran(CommandOutcome),
    /// The first port of the range asked for that could be bound, if any.
    PortFound(Option<u16>),
    /// Whether a `GET` of the API was answered.
    Probed(bool),
}

/// What the caller does next for the container start-up.
#[derive(Debug)]
pub enum DockerAction {
    /// Run `docker` with `args` (the streams as `command.stdio()` says).
    Run { command: DockerCommand, args: Vec<String> },
    /// Try to bind `127.0.0.1:p` for `p` from `from` up to and including
    /// `to`, and report the first port that binds.
    FindPort { from: u16, to: u16 },
    /// Sleep `delay_ms`, then `GET` `url` with a 2 s timeout.
    Probe { url: String, delay_ms: u64 },
    /// The start-up is over.  `waited_ms` is how long the container took to
    /// answer, when it had to be started.
    Finish { result: Result<(), OddOnkeyError>, waited_ms: Option<u64> },
}

/// The URL probed for a container with these settings.
pub open spec fn api_probe_url(m: DockerView) -> Seq<char> {
    api_url("http://127.0.0.1:"@ + decimal(m.host_port as nat), "tags"@)
}

/// Whether `a` runs `c` for a container with settings `m`.
pub open spec fn runs(a: DockerAction, m: DockerView, c: DockerCommand) -> bool {
    a matches DockerAction::Run { command, args } && command == c && args_view(args@)
        == command_line(m, c)
}

/// Whether `a` is the first probe of the container's API.
pub open spec fn probes_api(a: DockerAction, m: DockerView) -> bool {
    a matches DockerAction::Probe { url, delay_ms } && url@ == api_probe_url(m) && delay_ms
        == PROBE_INTERVAL_MS
}

/// Whether `a` ends the start-up with an error of kind `InstallFailed` and text `t`.
pub open spec fn fails_install(a: DockerAction, t: Seq<char>) -> bool {
    a matches DockerAction::Finish { result: Err(OddOnkeyError::InstallFailed(m)), waited_ms: None }
        && m@ == t
}

/// Whether `a` ends the start-up with an error of kind `ServerStartFailed` and text `t`.
pub open spec fn fails_start(a: DockerAction, t: Seq<char>) -> bool {
    a matches DockerAction::Finish {
        result: Err(OddOnkeyError::ServerStartFailed(m)),
        waited_ms: None,
    } && m@ == t
}

/// Whether `a` asks to look for a free port from the configured one on.
pub open spec fn finds_port(a: DockerAction, m: DockerView) -> bool {
    a matches DockerAction::FindPort { from, to } && from == m.host_port && to == if m.host_port
        + 100 > u16::MAX {
        u16::MAX as int
    } else {
        m.host_port + 100
    }
}

/// Start (or create and start) the Ollama container, then wait until its
/// HTTP API is responsive.
#[derive(Debug)]
pub struct DockerStartup {
    phase: DockerPhase,
    wait: ReadinessWait,
    url: String,
}

impl DockerStartup {
    /// The current phase.
    pub closed spec fn phase(&self) -> DockerPhase {
        self.phase
    }

    /// Probes made while waiting for the API.
    pub closed spec fn probes(&self) -> nat {
        self.wait@
    }

    /// The URL probed while waiting.
    pub closed spec fn url(&self) -> Seq<char> {
        self.url@
    }

    /// The internal consistency of a start-up.
    pub closed spec fn wf(&self) -> bool {
        &&& self.wait@ < MAX_PROBES
        &&& (self.phase matches DockerPhase::Waiting || self.wait@ == 0)
    }

    /// Whether the start-up waits for this event.
    pub open spec fn awaits(&self, e: DockerEvent) -> bool {
        match self.phase() {
            DockerPhase::FindPort => e is PortFound,
            DockerPhase::Waiting => e is Probed,
            DockerPhase::Finished => false,
            _ => e is Ran,
        }
    }

    /// A start-up that begins with `docker --version`.
    pub fn new(mgr: &DockerManager) -> (r: (Self, DockerAction))
        ensures
            r.0.wf(),
            r.0.phase() is CheckDocker,
            runs(r.1, mgr@, DockerCommand::Version),
    {
        let c = DockerCommand::Version;
        let args = mgr.command_args(&c);
        (
            DockerStartup {
                phase: DockerPhase::CheckDocker,
                wait: ReadinessWait::new(),
                url: String::new(),
            },
            DockerAction::Run { command: c, args },
        )
    }

    /// Whether the start-up waits for `e` (the executable form of `awaits`).
    pub fn accepts(&self, e: &DockerEvent) -> (r: bool)
        ensures
            r == self.awaits(*e),
    {
        let port = matches!(e, DockerEvent::PortFound(_));
        let probe = matches!(e, DockerEvent::Probed(_));
        let ran = matches!(e, DockerEvent::Ran(_));
        match self.phase {
            DockerPhase::FindPort => port,
            DockerPhase::Waiting => probe,
            DockerPhase::Finished => false,
            _ => ran,
        }
    }

    fn run(&mut self, mgr: &DockerManager, c: DockerCommand, p: DockerPhase) -> (a: DockerAction)
        requires
            old(self).wf(),
            !(p matches DockerPhase::Waiting),
        ensures
            final(self).wf(),
            final(self).phase() == p,
            runs(a, mgr@, c),
    {
        self.phase = p;
        self.wait = ReadinessWait::new();
        let args = mgr.command_args(&c);
        DockerAction::Run { command: c, args }
    }

    fn start_waiting(&mut self, mgr: &DockerManager) -> (a: DockerAction)
        ensures
            final(self).wf(),
            final(self).phase() is Waiting,
            final(self).probes() == 0,
            final(self).url() == api_probe_url(mgr@),
            probes_api(a, mgr@),
    {
        let base = mgr.base_url();
        self.url = endpoint(base.as_str(), "tags");
        self.phase = DockerPhase::Waiting;
        self.wait = ReadinessWait::new();
        DockerAction::Probe { url: self.url.clone(), delay_ms: PROBE_INTERVAL_MS }
    }

    fn fail(&mut self, e: OddOnkeyError) -> (a: DockerAction)
        ensures
            final(self).wf(),
            final(self).phase() is Finished,
            a == (DockerAction::Finish { result: Err(e), waited_ms: None }),
    {
        self.phase = DockerPhase::Finished;
        self.wait = ReadinessWait::new();
        DockerAction::Finish { result: Err(e), waited_ms: None }
    }

    /// Takes in an outcome and says what comes next: Docker must run and the
    /// image be present (pulled if not); a running container is used as it
    /// is, a stopped one is started (and recreated when it will not start),
    /// a missing one is created on the first free port from the configured
    /// one; a started container is probed every half second until its API
    /// answers or sixty probes have failed.
    pub fn step(&mut self, mgr: &mut DockerManager, e: DockerEvent) -> (a: DockerAction)
        requires
            old(self).wf(),
            old(self).awaits(e),
        ensures
            final(self).wf(),
            match old(self).phase() {
                DockerPhase::FindPort => true,
                _ => final(mgr)@ == old(mgr)@,
            },
            match (old(self).phase(), e) {
                (DockerPhase::CheckDocker, DockerEvent::Ran(o)) => match o {
                    CommandOutcome::SpawnFailed(t) => fails_install(
                        a,
                        "docker not found – install Docker first: "@ + t@,
                    ) && final(self).phase() is Finished,
                    CommandOutcome::Exited { success, .. } => if success {
                        runs(a, old(mgr)@, DockerCommand::InspectImage) && final(
                            self).phase() is InspectImage
                    } else {
                        fails_install(a, "docker --version failed"@) && final(self).phase() is Finished
                    },
                },
                (DockerPhase::InspectImage, DockerEvent::Ran(o)) => if o.succeeded() {
                    runs(a, old(mgr)@, DockerCommand::InspectRunning) && final(self).phase() is CheckRunning
                } else {
                    runs(a, old(mgr)@, DockerCommand::Pull) && final(self).phase() is PullImage
                },
                (DockerPhase::PullImage, DockerEvent::Ran(o)) => match o {
                    CommandOutcome::SpawnFailed(t) => fails_install(a, "docker pull failed: "@ + t@)
                        && final(self).phase() is Finished,
                    CommandOutcome::Exited { success, .. } => if success {
                        runs(a, old(mgr)@, DockerCommand::InspectRunning) && final(
                            self).phase() is CheckRunning
                    } else {
                        fails_install(a, "docker pull "@ + old(mgr)@.image + " failed"@) && final(
                            self).phase() is Finished
                    },
                },
                (DockerPhase::CheckRunning, DockerEvent::Ran(o)) => if (o matches CommandOutcome::Exited {
                    captured,
                    ..
                } && reports_running(captured@)) {
                    a matches DockerAction::Finish { result: Ok(_), waited_ms: None } && final(
                        self).phase() is Finished
                } else {
                    runs(a, old(mgr)@, DockerCommand::InspectId) && final(self).phase() is CheckExists
                },
                (DockerPhase::CheckExists, DockerEvent::Ran(o)) => if o.succeeded() {
                    runs(a, old(mgr)@, DockerCommand::Start) && final(self).phase() is StartExisting
                } else {
                    finds_port(a, old(mgr)@) && final(self).phase() is FindPort
                },
                (DockerPhase::StartExisting, DockerEvent::Ran(o)) => match o {
                    CommandOutcome::SpawnFailed(t) => fails_start(a, "docker start failed: "@ + t@)
                        && final(self).phase() is Finished,
                    CommandOutcome::Exited { success, .. } => if success {
                        probes_api(a, old(mgr)@) && final(self).phase() is Waiting && final(self).probes()
                            == 0 && final(self).url() == api_probe_url(old(mgr)@)
                    } else {
                        runs(a, old(mgr)@, DockerCommand::RemoveForce) && final(
                            self).phase() is RemoveBroken
                    },
                },
                (DockerPhase::RemoveBroken, DockerEvent::Ran(_)) => finds_port(a, old(mgr)@) && final(
                    self).phase() is FindPort,
                (DockerPhase::FindPort, DockerEvent::PortFound(p)) => final(mgr)@ == (DockerView {
                    host_port: match p {
                        Some(f) => f,
                        None => old(mgr)@.host_port,
                    },
                    ..old(mgr)@
                }) && runs(a, final(mgr)@, DockerCommand::Run) && final(self).phase() is CreateContainer,
                (DockerPhase::CreateContainer, DockerEvent::Ran(o)) => match o {
                    CommandOutcome::SpawnFailed(t) => fails_start(a, "docker run failed: "@ + t@)
                        && final(self).phase() is Finished,
                    CommandOutcome::Exited { success, captured } => if success {
                        probes_api(a, old(mgr)@) && final(self).phase() is Waiting && final(self).probes()
                            == 0 && final(self).url() == api_probe_url(old(mgr)@)
                    } else {
                        fails_start(a, "docker run failed: "@ + trim(utf8_lossy(captured@))) && final(
                            self).phase() is Finished
                    },
                },
                (DockerPhase::Waiting, DockerEvent::Probed(true)) => a matches DockerAction::Finish {
                    result: Ok(_),
                    waited_ms: Some(ms),
                } && ms == (old(self).probes() + 1) * PROBE_INTERVAL_MS && final(self).phase() is Finished,
                (DockerPhase::Waiting, DockerEvent::Probed(false)) => if old(self).probes() + 1
                    < MAX_PROBES {
                    (a matches DockerAction::Probe { url, delay_ms } && url@ == old(self).url()
                        && delay_ms == PROBE_INTERVAL_MS) && final(self).phase() is Waiting && final(
                        self).probes() == old(self).probes() + 1 && final(self).url() == old(self).url()
                } else {
                    fails_start(a, "docker container did not respond within 30 s"@) && final(
                        self).phase() is Finished
                },
                _ => false,
            },
    {
        match e {
            DockerEvent::Ran(o) => match self.phase {
                DockerPhase::CheckDocker => match DockerManager::version_verdict(o) {
                    Ok(()) => self.run(mgr, DockerCommand::InspectImage, DockerPhase::InspectImage),
                    Err(err) => self.fail(err),
                },
                DockerPhase::InspectImage => {
                    if o.is_success() {
                        self.run(mgr, DockerCommand::InspectRunning, DockerPhase::CheckRunning)
                    } else {
                        self.run(mgr, DockerCommand::Pull, DockerPhase::PullImage)
                    }
                },
                DockerPhase::PullImage => match o {
                    CommandOutcome::SpawnFailed(t) => {
                        let mut m = String::from_str("docker pull failed: ");
                        append_str(&mut m, t.as_str());
                        self.fail(OddOnkeyError::InstallFailed(m))
                    },
                    CommandOutcome::Exited { success, .. } => {
                        if success {
                            self.run(mgr, DockerCommand::InspectRunning, DockerPhase::CheckRunning)
                        } else {
                            let mut m = String::from_str("docker pull ");
                            append_str(&mut m, mgr.image_name());
                            append_str(&mut m, " failed");
                            self.fail(OddOnkeyError::InstallFailed(m))
                        }
                    },
                },
                DockerPhase::CheckRunning => {
                    if DockerManager::is_running_report(&o) {
                        self.phase = DockerPhase::Finished;
                        DockerAction::Finish { result: Ok(()), waited_ms: None }
                    } else {
                        self.run(mgr, DockerCommand::InspectId, DockerPhase::CheckExists)
                    }
                },
                DockerPhase::CheckExists => {
                    if o.is_success() {
                        self.run(mgr, DockerCommand::Start, DockerPhase::StartExisting)
                    } else {
                        self.phase = DockerPhase::FindPort;
                        let (from, to) = mgr.port_range();
                        DockerAction::FindPort { from, to }
                    }
                },
                DockerPhase::StartExisting => match o {
                    CommandOutcome::SpawnFailed(t) => {
                        let mut m = String::from_str("docker start failed: ");
                        append_str(&mut m, t.as_str());
                        self.fail(OddOnkeyError::ServerStartFailed(m))
                    },
                    CommandOutcome::Exited { success, .. } => {
                        if success {
                            self.start_waiting(mgr)
                        } else {
                            self.run(mgr, DockerCommand::RemoveForce, DockerPhase::RemoveBroken)
                        }
                    },
                },
                DockerPhase::RemoveBroken => {
                    self.phase = DockerPhase::FindPort;
                    let (from, to) = mgr.port_range();
                    DockerAction::FindPort { from, to }
                },
                _ => match o {
                    CommandOutcome::SpawnFailed(t) => {
                        let mut m = String::from_str("docker run failed: ");
                        append_str(&mut m, t.as_str());
                        self.fail(OddOnkeyError::ServerStartFailed(m))
                    },
                    CommandOutcome::Exited { success, captured } => {
                        if success {
                            self.start_waiting(mgr)
                        } else {
                            let text = lossy_text(captured.as_slice());
                            let t = trim_str(text.as_str());
                            let mut m = String::from_str("docker run failed: ");
                            append_str(&mut m, t.as_str());
                            self.fail(OddOnkeyError::ServerStartFailed(m))
                        }
                    },
                },
            },
            DockerEvent::PortFound(p) => {
                let port = mgr.chosen_port(p);
                mgr.set_host_port(port);
                self.run(mgr, DockerCommand::Run, DockerPhase::CreateContainer)
            },
            DockerEvent::Probed(ok) => match self.wait.after_probe(ok) {
                WaitStep::Ready { waited_ms } => {
                    self.phase = DockerPhase::Finished;
                    self.wait = ReadinessWait::new();
                    DockerAction::Finish { result: Ok(()), waited_ms: Some(waited_ms) }
                },
                WaitStep::ProbeAgain => {
                    DockerAction::Probe { url: self.url.clone(), delay_ms: PROBE_INTERVAL_MS }
                },
                WaitStep::GaveUp => self.fail(
                    OddOnkeyError::ServerStartFailed(
                        String::from_str("docker container did not respond within 30 s"),
                    ),
                ),
            },
        }
    }
}

} // verus!
