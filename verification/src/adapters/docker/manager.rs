//! The settings of the Ollama container and the `docker` command lines that
//! act on it.

use vstd::prelude::*;
use crate::adapters::process::CommandOutcome;
use crate::domain::error::OddOnkeyError;
use crate::text::{decimal, decimal_string, append_str, lossy_text, utf8_lossy, trim, trim_str};

verus! {

/// The default container name.
pub open spec fn default_container_name() -> Seq<char> {
    "oddonkey-ollama"@
}

/// The default image.
pub open spec fn default_image() -> Seq<char> {
    "ollama/ollama"@
}

/// The default host port.
pub const DEFAULT_HOST_PORT: u16 = 11434;

/// The abstract settings of a [`DockerManager`].
pub struct DockerView {
    pub container_name: Seq<char>,
    pub image: Seq<char>,
    pub host_port: u16,
    pub persist_models: bool,
    pub gpu: bool,
}

/// Manages the lifecycle of an Ollama Docker container.
#[derive(Debug)]
pub struct DockerManager {
    container_name: String,
    image: String,
    host_port: u16,
    persist_models: bool,
    gpu: bool,
}

impl View for DockerManager {
    type V = DockerView;

    closed spec fn view(&self) -> DockerView {
        DockerView {
            container_name: self.container_name@,
            image: self.image@,
            host_port: self.host_port,
            persist_models: self.persist_models,
            gpu: self.gpu,
        }
    }
}

/// The `docker` invocations the library makes.
#[derive(Debug, Clone, Copy, PartialEq, Eq)]
pub enum DockerCommand {
    /// `docker --version`.
    Version,
    /// `docker inspect --format {{.Id}} <container>`: does the container exist?
    InspectId,
    /// `docker inspect --format {{.State.Running}} <container>`: is it running?
    InspectRunning,
    /// `docker image inspect <image>`: is the image present?
    InspectImage,
    /// `docker pull <image>`.
    Pull,
    /// `docker start <container>`.
    Start,
    /// `docker rm -f <container>`.
    RemoveForce,
    /// `docker run -d ...`: create and start the container.
    Run,
    /// `docker stop <container>`.
    Stop,
    /// `docker rm -v <container>`: remove the container and its anonymous volumes.
    RemoveWithVolume,
    /// `docker volume rm <container>-data`: remove the named model volume.
    RemoveModelVolume,
}

/// What the caller does with a command's standard streams.
#[derive(Debug, Clone, Copy, PartialEq, Eq)]
pub enum Stdio {
    /// Both discarded; only the exit status matters.
    Quiet,
    /// Both shown to the user.
    Inherit,
    /// Standard output captured (and handed back), standard error discarded.
    CaptureStdout,
    /// Standard error captured (and handed back), standard output discarded.
    CaptureStderr,
}

/// The streams each command runs with.
pub open spec fn spec_stdio(c: DockerCommand) -> Stdio {
    match c {
        DockerCommand::Version | DockerCommand::InspectRunning => Stdio::CaptureStdout,
        DockerCommand::Pull => Stdio::Inherit,
        DockerCommand::Run => Stdio::CaptureStderr,
        _ => Stdio::Quiet,
    }
}

impl DockerCommand {
    /// The streams the command runs with.
    pub fn stdio(&self) -> (s: Stdio)
        ensures
            s == spec_stdio(*self),
    {
        match self {
            DockerCommand::Version | DockerCommand::InspectRunning => Stdio::CaptureStdout,
            DockerCommand::Pull => Stdio::Inherit,
            DockerCommand::Run => Stdio::CaptureStderr,
            _ => Stdio::Quiet,
        }
    }
}

/// The port mapping of the container: host port to Ollama's 11434.
pub open spec fn port_mapping(port: u16) -> Seq<char> {
    decimal(port as nat) + ":11434"@
}

/// The name of the volume keeping pulled models across restarts.
pub open spec fn model_volume_name(name: Seq<char>) -> Seq<char> {
    name + "-data"@
}

/// The mount of the model volume: the volume, then where Ollama keeps models.
pub open spec fn model_volume(name: Seq<char>) -> Seq<char> {
    model_volume_name(name) + ":/root/.ollama"@
}

/// The arguments of `docker run` for the container.
pub open spec fn run_arguments(m: DockerView) -> Seq<Seq<char>> {
    seq!["run"@, "-d"@, "--name"@, m.container_name, "-p"@, port_mapping(m.host_port)] + (if m.persist_models {
        seq!["-v"@, model_volume(m.container_name)]
    } else {
        Seq::empty()
    }) + (if m.gpu {
        seq!["--gpus=all"@]
    } else {
        Seq::empty()
    }) + seq![m.image]
}

/// The arguments (after `docker`) of each command.
pub open spec fn command_line(m: DockerView, c: DockerCommand) -> Seq<Seq<char>> {
    match c {
        DockerCommand::Version => seq!["--version"@],
        DockerCommand::InspectId => seq!["inspect"@, "--format"@, "{{.Id}}"@, m.container_name],
        DockerCommand::InspectRunning => seq![
            "inspect"@,
            "--format"@,
            "{{.State.Running}}"@,
            m.container_name,
        ],
        DockerCommand::InspectImage => seq!["image"@, "inspect"@, m.image],
        DockerCommand::Pull => seq!["pull"@, m.image],
        DockerCommand::Start => seq!["start"@, m.container_name],
        DockerCommand::RemoveForce => seq!["rm"@, "-f"@, m.container_name],
        DockerCommand::Run => run_arguments(m),
        DockerCommand::Stop => seq!["stop"@, m.container_name],
        DockerCommand::RemoveWithVolume => seq!["rm"@, "-v"@, m.container_name],
        DockerCommand::RemoveModelVolume => seq!["volume"@, "rm"@, model_volume_name(m.container_name)],
    }
}

/// The abstract contents of a list of arguments.
pub open spec fn args_view(v: Seq<String>) -> Seq<Seq<char>> {
    v.map_values(|s: String| s@)
}

/// Whether the output of `docker inspect --format {{.State.Running}}` says
/// the container runs.
pub open spec fn reports_running(stdout: Seq<u8>) -> bool {
    trim(utf8_lossy(stdout)) == "true"@
}

fn push_arg(v: &mut Vec<String>, s: &str)
    ensures
        args_view(final(v)@) == args_view(old(v)@).push(s@),
{
    let ghost before = v@;
    let a = String::from_str(s);
    v.push(a);
    assert(args_view(v@) =~= args_view(before).push(a@));
}

fn push_string(v: &mut Vec<String>, s: String)
    ensures
        args_view(final(v)@) == args_view(old(v)@).push(s@),
{
    let ghost before = v@;
    let ghost t = s@;
    v.push(s);
    assert(args_view(v@) =~= args_view(before).push(t));
}

/// `a + b`.
fn joined(a: &str, b: &str) -> (r: String)
    ensures
        r@ == a@ + b@,
{
    let mut r = String::from_str(a);
    append_str(&mut r, b);
    r
}

impl DockerManager {
    /// A manager with the default settings: container `oddonkey-ollama`,
    /// image `ollama/ollama`, host port 11434, models persisted, no GPU.
    pub fn new() -> (m: Self)
        ensures
            m@ == (DockerView {
                container_name: default_container_name(),
                image: default_image(),
                host_port: DEFAULT_HOST_PORT,
                persist_models: true,
                gpu: false,
            }),
    {
        DockerManager {
            container_name: String::from_str("oddonkey-ollama"),
            image: String::from_str("ollama/ollama"),
            host_port: DEFAULT_HOST_PORT,
            persist_models: true,
            gpu: false,
        }
    }

    /// Use a custom container name.
    pub fn container_name(self, name: &str) -> (m: Self)
        ensures
            m@ == (DockerView { container_name: name@, ..self@ }),
    {
        DockerManager { container_name: String::from_str(name), ..self }
    }

    /// Use a custom Docker image.
    pub fn image(self, image: &str) -> (m: Self)
        ensures
            m@ == (DockerView { image: image@, ..self@ }),
    {
        DockerManager { image: String::from_str(image), ..self }
    }

    /// Map to a different host port.
    pub fn host_port(self, port: u16) -> (m: Self)
        ensures
            m@ == (DockerView { host_port: port, ..self@ }),
    {
        DockerManager { host_port: port, ..self }
    }

    /// Whether to persist pulled models across container restarts via a
    /// Docker volume.
    pub fn persist_models(self, on: bool) -> (m: Self)
        ensures
            m@ == (DockerView { persist_models: on, ..self@ }),
    {
        DockerManager { persist_models: on, ..self }
    }

    /// Enable GPU passthrough (`--gpus=all`).
    pub fn gpu(self, on: bool) -> (m: Self)
        ensures
            m@ == (DockerView { gpu: on, ..self@ }),
    {
        DockerManager { gpu: on, ..self }
    }

    /// Use `port` as the host port from now on.
    pub fn set_host_port(&mut self, port: u16)
        ensures
            final(self)@ == (DockerView { host_port: port, ..old(self)@ }),
    {
        self.host_port = port;
    }

    /// The name of the container.
    pub fn name(&self) -> (r: &str)
        ensures
            r@ == self@.container_name,
    {
        self.container_name.as_str()
    }

    /// The image of the container.
    pub fn image_name(&self) -> (r: &str)
        ensures
            r@ == self@.image,
    {
        self.image.as_str()
    }

    /// The host port of the container.
    pub fn port(&self) -> (r: u16)
        ensures
            r == self@.host_port,
    {
        self.host_port
    }

    /// The base URL the containerised Ollama will be reachable at.
    pub fn base_url(&self) -> (r: String)
        ensures
            r@ == "http://127.0.0.1:"@ + decimal(self@.host_port as nat),
    {
        let mut r = String::from_str("http://127.0.0.1:");
        let p = decimal_string(self.host_port as u64);
        append_str(&mut r, p.as_str());
        r
    }

    /// The arguments (after `docker`) of `command` for this container.
    pub fn command_args(&self, command: &DockerCommand) -> (v: Vec<String>)
        ensures
            args_view(v@) == command_line(self@, *command),
    {
        let mut v: Vec<String> = Vec::new();
        match command {
            DockerCommand::Version => {
                push_arg(&mut v, "--version");
            },
            DockerCommand::InspectId => {
                push_arg(&mut v, "inspect");
                push_arg(&mut v, "--format");
                push_arg(&mut v, "{{.Id}}");
                push_arg(&mut v, self.container_name.as_str());
            },
            DockerCommand::InspectRunning => {
                push_arg(&mut v, "inspect");
                push_arg(&mut v, "--format");
                push_arg(&mut v, "{{.State.Running}}");
                push_arg(&mut v, self.container_name.as_str());
            },
            DockerCommand::InspectImage => {
                push_arg(&mut v, "image");
                push_arg(&mut v, "inspect");
                push_arg(&mut v, self.image.as_str());
            },
            DockerCommand::Pull => {
                push_arg(&mut v, "pull");
                push_arg(&mut v, self.image.as_str());
            },
            DockerCommand::Start => {
                push_arg(&mut v, "start");
                push_arg(&mut v, self.container_name.as_str());
            },
            DockerCommand::RemoveForce => {
                push_arg(&mut v, "rm");
                push_arg(&mut v, "-f");
                push_arg(&mut v, self.container_name.as_str());
            },
            DockerCommand::Run => {
                push_arg(&mut v, "run");
                push_arg(&mut v, "-d");
                push_arg(&mut v, "--name");
                push_arg(&mut v, self.container_name.as_str());
                push_arg(&mut v, "-p");
                let p = decimal_string(self.host_port as u64);
                push_string(&mut v, joined(p.as_str(), ":11434"));
                let ghost head = args_view(v@);
                if self.persist_models {
                    push_arg(&mut v, "-v");
                    let vol = joined(self.container_name.as_str(), "-data");
                    push_string(&mut v, joined(vol.as_str(), ":/root/.ollama"));
                }
                let ghost mid = args_view(v@);
                if self.gpu {
                    push_arg(&mut v, "--gpus=all");
                }
                let ghost tail = args_view(v@);
                push_arg(&mut v, self.image.as_str());
                assert(args_view(v@) =~= run_arguments(self@));
            },
            DockerCommand::Stop => {
                push_arg(&mut v, "stop");
                push_arg(&mut v, self.container_name.as_str());
            },
            DockerCommand::RemoveWithVolume => {
                push_arg(&mut v, "rm");
                push_arg(&mut v, "-v");
                push_arg(&mut v, self.container_name.as_str());
            },
            DockerCommand::RemoveModelVolume => {
                push_arg(&mut v, "volume");
                push_arg(&mut v, "rm");
                push_string(&mut v, joined(self.container_name.as_str(), "-data"));
            },
        }
        assert(args_view(v@) =~= command_line(self@, *command));
        v
    }

    /// The ports tried for a new container, both ends included: the
    /// configured one and then the next hundred (fewer near the top of the
    /// port range).
    pub fn port_range(&self) -> (r: (u16, u16))
        ensures
            r.0 == self@.host_port,
            r.1 == if self@.host_port + 100 > u16::MAX { u16::MAX as int } else { self@.host_port
                + 100 },
    {
        (self.host_port, self.host_port.saturating_add(100))
    }

    /// The port a new container uses: the first free one found, else the
    /// configured one (and Docker reports the clash).
    pub fn chosen_port(&self, first_free: Option<u16>) -> (p: u16)
        ensures
            p == match first_free {
                Some(f) => f,
                None => self@.host_port,
            },
    {
        match first_free {
            Some(f) => f,
            None => self.host_port,
        }
    }

    /// Whether `docker inspect --format {{.State.Running}}` said the
    /// container runs.
    pub fn is_running_report(outcome: &CommandOutcome) -> (r: bool)
        ensures
            r == match outcome {
                CommandOutcome::SpawnFailed(_) => false,
                CommandOutcome::Exited { captured, .. } => reports_running(captured@),
            },
    {
        match outcome {
            CommandOutcome::SpawnFailed(_) => false,
            CommandOutcome::Exited { captured, .. } => {
                let text = lossy_text(captured.as_slice());
                let t = trim_str(text.as_str());
                let expected = String::from_str("true");
                t == expected
            },
        }
    }

    /// The verdict on `docker --version`: Docker is usable when it ran and
    /// succeeded.
    pub fn version_verdict(outcome: CommandOutcome) -> (r: Result<(), OddOnkeyError>)
        ensures
            match outcome {
                CommandOutcome::SpawnFailed(e) => r matches Err(OddOnkeyError::InstallFailed(m)) && m@
                    == "docker not found – install Docker first: "@ + e@,
                CommandOutcome::Exited { success, .. } => if success {
                    r is Ok
                } else {
                    r matches Err(OddOnkeyError::InstallFailed(m)) && m@ == "docker --version failed"@
                },
            },
    {
        match outcome {
            CommandOutcome::SpawnFailed(e) => Err(
                OddOnkeyError::InstallFailed(
                    joined("docker not found – install Docker first: ", e.as_str()),
                ),
            ),
            CommandOutcome::Exited { success, .. } => if success {
                Ok(())
            } else {
                Err(OddOnkeyError::InstallFailed(String::from_str("docker --version failed")))
            },
        }
    }

    /// The verdict on `docker stop`.
    pub fn stop_verdict(outcome: CommandOutcome) -> (r: Result<(), OddOnkeyError>)
        ensures
            match outcome {
                CommandOutcome::SpawnFailed(e) => r matches Err(OddOnkeyError::ServerStartFailed(m))
                    && m@ == "docker stop failed: "@ + e@,
                CommandOutcome::Exited { success, .. } => if success {
                    r is Ok
                } else {
                    r matches Err(OddOnkeyError::ServerStartFailed(m)) && m@
                        == "docker stop exited with non-zero status"@
                },
            },
    {
        match outcome {
            CommandOutcome::SpawnFailed(e) => Err(
                OddOnkeyError::ServerStartFailed(joined("docker stop failed: ", e.as_str())),
            ),
            CommandOutcome::Exited { success, .. } => if success {
                Ok(())
            } else {
                Err(
                    OddOnkeyError::ServerStartFailed(
                        String::from_str("docker stop exited with non-zero status"),
                    ),
                )
            },
        }
    }

    /// The verdict on `docker rm -v`; the `docker stop` before it is ignored.
    pub fn remove_verdict(outcome: CommandOutcome) -> (r: Result<(), OddOnkeyError>)
        ensures
            match outcome {
                CommandOutcome::SpawnFailed(e) => r matches Err(OddOnkeyError::ServerStartFailed(m))
                    && m@ == "docker rm failed: "@ + e@,
                CommandOutcome::Exited { success, .. } => if success {
                    r is Ok
                } else {
                    r matches Err(OddOnkeyError::ServerStartFailed(m)) && m@
                        == "docker rm exited with non-zero status"@
                },
            },
    {
        match outcome {
            CommandOutcome::SpawnFailed(e) => Err(
                OddOnkeyError::ServerStartFailed(joined("docker rm failed: ", e.as_str())),
            ),
            CommandOutcome::Exited { success, .. } => if success {
                Ok(())
            } else {
                Err(
                    OddOnkeyError::ServerStartFailed(
                        String::from_str("docker rm exited with non-zero status"),
                    ),
                )
            },
        }
    }
}

impl DockerManager {
    /// The verdict on `docker volume rm` of the model volume.
    pub fn volume_verdict(outcome: CommandOutcome) -> (r: Result<(), OddOnkeyError>)
        ensures
            match outcome {
                CommandOutcome::SpawnFailed(e) => r matches Err(OddOnkeyError::ServerStartFailed(m))
                    && m@ == "docker volume rm failed: "@ + e@,
                CommandOutcome::Exited { success, .. } => if success {
                    r is Ok
                } else {
                    r matches Err(OddOnkeyError::ServerStartFailed(m)) && m@
                        == "docker volume rm exited with non-zero status"@
                },
            },
    {
        match outcome {
            CommandOutcome::SpawnFailed(e) => Err(
                OddOnkeyError::ServerStartFailed(joined("docker volume rm failed: ", e.as_str())),
            ),
            CommandOutcome::Exited { success, .. } => if success {
                Ok(())
            } else {
                Err(
                    OddOnkeyError::ServerStartFailed(
                        String::from_str("docker volume rm exited with non-zero status"),
                    ),
                )
            },
        }
    }

    /// Whether pulled models are kept in the named volume.
    pub fn persists_models(&self) -> (r: bool)
        ensures
            r == self@.persist_models,
    {
        self.persist_models
    }
}

impl Default for DockerManager {
    fn default() -> (m: Self)
        ensures
            m@ == (DockerView {
                container_name: default_container_name(),
                image: default_image(),
                host_port: DEFAULT_HOST_PORT,
                persist_models: true,
                gpu: false,
            }),
    {
        Self::new()
    }
}

/// Pulled models persist by default: a container created with the default
/// settings, on whatever port, mounts the model volume named after it.
pub proof fn lemma_models_persist_by_default(port: u16)
    ensures
        command_line(
            DockerView {
                container_name: default_container_name(),
                image: default_image(),
                host_port: port,
                persist_models: true,
                gpu: false,
            },
            DockerCommand::Run,
        ).contains(model_volume(default_container_name())),
{
    let args = command_line(
        DockerView {
            container_name: default_container_name(),
            image: default_image(),
            host_port: port,
            persist_models: true,
            gpu: false,
        },
        DockerCommand::Run,
    );
    assert(args[7] == model_volume(default_container_name()));
}

/// Every command on the container names the configured container (and the
/// image commands the configured image), whatever the settings: `docker stop`
/// is exactly `stop <name>`, the inspections, start and removals end with
/// `<name>`, and the model volume removed is `<name>-data`.
pub proof fn lemma_commands_name_the_container(m: DockerView)
    ensures
        command_line(m, DockerCommand::Stop) == seq!["stop"@, m.container_name],
        command_line(m, DockerCommand::RemoveWithVolume) == seq!["rm"@, "-v"@, m.container_name],
        command_line(m, DockerCommand::Start).last() == m.container_name,
        command_line(m, DockerCommand::InspectId).last() == m.container_name,
        command_line(m, DockerCommand::InspectRunning).last() == m.container_name,
        command_line(m, DockerCommand::RemoveForce).last() == m.container_name,
        command_line(m, DockerCommand::RemoveModelVolume).last() == m.container_name + "-data"@,
        command_line(m, DockerCommand::Pull).last() == m.image,
        command_line(m, DockerCommand::InspectImage).last() == m.image,
{
}

/// `docker run` mounts the model volume whenever models are persisted, and asks
/// for the GPUs whenever the GPU is on, each independently of the other: the
/// arguments hold the name and port mapping in place, `-v <name>-data:/root/.ollama`
/// right after them when models persist, `--gpus=all` just before the image
/// when the GPU is on, and the image last.
pub proof fn lemma_run_mounts_volume_and_gpu_independently(m: DockerView)
    ensures
        command_line(m, DockerCommand::Run).len() == 7 + (if m.persist_models { 2int } else { 0 }) + (
        if m.gpu { 1int } else { 0 }),
        command_line(m, DockerCommand::Run)[3] == m.container_name,
        command_line(m, DockerCommand::Run)[5] == decimal(m.host_port as nat) + ":11434"@,
        m.persist_models ==> command_line(m, DockerCommand::Run)[6] == "-v"@ && command_line(
            m,
            DockerCommand::Run,
        )[7] == m.container_name + "-data:/root/.ollama"@,
        m.gpu ==> command_line(m, DockerCommand::Run)[command_line(m, DockerCommand::Run).len() - 2]
            == "--gpus=all"@,
        command_line(m, DockerCommand::Run).last() == m.image,
{
    reveal_strlit("-data");
    reveal_strlit(":/root/.ollama");
    reveal_strlit("-data:/root/.ollama");
    assert(model_volume(m.container_name) =~= m.container_name + "-data:/root/.ollama"@);
}

} // verus!
