use oddonkey::adapters::docker::manager::{DockerCommand, Stdio};
use oddonkey::adapters::docker::startup::{DockerAction, DockerEvent, DockerStartup};
use oddonkey::adapters::docker::teardown::{Teardown, TeardownAction};
use oddonkey::adapters::process::CommandOutcome;
use oddonkey::domain::error::OddOnkeyError;
use oddonkey::DockerManager;

fn ok() -> CommandOutcome {
    CommandOutcome::Exited { success: true, captured: Vec::new() }
}

fn failed(out: &str) -> CommandOutcome {
    CommandOutcome::Exited { success: false, captured: out.as_bytes().to_vec() }
}

fn args_of(a: &DockerAction) -> (DockerCommand, Vec<String>) {
    match a {
        DockerAction::Run { command, args } => (*command, args.clone()),
        other => panic!("unexpected {:?}", other),
    }
}

#[test]
fn defaults_and_setters() {
    let m = DockerManager::new();
    assert_eq!(m.name(), "oddonkey-ollama");
    assert_eq!(m.image_name(), "ollama/ollama");
    assert_eq!(m.port(), 11434);
    assert_eq!(m.base_url(), "http://127.0.0.1:11434");
    let m = DockerManager::default().container_name("c").image("img:1").host_port(9000).gpu(true).persist_models(false);
    assert_eq!(m.name(), "c");
    assert_eq!(m.image_name(), "img:1");
    assert_eq!(m.base_url(), "http://127.0.0.1:9000");
}

#[test]
fn command_lines() {
    let m = DockerManager::new();
    assert_eq!(m.command_args(&DockerCommand::Version), vec!["--version"]);
    assert_eq!(m.command_args(&DockerCommand::InspectId), vec!["inspect", "--format", "{{.Id}}", "oddonkey-ollama"]);
    assert_eq!(
        m.command_args(&DockerCommand::InspectRunning),
        vec!["inspect", "--format", "{{.State.Running}}", "oddonkey-ollama"]
    );
    assert_eq!(m.command_args(&DockerCommand::InspectImage), vec!["image", "inspect", "ollama/ollama"]);
    assert_eq!(m.command_args(&DockerCommand::Pull), vec!["pull", "ollama/ollama"]);
    assert_eq!(m.command_args(&DockerCommand::Start), vec!["start", "oddonkey-ollama"]);
    assert_eq!(m.command_args(&DockerCommand::RemoveForce), vec!["rm", "-f", "oddonkey-ollama"]);
    assert_eq!(m.command_args(&DockerCommand::Stop), vec!["stop", "oddonkey-ollama"]);
    assert_eq!(m.command_args(&DockerCommand::RemoveWithVolume), vec!["rm", "-v", "oddonkey-ollama"]);
    assert_eq!(m.command_args(&DockerCommand::RemoveModelVolume), vec!["volume", "rm", "oddonkey-ollama-data"]);
    assert_eq!(
        m.command_args(&DockerCommand::Run),
        vec!["run", "-d", "--name", "oddonkey-ollama", "-p", "11434:11434", "-v", "oddonkey-ollama-data:/root/.ollama", "ollama/ollama"]
    );
    let g = DockerManager::new().persist_models(false).gpu(true).host_port(7);
    assert_eq!(
        g.command_args(&DockerCommand::Run),
        vec!["run", "-d", "--name", "oddonkey-ollama", "-p", "7:11434", "--gpus=all", "ollama/ollama"]
    );
    assert_eq!(DockerCommand::Pull.stdio(), Stdio::Inherit);
    assert_eq!(DockerCommand::Run.stdio(), Stdio::CaptureStderr);
    assert_eq!(DockerCommand::Start.stdio(), Stdio::Quiet);
    assert_eq!(DockerCommand::RemoveModelVolume.stdio(), Stdio::Quiet);
}

#[test]
fn ports() {
    assert_eq!(DockerManager::new().port_range(), (11434, 11534));
    assert_eq!(DockerManager::new().host_port(65500).port_range(), (65500, 65535));
    assert_eq!(DockerManager::new().host_port(9000).port_range(), (9000, 9100));
    let m = DockerManager::new();
    assert_eq!(m.chosen_port(Some(11437)), 11437);
    assert_eq!(m.chosen_port(None), 11434);
}

#[test]
fn verdicts() {
    assert!(DockerManager::version_verdict(ok()).is_ok());
    match DockerManager::version_verdict(CommandOutcome::SpawnFailed("No such file or directory (os error 2)".into())) {
        Err(OddOnkeyError::InstallFailed(m)) => {
            assert_eq!(m, "docker not found – install Docker first: No such file or directory (os error 2)")
        }
        other => panic!("unexpected {:?}", other),
    }
    match DockerManager::version_verdict(failed("")) {
        Err(OddOnkeyError::InstallFailed(m)) => assert_eq!(m, "docker --version failed"),
        other => panic!("unexpected {:?}", other),
    }
    assert!(DockerManager::stop_verdict(ok()).is_ok());
    match DockerManager::stop_verdict(failed("")) {
        Err(OddOnkeyError::ServerStartFailed(m)) => assert_eq!(m, "docker stop exited with non-zero status"),
        other => panic!("unexpected {:?}", other),
    }
    match DockerManager::stop_verdict(CommandOutcome::SpawnFailed("e".into())) {
        Err(OddOnkeyError::ServerStartFailed(m)) => assert_eq!(m, "docker stop failed: e"),
        other => panic!("unexpected {:?}", other),
    }
    assert!(DockerManager::remove_verdict(ok()).is_ok());
    match DockerManager::remove_verdict(failed("")) {
        Err(OddOnkeyError::ServerStartFailed(m)) => assert_eq!(m, "docker rm exited with non-zero status"),
        other => panic!("unexpected {:?}", other),
    }
    match DockerManager::remove_verdict(CommandOutcome::SpawnFailed("e".into())) {
        Err(OddOnkeyError::ServerStartFailed(m)) => assert_eq!(m, "docker rm failed: e"),
        other => panic!("unexpected {:?}", other),
    }
    assert!(DockerManager::is_running_report(&CommandOutcome::Exited { success: true, captured: b"true\n".to_vec() }));
    assert!(!DockerManager::is_running_report(&CommandOutcome::Exited { success: true, captured: b"false\n".to_vec() }));
    assert!(!DockerManager::is_running_report(&CommandOutcome::SpawnFailed("x".into())));
}

#[test]
fn running_container_is_used_as_is() {
    let mut m = DockerManager::new();
    let (mut s, a) = DockerStartup::new(&m);
    assert_eq!(args_of(&a).0, DockerCommand::Version);
    let a = s.step(&mut m, DockerEvent::Ran(ok()));
    assert_eq!(args_of(&a).0, DockerCommand::InspectImage);
    let a = s.step(&mut m, DockerEvent::Ran(ok()));
    assert_eq!(args_of(&a).0, DockerCommand::InspectRunning);
    let a = s.step(&mut m, DockerEvent::Ran(CommandOutcome::Exited { success: true, captured: b"true\n".to_vec() }));
    assert!(matches!(a, DockerAction::Finish { result: Ok(()), waited_ms: None }));
}

#[test]
fn missing_image_is_pulled_and_container_created() {
    let mut m = DockerManager::new();
    let (mut s, _) = DockerStartup::new(&m);
    s.step(&mut m, DockerEvent::Ran(ok()));
    let a = s.step(&mut m, DockerEvent::Ran(failed("")));
    assert_eq!(args_of(&a), (DockerCommand::Pull, vec!["pull".to_string(), "ollama/ollama".to_string()]));
    let a = s.step(&mut m, DockerEvent::Ran(ok()));
    assert_eq!(args_of(&a).0, DockerCommand::InspectRunning);
    let a = s.step(&mut m, DockerEvent::Ran(CommandOutcome::Exited { success: true, captured: b"false".to_vec() }));
    assert_eq!(args_of(&a).0, DockerCommand::InspectId);
    let a = s.step(&mut m, DockerEvent::Ran(failed("")));
    assert!(matches!(a, DockerAction::FindPort { from: 11434, to: 11534 }));
    let a = s.step(&mut m, DockerEvent::PortFound(Some(11436)));
    assert_eq!(m.port(), 11436);
    let (c, args) = args_of(&a);
    assert_eq!(c, DockerCommand::Run);
    assert_eq!(args[5], "11436:11434");
    let a = s.step(&mut m, DockerEvent::Ran(ok()));
    match a {
        DockerAction::Probe { url, delay_ms } => {
            assert_eq!(url, "http://127.0.0.1:11436/api/tags");
            assert_eq!(delay_ms, 500);
        }
        other => panic!("unexpected {:?}", other),
    }
    assert!(matches!(
        s.step(&mut m, DockerEvent::Probed(true)),
        DockerAction::Finish { result: Ok(()), waited_ms: Some(500) }
    ));
}

#[test]
fn broken_container_is_recreated() {
    let mut m = DockerManager::new();
    let (mut s, _) = DockerStartup::new(&m);
    s.step(&mut m, DockerEvent::Ran(ok()));
    s.step(&mut m, DockerEvent::Ran(ok()));
    s.step(&mut m, DockerEvent::Ran(failed("")));
    let a = s.step(&mut m, DockerEvent::Ran(ok()));
    assert_eq!(args_of(&a).0, DockerCommand::Start);
    let a = s.step(&mut m, DockerEvent::Ran(failed("")));
    assert_eq!(args_of(&a).0, DockerCommand::RemoveForce);
    let a = s.step(&mut m, DockerEvent::Ran(failed("")));
    assert!(matches!(a, DockerAction::FindPort { .. }));
    let a = s.step(&mut m, DockerEvent::PortFound(None));
    assert_eq!(m.port(), 11434);
    assert_eq!(args_of(&a).0, DockerCommand::Run);
    match s.step(&mut m, DockerEvent::Ran(failed("  Conflict. The container name is in use.\n"))) {
        DockerAction::Finish { result: Err(OddOnkeyError::ServerStartFailed(t)), .. } => {
            assert_eq!(t, "docker run failed: Conflict. The container name is in use.")
        }
        other => panic!("unexpected {:?}", other),
    }
}

#[test]
fn stopped_container_started_but_silent() {
    let mut m = DockerManager::new();
    let (mut s, _) = DockerStartup::new(&m);
    s.step(&mut m, DockerEvent::Ran(ok()));
    s.step(&mut m, DockerEvent::Ran(ok()));
    s.step(&mut m, DockerEvent::Ran(failed("")));
    s.step(&mut m, DockerEvent::Ran(ok()));
    let a = s.step(&mut m, DockerEvent::Ran(ok()));
    assert!(matches!(a, DockerAction::Probe { .. }));
    for _ in 0..59 {
        assert!(matches!(s.step(&mut m, DockerEvent::Probed(false)), DockerAction::Probe { .. }));
    }
    match s.step(&mut m, DockerEvent::Probed(false)) {
        DockerAction::Finish { result: Err(OddOnkeyError::ServerStartFailed(t)), .. } => {
            assert_eq!(t, "docker container did not respond within 30 s")
        }
        other => panic!("unexpected {:?}", other),
    }
}

#[test]
fn docker_missing_or_pull_failing() {
    let mut m = DockerManager::new();
    let (mut s, _) = DockerStartup::new(&m);
    match s.step(&mut m, DockerEvent::Ran(CommandOutcome::SpawnFailed("x".into()))) {
        DockerAction::Finish { result: Err(OddOnkeyError::InstallFailed(t)), .. } => {
            assert_eq!(t, "docker not found – install Docker first: x")
        }
        other => panic!("unexpected {:?}", other),
    }
    let mut m = DockerManager::new().image("nope/img");
    let (mut s, _) = DockerStartup::new(&m);
    s.step(&mut m, DockerEvent::Ran(ok()));
    s.step(&mut m, DockerEvent::Ran(failed("")));
    match s.step(&mut m, DockerEvent::Ran(failed(""))) {
        DockerAction::Finish { result: Err(OddOnkeyError::InstallFailed(t)), .. } => {
            assert_eq!(t, "docker pull nope/img failed")
        }
        other => panic!("unexpected {:?}", other),
    }
}

fn run_of(a: &TeardownAction) -> (DockerCommand, Vec<String>) {
    match a {
        TeardownAction::Run { command, args } => (*command, args.clone()),
        other => panic!("unexpected {:?}", other),
    }
}

#[test]
fn default_port_is_ollamas_own() {
    let m = DockerManager::new();
    assert_eq!(m.port(), 11434);
    assert_eq!(m.base_url(), "http://127.0.0.1:11434");
    assert!(m.persists_models());
}

#[test]
fn destroy_removes_container_and_model_volume() {
    let m = DockerManager::new();
    let (mut t, a) = Teardown::new(&m);
    assert_eq!(run_of(&a), (DockerCommand::Stop, vec!["stop".to_string(), "oddonkey-ollama".to_string()]));
    assert!(t.is_running());
    // a failed stop is ignored
    let a = t.step(&m, failed(""));
    assert_eq!(run_of(&a).0, DockerCommand::RemoveWithVolume);
    let a = t.step(&m, ok());
    assert_eq!(
        run_of(&a),
        (DockerCommand::RemoveModelVolume, vec!["volume".to_string(), "rm".to_string(), "oddonkey-ollama-data".to_string()])
    );
    let a = t.step(&m, ok());
    assert!(matches!(a, TeardownAction::Finish(Ok(()))));
    assert!(!t.is_running());
}

#[test]
fn destroy_without_persisted_models_keeps_no_volume_step() {
    let m = DockerManager::new().persist_models(false).container_name("x");
    let (mut t, _) = Teardown::new(&m);
    let a = t.step(&m, ok());
    assert_eq!(run_of(&a), (DockerCommand::RemoveWithVolume, vec!["rm".to_string(), "-v".to_string(), "x".to_string()]));
    assert!(matches!(t.step(&m, ok()), TeardownAction::Finish(Ok(()))));
    assert!(!t.is_running());
}

#[test]
fn destroy_failures() {
    let m = DockerManager::new();
    let (mut t, _) = Teardown::new(&m);
    t.step(&m, ok());
    match t.step(&m, failed("")) {
        TeardownAction::Finish(Err(OddOnkeyError::ServerStartFailed(s))) => assert_eq!(s, "docker rm exited with non-zero status"),
        other => panic!("unexpected {:?}", other),
    }
    let (mut t, _) = Teardown::new(&m);
    t.step(&m, ok());
    t.step(&m, ok());
    match t.step(&m, failed("")) {
        TeardownAction::Finish(Err(OddOnkeyError::ServerStartFailed(s))) => {
            assert_eq!(s, "docker volume rm exited with non-zero status")
        }
        other => panic!("unexpected {:?}", other),
    }
    assert!(DockerManager::volume_verdict(ok()).is_ok());
    match DockerManager::volume_verdict(CommandOutcome::SpawnFailed("e".into())) {
        Err(OddOnkeyError::ServerStartFailed(s)) => assert_eq!(s, "docker volume rm failed: e"),
        other => panic!("unexpected {:?}", other),
    }
}
