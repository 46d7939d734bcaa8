use oddonkey::adapters::ollama::client::{endpoint, pull_answer};
use oddonkey::adapters::ollama::installer::{
    InstallAction, InstallCheck, InstallEvent, ServerAction, ServerEvent, ServerStart,
};
use oddonkey::adapters::ollama::pull::{model_is_present, ModelAction, ModelCheck, ModelEvent};
use oddonkey::domain::error::OddOnkeyError;
use oddonkey::OllamaClient;

fn names(v: &[&str]) -> Vec<String> {
    v.iter().map(|s| s.to_string()).collect()
}

#[test]
fn endpoints() {
    assert_eq!(endpoint("http://127.0.0.1:11434", "tags"), "http://127.0.0.1:11434/api/tags");
    let c = OllamaClient::new(reqwest::Client::new(), "http://h:1".to_string());
    assert_eq!(c.base_url(), "http://h:1");
    assert_eq!(c.chat_url(), "http://h:1/api/chat");
    assert_eq!(c.embed_url(), "http://h:1/api/embed");
    assert_eq!(c.tags_url(), "http://h:1/api/tags");
    let _ = c.http_client();
}

#[test]
fn replies_are_judged_by_status() {
    match OllamaClient::accept_reply(200, "{}".to_string()) {
        Ok(b) => assert_eq!(b, "{}"),
        Err(e) => panic!("unexpected {:?}", e),
    }
    match OllamaClient::accept_reply(404, "model not found".to_string()) {
        Err(OddOnkeyError::Parse(m)) => assert_eq!(m, "Ollama returned 404 Not Found: model not found"),
        other => panic!("unexpected {:?}", other),
    }
    match OllamaClient::bad_answer("missing field", "{}") {
        OddOnkeyError::Parse(m) => assert_eq!(m, "missing field – raw: {}"),
        other => panic!("unexpected {:?}", other),
    }
    match OllamaClient::bad_model_list("eof") {
        OddOnkeyError::Parse(m) => assert_eq!(m, "failed to parse model list: eof"),
        other => panic!("unexpected {:?}", other),
    }
    assert!(pull_answer(200, "").is_ok());
    match pull_answer(500, "boom") {
        Err(OddOnkeyError::ModelPullFailed(m)) => assert_eq!(m, "HTTP 500 Internal Server Error: boom"),
        other => panic!("unexpected {:?}", other),
    }
}

#[test]
fn model_presence_compares_full_tags() {
    let local = names(&["mistral:latest", "llama3:8b"]);
    assert!(model_is_present(&local, "mistral"));
    assert!(model_is_present(&local, "mistral:latest"));
    assert!(!model_is_present(&local, "mistral:7b"));
    assert!(!model_is_present(&local, "llama3"));
    assert!(model_is_present(&local, "llama3:8b"));
    assert!(!model_is_present(&local, "llama3:70b"));
    assert!(!model_is_present(&local, "phi3"));
    assert!(!model_is_present(&names(&[]), "mistral"));
    assert!(!model_is_present(&local, "mis"));
    assert!(model_is_present(&names(&["phi3"]), "phi3:latest"));
}

#[test]
fn other_tag_of_listed_model_is_pulled() {
    let (mut m, _) = ModelCheck::new("http://h", "llama3:70b", false);
    match m.step(ModelEvent::Listed(Some(names(&["llama3:8b"])))) {
        ModelAction::Pull { url, stream } => {
            assert_eq!(url, "http://h/api/pull");
            assert!(!stream);
        }
        other => panic!("unexpected {:?}", other),
    }
    assert!(matches!(
        m.step(ModelEvent::PullAnswered { code: 200, body: "{}".to_string() }),
        ModelAction::Finish { result: Ok(()), message: None }
    ));
}

#[test]
fn install_found_at_once() {
    let (mut c, a) = InstallCheck::new();
    assert!(matches!(a, InstallAction::Locate));
    assert!(matches!(c.step(InstallEvent::Located(true)), InstallAction::Finish(Ok(()))));
    assert!(!c.accepts(&InstallEvent::Located(true)));
}

#[test]
fn install_runs_script_then_relocates() {
    assert_eq!(InstallCheck::script(), "curl -fsSL https://ollama.com/install.sh | sh");
    let (mut c, _) = InstallCheck::new();
    assert!(matches!(c.step(InstallEvent::Located(false)), InstallAction::RunInstaller));
    assert!(c.accepts(&InstallEvent::InstallerExited(true)));
    assert!(matches!(c.step(InstallEvent::InstallerExited(true)), InstallAction::Locate));
    match c.step(InstallEvent::Located(false)) {
        InstallAction::Finish(Err(OddOnkeyError::InstallFailed(m))) => {
            assert_eq!(m, "ollama binary not found on PATH after install")
        }
        other => panic!("unexpected {:?}", other),
    }
}

#[test]
fn install_failures() {
    let (mut c, _) = InstallCheck::new();
    c.step(InstallEvent::Located(false));
    match c.step(InstallEvent::InstallerExited(false)) {
        InstallAction::Finish(Err(OddOnkeyError::InstallFailed(m))) => {
            assert_eq!(m, "install script exited with non-zero status")
        }
        other => panic!("unexpected {:?}", other),
    }
    let (mut c, _) = InstallCheck::new();
    c.step(InstallEvent::Located(false));
    match c.step(InstallEvent::InstallerFailedToStart("no sh".to_string())) {
        InstallAction::Finish(Err(OddOnkeyError::InstallFailed(m))) => assert_eq!(m, "no sh"),
        other => panic!("unexpected {:?}", other),
    }
}

#[test]
fn server_already_running() {
    let (mut s, a) = ServerStart::new("http://127.0.0.1:11434");
    match a {
        ServerAction::Probe { url, delay_ms } => {
            assert_eq!(url, "http://127.0.0.1:11434/api/tags");
            assert_eq!(delay_ms, 0);
        }
        other => panic!("unexpected {:?}", other),
    }
    assert!(matches!(
        s.step(ServerEvent::Probed(true)),
        ServerAction::Finish { result: Ok(()), waited_ms: None }
    ));
}

#[test]
fn server_started_and_ready_after_three_probes() {
    let (mut s, _) = ServerStart::new("http://h");
    assert!(matches!(s.step(ServerEvent::Probed(false)), ServerAction::SpawnServer));
    match s.step(ServerEvent::Spawned) {
        ServerAction::Probe { url, delay_ms } => {
            assert_eq!(url, "http://h/api/tags");
            assert_eq!(delay_ms, 500);
        }
        other => panic!("unexpected {:?}", other),
    }
    assert!(matches!(s.step(ServerEvent::Probed(false)), ServerAction::Probe { .. }));
    assert!(matches!(s.step(ServerEvent::Probed(false)), ServerAction::Probe { .. }));
    assert!(matches!(
        s.step(ServerEvent::Probed(true)),
        ServerAction::Finish { result: Ok(()), waited_ms: Some(1500) }
    ));
}

#[test]
fn server_gives_up_after_sixty_probes() {
    let (mut s, _) = ServerStart::new("http://h");
    s.step(ServerEvent::Probed(false));
    s.step(ServerEvent::Spawned);
    for _ in 0..59 {
        assert!(matches!(s.step(ServerEvent::Probed(false)), ServerAction::Probe { .. }));
    }
    match s.step(ServerEvent::Probed(false)) {
        ServerAction::Finish { result: Err(OddOnkeyError::ServerStartFailed(m)), waited_ms: None } => {
            assert_eq!(m, "server did not respond within 30 s")
        }
        other => panic!("unexpected {:?}", other),
    }
    assert!(!s.accepts(&ServerEvent::Probed(true)));
}

#[test]
fn server_spawn_failure() {
    let (mut s, _) = ServerStart::new("http://h");
    s.step(ServerEvent::Probed(false));
    match s.step(ServerEvent::SpawnFailed("not found".to_string())) {
        ServerAction::Finish { result: Err(OddOnkeyError::ServerStartFailed(m)), .. } => assert_eq!(m, "not found"),
        other => panic!("unexpected {:?}", other),
    }
}

#[test]
fn model_already_present() {
    let (mut m, a) = ModelCheck::new("http://h", "mistral", false);
    match a {
        ModelAction::List { url } => assert_eq!(url, "http://h/api/tags"),
        other => panic!("unexpected {:?}", other),
    }
    assert!(matches!(
        m.step(ModelEvent::Listed(Some(names(&["mistral:latest"])))),
        ModelAction::Finish { result: Ok(()), message: None }
    ));
}

#[test]
fn model_pulled_without_progress() {
    let (mut m, _) = ModelCheck::new("http://h", "phi3", false);
    match m.step(ModelEvent::Listed(None)) {
        ModelAction::Pull { url, stream } => {
            assert_eq!(url, "http://h/api/pull");
            assert!(!stream);
        }
        other => panic!("unexpected {:?}", other),
    }
    assert!(matches!(
        m.step(ModelEvent::PullAnswered { code: 200, body: "{}".to_string() }),
        ModelAction::Finish { result: Ok(()), message: None }
    ));
}

#[test]
fn model_pull_refused() {
    let (mut m, _) = ModelCheck::new("http://h", "phi3", false);
    m.step(ModelEvent::Listed(Some(names(&["mistral"]))));
    match m.step(ModelEvent::PullAnswered { code: 404, body: "pull model manifest: file does not exist".to_string() }) {
        ModelAction::Finish { result: Err(OddOnkeyError::ModelPullFailed(t)), .. } => {
            assert_eq!(t, "HTTP 404 Not Found: pull model manifest: file does not exist")
        }
        other => panic!("unexpected {:?}", other),
    }
}

#[test]
fn model_pull_with_progress() {
    let (mut m, _) = ModelCheck::new("http://h", "phi3", true);
    assert_eq!(m.display_state().message, "pulling phi3");
    match m.step(ModelEvent::Listed(Some(Vec::new()))) {
        ModelAction::Pull { stream, .. } => assert!(stream),
        other => panic!("unexpected {:?}", other),
    }
    assert!(matches!(
        m.step(ModelEvent::PullAnswered { code: 200, body: String::new() }),
        ModelAction::ReadChunk
    ));
    let chunk = b"{\"status\":\"pulling manifest\"}\n{\"status\":\"downloading\",\"total\":100,\"completed\":40}\nnot json\n{\"completed\":\"x\"}\n{\"comp";
    assert!(matches!(m.step(ModelEvent::Chunk(chunk.to_vec())), ModelAction::ReadChunk));
    let d = m.display_state();
    assert_eq!(d.length, 100);
    assert_eq!(d.position, 40);
    assert_eq!(d.message, "downloading");
    assert!(matches!(m.step(ModelEvent::Chunk(b"leted\":100}\n".to_vec())), ModelAction::ReadChunk));
    assert_eq!(m.display_state().position, 100);
    match m.step(ModelEvent::StreamEnded) {
        ModelAction::Finish { result: Ok(()), message: Some(t) } => assert_eq!(t, "phi3 ready ✓"),
        other => panic!("unexpected {:?}", other),
    }
}
