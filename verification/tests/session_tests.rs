use oddonkey::domain::error::OddOnkeyError;
use oddonkey::{ChatMessage, OddOnkey, OddOnkeyBuilder};

fn msg(role: &str, content: &str) -> ChatMessage {
    ChatMessage { role: role.to_string(), content: content.to_string() }
}

#[test]
fn builder_defaults() {
    let b = OddOnkey::builder("mistral");
    assert_eq!(b.model_name(), "mistral");
    assert_eq!(b.server_url(), "http://127.0.0.1:11434");
    assert!(!b.shows_progress());
    assert!(!b.reports());
    assert!(!b.uses_docker());
    assert!(!b.cleans_up_docker());
}

#[test]
fn builder_setters() {
    let b = OddOnkeyBuilder::new("llama3")
        .base_url("http://localhost:11434///")
        .progress(true)
        .report(true);
    assert_eq!(b.server_url(), "http://localhost:11434");
    assert!(b.shows_progress());
    assert!(b.reports());
    let b = b.base_url("http://x/").base_url("http://y");
    assert_eq!(b.server_url(), "http://y");
    assert_eq!(b.model_name(), "llama3");
}

#[test]
fn base_url_normal_form_on_values() {
    let once = OddOnkeyBuilder::new("m").base_url("http://h:1//");
    let twice = OddOnkeyBuilder::new("m").base_url(once.server_url());
    assert_eq!(once.server_url(), twice.server_url());
    assert_eq!(OddOnkeyBuilder::new("m").base_url("///").server_url(), "");
}

#[test]
fn messages_are_preprompts_then_history_then_prompt() {
    let mut s = OddOnkey::from_settings("mistral".to_string(), false, false);
    s.add_preprompt("You are a pirate.");
    s.add_preprompt("Be brief.");
    s.push_assistant_message("Hi", "Arr!");
    let ms = s.build_messages("Where is the treasure?");
    assert_eq!(
        ms,
        vec![
            msg("system", "You are a pirate."),
            msg("system", "Be brief."),
            msg("user", "Hi"),
            msg("assistant", "Arr!"),
            msg("user", "Where is the treasure?"),
        ]
    );
}

#[test]
fn set_preprompt_replaces_all() {
    let mut s = OddOnkey::from_settings("m".to_string(), false, false);
    s.add_preprompt("a");
    s.add_preprompt("b");
    s.set_preprompt("c");
    assert_eq!(s.build_messages("q"), vec![msg("system", "c"), msg("user", "q")]);
}

#[test]
fn clear_history_keeps_preprompts() {
    let mut s = OddOnkey::from_settings("m".to_string(), false, false);
    s.add_preprompt("sys");
    s.push_assistant_message("u", "a");
    s.clear_history();
    assert_eq!(s.build_messages("q"), vec![msg("system", "sys"), msg("user", "q")]);
}

#[test]
fn followup_extends_previous_conversation() {
    let mut s = OddOnkey::from_settings("m".to_string(), false, false);
    s.add_preprompt("sys");
    let first = s.build_messages("What is the capital of France?");
    s.record_exchange("What is the capital of France?", "Paris.", 1_000_000, 10, 20);
    let second = s.build_messages("And what about Germany?");
    let mut expected = first.clone();
    expected.push(msg("assistant", "Paris."));
    expected.push(msg("user", "And what about Germany?"));
    assert_eq!(second, expected);
}

#[test]
fn one_shot_has_only_the_prompt() {
    assert_eq!(OddOnkey::one_shot_messages("hi"), vec![msg("user", "hi")]);
}

#[test]
fn report_recorded_only_when_enabled() {
    let mut s = OddOnkey::from_settings("mistral".to_string(), false, false);
    s.record_exchange("a b c", "x y", 5_000_000, 42, 50);
    assert!(s.last_report().is_none());
    s.enable_report(true);
    assert!(s.report_enabled());
    s.record_exchange("one two three four", "réponse ici", 1_423_000_000, 245, 390);
    let r = s.last_report().expect("report");
    assert_eq!(r.model, "mistral");
    assert_eq!(r.prompt_tokens_est, 6);
    assert_eq!(r.completion_tokens_est, 3);
    assert_eq!(r.request_bytes, 245);
    assert_eq!(r.response_bytes, 390);
    assert_eq!(r.duration_nanos, 1_423_000_000);
    assert_eq!(r.duration_ms(), 1423);
    s.enable_report(false);
    s.record_exchange("q", "a", 1, 1, 1);
    assert_eq!(s.last_report().expect("kept").request_bytes, 245);
}

#[test]
fn record_exchange_appends_history() {
    let mut s = OddOnkey::from_settings("m".to_string(), true, false);
    assert!(s.shows_progress());
    s.enable_progress(false);
    assert!(!s.shows_progress());
    s.record_exchange("u1", "a1", 0, 0, 0);
    s.record_exchange("u2", "a2", 0, 0, 0);
    assert_eq!(
        s.build_messages("u3"),
        vec![msg("user", "u1"), msg("assistant", "a1"), msg("user", "u2"), msg("assistant", "a2"), msg("user", "u3")]
    );
    assert_eq!(s.model_name(), "m");
}

#[test]
fn embedding_helpers() {
    let owned = OddOnkey::owned_texts(&["hello", "world"]);
    assert_eq!(owned, vec!["hello".to_string(), "world".to_string()]);
    let v = OddOnkey::last_embedding(vec![vec![1.0f32], vec![2.0f32, 3.0]]).expect("vector");
    assert_eq!(v, vec![2.0f32, 3.0]);
    match OddOnkey::last_embedding::<Vec<f32>>(Vec::new()) {
        Err(OddOnkeyError::Parse(m)) => assert_eq!(m, "empty embedding response"),
        other => panic!("unexpected {:?}", other),
    }
}

#[test]
fn error_messages() {
    assert_eq!(OddOnkeyError::InstallFailed("x".into()).message(), "ollama install failed: x");
    assert_eq!(OddOnkeyError::ServerStartFailed("y".into()).message(), "ollama server start failed: y");
    assert_eq!(OddOnkeyError::ModelPullFailed("z".into()).message(), "model pull failed: z");
    assert_eq!(OddOnkeyError::Parse("p".into()).message(), "parse error: p");
}

#[test]
fn http_error_message_carries_the_client_text() {
    let err = reqwest::Client::new().get("not a url").build().expect_err("invalid URL");
    let text = err.to_string();
    let e: OddOnkeyError = err.into();
    let m = e.message();
    assert!(m.starts_with("http error: "));
    assert_eq!(m, format!("http error: {}", text));
}

#[test]
fn builder_docker_options() {
    let b = OddOnkey::builder("mistral").docker(true).docker_gpu(true).docker_port(11500).docker_cleanup(true);
    assert!(b.uses_docker());
    assert!(b.cleans_up_docker());
    let m = b.docker_manager();
    assert_eq!(m.name(), "oddonkey-ollama");
    assert_eq!(m.image_name(), "ollama/ollama");
    assert_eq!(m.port(), 11500);
    assert_eq!(m.base_url(), "http://127.0.0.1:11500");
    assert!(m.persists_models());
    let plain = OddOnkey::builder("mistral").docker(true).docker_manager();
    assert_eq!(plain.port(), 11434);
    assert_eq!(
        plain.command_args(&oddonkey::adapters::docker::manager::DockerCommand::Run),
        vec!["run", "-d", "--name", "oddonkey-ollama", "-p", "11434:11434", "-v", "oddonkey-ollama-data:/root/.ollama", "ollama/ollama"]
    );
    let gpu = OddOnkey::builder("m").docker_gpu(true).docker_manager();
    assert!(gpu.command_args(&oddonkey::adapters::docker::manager::DockerCommand::Run).contains(&"--gpus=all".to_string()));
}

#[test]
fn report_keeps_measured_byte_sizes() {
    let mut s = OddOnkey::from_settings("m".to_string(), false, true);
    s.record_exchange("hi", "hello there", 2_000_000, 120, 345);
    let r = s.last_report().expect("report");
    assert_eq!(r.request_bytes, 120);
    assert_eq!(r.response_bytes, 345);
    assert_eq!(r.duration_ms(), 2);
}

#[test]
fn report_renders_as_printed() {
    let mut s = OddOnkey::from_settings("mistral".to_string(), false, true);
    s.record_exchange("one two three four", "réponse ici", 1_423_999_999, 245, 390);
    let r = s.last_report().expect("report");
    let expected = "── report ──────────────────────────────────\n\
                    model           : mistral\n\
                    duration        : 1423 ms\n\
                    prompt tokens   : ~6 (est.)\n\
                    completion tkns : ~3 (est.)\n\
                    tokens/sec      : 2.1\n\
                    request size    : 245 bytes\n\
                    response size   : 390 bytes\n\
                    ────────────────────────────────────────────";
    assert_eq!(r.render("2.1"), expected);
}
