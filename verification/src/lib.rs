//! # OddOnkey
//!
//! The verified core of a small Ollama wrapper: the conversation state of a
//! model handle (pre-prompts, history, per-prompt reports), the decoding of a
//! streamed reply, and the decisions taken while installing Ollama, starting
//! its server, pulling a model or running it in a Docker container.
//!
//! Network and process I/O stay with the caller: every step that needs the
//! outside world is described by an action, and its outcome is handed back
//! as an event.

pub mod adapters;
pub mod domain;
pub mod session;
pub mod text;

pub use crate::adapters::docker::manager::DockerManager;
pub use crate::adapters::ollama::client::OllamaClient;
pub use crate::adapters::ollama::stream::TokenStream;
pub use crate::domain::error::OddOnkeyError;
pub use crate::domain::message::ChatMessage;
pub use crate::domain::report::{PromptReport, estimate_tokens};
pub use crate::session::builder::OddOnkeyBuilder;
pub use crate::session::oddonkey::OddOnkey;
