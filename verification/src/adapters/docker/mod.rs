//! Running Ollama inside a Docker container.

pub mod manager;
pub mod startup;
pub mod teardown;
