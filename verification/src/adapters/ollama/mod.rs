//! The Ollama HTTP adapter: endpoints, response checks, the token stream
//! decoder, server start-up and model availability.

pub mod client;
pub mod installer;
pub mod lines;
pub mod pull;
pub mod stream;
