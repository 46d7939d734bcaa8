//! The decisions of the Ollama and Docker adapters.  The processes, sockets
//! and HTTP requests they decide about are run by the caller.

pub mod docker;
pub mod process;
pub mod wait;
pub mod ollama;
