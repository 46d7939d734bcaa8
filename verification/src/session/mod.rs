//! The backend-agnostic core: the conversation state of a model handle and its builder.

pub mod builder;
pub mod oddonkey;
