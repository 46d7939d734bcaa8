//! Pure value objects: errors, chat messages and per-prompt reports.

pub mod error;
pub mod message;
pub mod report;
