//! The harness that drives Google Antigravity: it builds the command line of a turn, folds the
//! events that the agent streams back into the assistant message, and judges how the turn ended.
//!
//! The first turn of a conversation points the agent at the session playbook; later turns go on
//! with the conversation id that the events brought. The agent cannot ask for permission while it
//! runs: what it may do is settled by the flags that it is started with.

pub mod catalog_laws;
pub mod chat;
pub mod command;
pub mod command_laws;
pub mod harness;
pub mod harness_laws;
pub mod json;
pub mod json_laws;
pub mod laws;
pub mod log;
pub mod message_laws;
pub mod models;
pub mod options;
pub mod places;
pub mod stream;
pub mod text;
pub mod text_laws;
pub mod tool_laws;
pub mod tools;
pub mod turn;
pub mod turn_laws;

pub use crate::harness::Antigravity;
