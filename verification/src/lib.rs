//! Core of a terminal assistant that turns a natural-language query (or a
//! failed-command diagnosis) into a single runnable shell command by asking
//! one of two language-model backends and extracting a fenced code block
//! from the reply.
//!
//! The crate holds the verified logic: settings key routing, prompt
//! construction, the conversation-context codec, response extraction, and
//! the per-backend decision functions. Network calls, settings persistence
//! and the command-line surface live outside, and hand this crate plain
//! values.

pub mod config;
pub mod digits;
pub mod errors;
pub mod extract;
pub mod keychain;
pub mod llm;
pub mod textutil;
