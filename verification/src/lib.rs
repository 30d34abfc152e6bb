//! Core engine of a script launcher that resolves a named script against
//! prioritized, git-backed script buckets and prepares it for execution.

pub mod args;
pub mod cache;
pub mod config;
pub mod errors;
pub mod multi_registry;
pub mod script_registry;
pub mod source;
pub mod strutil;
