//! Verified classification, naming and task association of agent tool
//! calls, with the session-store path rules and benchmark statistics.

pub mod signals;
pub mod text;
pub mod tool_kind;
pub mod names;
pub mod json;
pub mod classify;
pub mod session_tool;
pub mod semantic;
pub mod paths;
pub mod snapshot;
pub mod benchmark;
pub mod task_reconciler;
