//! Bridge between a task orchestrator and the Codex command-line agent:
//! launch plans for the agent process, and the rules that turn the agent's
//! mixed JSON-lines and free-text output into one typed conversation.

pub mod json;
pub mod text;
pub mod model;
pub mod normalize;
pub mod executor;
pub mod laws;
pub mod session;
pub mod launch;
