//! Ordering from McDonald's China through its MCP server: the prompts, the
//! tool calls they lead to, and the interactive session that drives them.

pub mod text;
pub mod json;
pub mod call;
pub mod session;
pub mod laws;
pub mod command;
pub mod display;
