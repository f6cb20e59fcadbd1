//! The MCP server: who may talk to it, and its desktop tools.

pub mod server;
pub mod tools;

pub use tools::DesktopServer;
