//! Local IPC: JSON-lines protocol over a Unix domain socket.

pub mod client;
pub mod lines;
pub mod protocol;
pub mod server;
pub mod status;

pub use protocol::{ClientMessage, DaemonMessage, ModelInfo, SessionInfo};
pub use server::Connection;
