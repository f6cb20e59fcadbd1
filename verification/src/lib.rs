//! Desktop bridge between local panels and a Hermes gateway.

pub mod bridge;
pub mod config;
pub mod ctl;
pub mod daemon;
pub mod desktop;
pub mod hermes;
pub mod http;
pub mod ids;
pub mod ipc;
pub mod json;
pub mod mcp;
pub mod ollama;
pub mod paths;
pub mod text;

pub use config::Config;
