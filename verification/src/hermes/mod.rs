//! Hermes platform API: session identity, requests, replies and chat events.

pub mod client;
pub mod session;
pub mod sse;

pub use client::{HermesClient, HermesError};
pub use session::new_desktop_session_id;
