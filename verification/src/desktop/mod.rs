//! The desktop: notifications and screenshots.

pub mod notify;
pub mod png;
pub mod screenshot;
