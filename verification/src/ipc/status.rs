//! Connection status values used in `DaemonMessage::Status`.

use vstd::prelude::*;

verus! {

/// Hermes answers its health probe.
pub const CONNECTED: &'static str = "connected";

/// Hermes does not answer its health probe.
pub const DISCONNECTED: &'static str = "disconnected";

/// The daemon serves requests.
pub const READY: &'static str = "ready";

/// The daemon is coming up.
pub const STARTING: &'static str = "starting";

} // verus!
