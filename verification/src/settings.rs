//! The server's fixed settings.

use vstd::prelude::*;

verus! {

/// How long an alert is kept, in seconds: two days.
pub const ALERT_EXPIRE_SECS: u64 = 3600 * 48;

/// How long a spot is kept, in seconds: two days.
pub const SPOT_EXPIRE_SECS: u64 = 3600 * 48;

/// The port the server listens on, on the loopback interface.
pub const LISTEN_PORT: u16 = 8080;

} // verus!
