//! Well-known names, ports and intervals of discovery and sessions.

use vstd::prelude::*;

verus! {

/// Service type under which peers advertise and browse.
pub const MDNS_SERVICE_TYPE: &'static str = "_sp._udp.local.";

/// Instance name of the advertised service.
pub const MDNS_SERVER_NAME: &'static str = "sp";

/// Default port of the TCP session listener.
pub const DEFAULT_TCP_PORT: u16 = 3457;

/// Default discovery port.
pub const DEFAULT_MDNS_PORT: u16 = 3456;

/// How often a client retries by default.
pub const DEFAULT_CLIENT_RETRY_COUNT: u32 = 5;

/// Connection timeout in seconds.
pub const DEFAULT_CONNECTION_TIMEOUT_SECONDS: u64 = 10;

/// Heartbeat interval in seconds.
pub const DEFAULT_HEARTBEAT_INTERVAL_SECONDS: u64 = 5;

/// Seconds between two polls of the discovery browser.
pub const BROWSE_POLL_INTERVAL_SECONDS: u64 = 1;

/// Seconds between two idle checks of a session.
pub const IDLE_CHECK_INTERVAL_SECONDS: u64 = 1;

/// Seconds without a frame after which a session is idle.
pub const SESSION_IDLE_THRESHOLD_SECONDS: u64 = 120;

} // verus!
