//! A local server bootstrap supervisor.
//!
//! On host start the supervisor locates a runtime interpreter and a server
//! entry script among prioritized candidate directories, chooses an ordered
//! chain of launch strategies, polls the fixed local port for readiness,
//! signals the host UI exactly once when the server is reachable, and owns
//! the spawned process until the host shuts down.
//!
//! Everything here is pure decision logic: the host shell performs the
//! actual filesystem checks, process spawns, network probes and UI calls,
//! and feeds their outcomes back in as events.

use vstd::prelude::*;

pub mod launch;
pub mod locator;
pub mod paths;
pub mod process;
pub mod readiness;
pub mod supervisor;

verus! {

/// The fixed local port the served application listens on.
pub const SERVER_PORT: u16 = 3000;

/// Milliseconds the supervisor waits between readiness probes while polling.
pub const POLL_INTERVAL_MS: u64 = 500;

/// Largest number of readiness probes made after a launch attempt succeeds.
pub const MAX_POLL_ATTEMPTS: u32 = 120;

/// The address the host UI navigates to once the server is ready.
pub fn server_url() -> (s: String)
    ensures
        s@ == "http://localhost:3000"@,
{
    "http://localhost:3000".to_owned()
}

} // verus!
