//! Decisions of the placeholder page server: which local port to try when
//! probing for a free one, and the countdown shown to a client while the
//! backend cold-starts. The server itself (binding, serving the page) lives
//! outside the library; it is started once and reused across cold starts.

use vstd::prelude::*;

verus! {

/// The first port the placeholder server tries to bind.
pub const PROBE_BASE_PORT: u16 = 3000;

/// The next candidate port to try after `port` could not be bound, probing
/// upward one port at a time. `None` once the port space is exhausted, at
/// which point the probe gives up instead of retrying forever.
pub fn next_probe_port(port: u16) -> (r: Option<u16>)
    ensures
        port < u16::MAX ==> r == Some((port + 1) as u16),
        port == u16::MAX ==> r is None,
{
    if port < u16::MAX {
        Some(port + 1)
    } else {
        None
    }
}

/// The cold-start countdown shown on the placeholder page, in milliseconds,
/// from the configured grace period in seconds.
pub fn countdown_millis(load: u8) -> (ms: u32)
    ensures
        ms == 1000 * load as u32,
{
    1000u32 * (load as u32)
}

} // verus!
