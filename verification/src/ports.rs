//! Acceptance of the ephemeral port the operating system allocated,
//! and the loopback URL the UI layer connects to.
//!
//! The driver binds a loopback listener on port zero, reads the bound
//! port back, and releases the socket; only the number reaches this
//! module. Between release and the child binding it, another process
//! could claim the port: that rare race is surfaced later by the
//! liveness checks, not prevented here.

use vstd::prelude::*;
use crate::errors::LauncherError;
use crate::text::dec_rep;
use crate::text::u16_to_string;

verus! {

/// Port assumed for an externally managed backend when no launch of
/// our own succeeded.
pub const DEFAULT_BACKEND_PORT: u16 = 8080;

/// The port the UI should address: the allocated one when a launch
/// recorded it, the well-known default otherwise.
pub open spec fn effective_port(port: Option<u16>) -> u16 {
    match port {
        Some(p) => p,
        None => DEFAULT_BACKEND_PORT,
    }
}

/// Accept the port number read back from the listener the driver bound
/// on port zero. A usable port is nonzero: zero means the allocation
/// failed, and every accepted port lies in the valid range.
pub fn accept_allocated_port(port: u16) -> (r: Result<u16, LauncherError>)
    ensures
        match r {
            Ok(p) => p == port && 1 <= p <= 65535,
            Err(e) => e is PortAllocation && port == 0,
        },
{
    if port == 0 {
        Err(LauncherError::PortAllocation)
    } else {
        Ok(port)
    }
}

/// The loopback URL for the backend: the known port when one was
/// recorded, the well-known default otherwise.
pub fn get_backend_url(port: Option<u16>) -> (r: String)
    ensures
        r@ == "http://localhost:"@ + dec_rep(effective_port(port) as nat),
{
    let p = match port {
        Some(p) => p,
        None => DEFAULT_BACKEND_PORT,
    };
    let mut r = String::from_str("http://localhost:");
    let digits = u16_to_string(p);
    r.append(digits.as_str());
    r
}

} // verus!
