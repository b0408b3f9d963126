//! A local process supervisor for a companion backend executable.
//!
//! The supervisor locates the backend binary across development and
//! packaged layouts, allocates it an ephemeral port, prepares the
//! environment it is launched with, judges whether the freshly spawned
//! child stayed up, drives a bounded readiness probe, and keeps the
//! process-wide record of the running child so that lifecycle hooks can
//! tear it down exactly once.
//!
//! All operating-system effects (binding sockets, probing the
//! filesystem, spawning and killing processes, HTTP requests) live in
//! the surrounding driver; this library holds the decisions and the
//! data, each with a contract.

use vstd::prelude::*;

pub mod errors;
pub mod launch;
pub mod probe;
pub mod locate;
pub mod ports;
pub mod text;
pub mod supervisor;

verus! {

/// Greeting used by the shell's demonstration command.
pub fn greet(name: &str) -> (r: String)
    ensures
        r@ == "Hello, "@ + name@ + "! You've been greeted from Rust!"@,
{
    let mut r = String::new();
    r.append("Hello, ");
    r.append(name);
    r.append("! You've been greeted from Rust!");
    r
}

} // verus!
