//! What the backend is launched with, and the judgement on whether the
//! freshly spawned child stayed up.
//!
//! Spawning itself is the driver's: it runs the plan built here with
//! inherited standard streams, waits the short grace period, queries
//! the child's exit status without blocking, and hands the observation
//! back for assessment.

use vstd::prelude::*;
use crate::errors::LauncherError;
use crate::text::dec_rep;
use crate::text::u16_to_string;

verus! {

/// How long the driver waits after spawn before concluding the child
/// "stayed up", in milliseconds.
pub const STARTUP_GRACE_MS: u64 = 1000;

/// The origin patterns the backend's own access-control layer must
/// accept: the shell's custom URI schemes and the local dev origins.
pub open spec fn spec_allowed_origins() -> Seq<char> {
    "tauri://*,taur://*,app://*,http://localhost:1420,http://localhost:*,https://*"@
}

/// A spawn request: the program to run and the exact environment
/// variables to inject.
pub struct LaunchPlan {
    /// Path of the backend executable.
    pub program: String,
    /// Environment variables, as (name, value) pairs.
    pub env: Vec<(String, String)>,
}

/// What the driver observed when it queried the child's exit status
/// after the grace period.
#[derive(Debug, Clone, Copy, PartialEq, Eq)]
pub enum ChildStatus {
    /// The child had not exited.
    Running,
    /// The child had already exited; `code` is its exit code when the
    /// platform reported one.
    Exited { code: Option<i32> },
}

/// Build the spawn request for the backend: run `program` with `PORT`
/// set to the allocated port in decimal and the origin allow-list set
/// for the shell's UI origins.
pub fn build_launch_plan(program: String, port: u16) -> (p: LaunchPlan)
    ensures
        p.program == program,
        p.env@.len() == 2,
        p.env@[0].0@ == "PORT"@,
        p.env@[0].1@ == dec_rep(port as nat),
        p.env@[1].0@ == "WHODB_ALLOWED_ORIGINS"@,
        p.env@[1].1@ == spec_allowed_origins(),
{
    let mut env: Vec<(String, String)> = Vec::new();
    env.push((String::from_str("PORT"), u16_to_string(port)));
    env.push(
        (
            String::from_str("WHODB_ALLOWED_ORIGINS"),
            String::from_str(
                "tauri://*,taur://*,app://*,http://localhost:1420,http://localhost:*,https://*",
            ),
        ),
    );
    LaunchPlan { program, env }
}

/// Judge the spawn from the grace-period observation: a child that
/// already exited is never considered running, even though the spawn
/// call itself succeeded.
pub fn assess_immediate(status: &ChildStatus) -> (r: Result<(), LauncherError>)
    ensures
        match *status {
            ChildStatus::Running => r is Ok,
            ChildStatus::Exited { code } => r == Err::<(), LauncherError>(
                LauncherError::ImmediateExit { status: code },
            ),
        },
{
    match status {
        ChildStatus::Running => Ok(()),
        ChildStatus::Exited { code } => Err(LauncherError::ImmediateExit { status: *code }),
    }
}

} // verus!
