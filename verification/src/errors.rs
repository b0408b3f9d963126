//! The failure modes of the supervisor.

use vstd::prelude::*;

verus! {

/// Everything that can go wrong while starting, probing or stopping
/// the backend. Every variant is recoverable at the application level:
/// the shell keeps running and assumes an externally managed backend.
#[derive(Debug, Clone, PartialEq, Eq)]
pub enum LauncherError {
    /// The operating system refused to hand out a loopback port.
    PortAllocation,
    /// No candidate location held the backend executable; `searched`
    /// lists every path that was tried, in the order it was tried.
    BinaryNotFound { searched: Vec<String> },
    /// The operating system could not create the child process.
    Spawn,
    /// The child exited within the grace period right after spawning;
    /// `status` carries its exit code when the platform reported one.
    ImmediateExit { status: Option<i32> },
    /// The readiness probe exhausted its attempt budget without ever
    /// seeing a success response.
    BackendTimeout,
}

impl LauncherError {
    /// A short stable label for logs and user-facing reporting.
    pub fn kind(&self) -> (r: &'static str)
        ensures
            r@ == match self {
                LauncherError::PortAllocation => "port allocation failed"@,
                LauncherError::BinaryNotFound { .. } => "backend binary not found"@,
                LauncherError::Spawn => "backend process could not be spawned"@,
                LauncherError::ImmediateExit { .. } => "backend process exited immediately"@,
                LauncherError::BackendTimeout => "backend never became ready"@,
            },
    {
        match self {
            LauncherError::PortAllocation => "port allocation failed",
            LauncherError::BinaryNotFound { .. } => "backend binary not found",
            LauncherError::Spawn => "backend process could not be spawned",
            LauncherError::ImmediateExit { .. } => "backend process exited immediately",
            LauncherError::BackendTimeout => "backend never became ready",
        }
    }

    /// The list of paths a failed binary search went through, when this
    /// error is `BinaryNotFound`.
    pub fn searched_paths(&self) -> (r: Option<&Vec<String>>)
        ensures
            match self {
                LauncherError::BinaryNotFound { searched } => r == Some(searched),
                _ => r is None,
            },
    {
        match self {
            LauncherError::BinaryNotFound { searched } => Some(searched),
            _ => None,
        }
    }

    /// The child's exit code, when this error is `ImmediateExit` and
    /// the platform reported a code.
    pub fn exit_status(&self) -> (r: Option<i32>)
        ensures
            match self {
                LauncherError::ImmediateExit { status } => r == status,
                _ => r is None,
            },
    {
        match self {
            LauncherError::ImmediateExit { status } => *status,
            _ => None,
        }
    }
}

} // verus!
