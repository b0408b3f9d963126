//! The process-wide record of the running backend.
//!
//! The driver keeps one `Supervisor` behind a lock and holds the live
//! child handle itself; the record tracks, as plain data, whether a
//! child is currently owned and which port and process id it was given.

use vstd::prelude::*;

verus! {

/// Port and process id of the backend, as recorded at launch. Retained
/// read-only after termination for diagnostics.
#[derive(Debug, Clone, Copy, PartialEq, Eq)]
pub struct BackendInfo {
    /// The TCP port the backend was told to bind.
    pub port: u16,
    /// The platform process identifier, present once spawn succeeded.
    pub pid: Option<u32>,
}

/// What the exit hook must do with the real child handle after a call
/// to [`Supervisor::stop`].
#[derive(Debug, Clone, Copy, PartialEq, Eq)]
pub enum StopAction {
    /// A child was owned: send it the termination signal and reap it.
    KillChild,
    /// No child was owned: nothing to do.
    NoOp,
}

/// The supervisor's record of the current child. `child_present`
/// mirrors ownership of the live process handle, which the driver
/// keeps beside this record: it is true exactly while a spawn has
/// succeeded and no termination has been observed.
pub struct Supervisor {
    info: Option<BackendInfo>,
    child_present: bool,
}

/// How [`Supervisor::stop`] relates the record before the call, the
/// record after it, and the action it hands back: the child is no
/// longer owned, the diagnostic info is retained, and a kill is
/// requested exactly when a child was owned.
pub open spec fn stop_transition(pre: Supervisor, post: Supervisor, action: StopAction) -> bool {
    &&& !post.spec_running()
    &&& post.spec_info() == pre.spec_info()
    &&& (action is KillChild <==> pre.spec_running())
}

impl Supervisor {
    /// A child handle is only recorded together with its launch info.
    pub closed spec fn wf(self) -> bool {
        self.child_present ==> self.info is Some
    }

    /// Whether a live child is currently owned.
    pub closed spec fn spec_running(self) -> bool {
        self.child_present
    }

    /// The recorded launch info, if a launch ever succeeded.
    pub closed spec fn spec_info(self) -> Option<BackendInfo> {
        self.info
    }

    /// The record before any launch: no child, no info.
    pub fn new() -> (s: Self)
        ensures
            s.wf(),
            !s.spec_running(),
            s.spec_info() is None,
    {
        Supervisor { info: None, child_present: false }
    }

    /// Record a successful spawn. The backend is started at most once
    /// per application run, so no child may already be owned.
    pub fn record_launch(&mut self, port: u16, pid: u32)
        requires
            old(self).wf(),
            !old(self).spec_running(),
        ensures
            final(self).wf(),
            final(self).spec_running(),
            final(self).spec_info() == Some(BackendInfo { port, pid: Some(pid) }),
    {
        self.info = Some(BackendInfo { port, pid: Some(pid) });
        self.child_present = true;
    }

    /// The port the running backend was given: `None` before launch
    /// and after termination.
    pub fn current_port(&self) -> (r: Option<u16>)
        requires
            self.wf(),
        ensures
            match r {
                Some(p) => self.spec_running() && self.spec_info() == Some(
                    BackendInfo { port: p, pid: self.spec_info()->Some_0.pid },
                ),
                None => !self.spec_running(),
            },
    {
        if self.child_present {
            match &self.info {
                Some(info) => Some(info.port),
                None => None,
            }
        } else {
            None
        }
    }

    /// Relinquish the child. Idempotent: a kill is requested only when
    /// a child is owned, and a second call with no intervening launch
    /// finds none and is a no-op. Never fails: a rejected kill signal
    /// is the driver's to log, never this record's to surface.
    pub fn stop(&mut self) -> (action: StopAction)
        requires
            old(self).wf(),
        ensures
            final(self).wf(),
            stop_transition(*old(self), *final(self), action),
    {
        if self.child_present {
            self.child_present = false;
            StopAction::KillChild
        } else {
            StopAction::NoOp
        }
    }
}

/// Stopping is idempotent: two stops in a row with no intervening
/// launch leave the record exactly where the first stop left it, and
/// the second requests no kill.
pub proof fn lemma_stop_idempotent(
    s0: Supervisor,
    s1: Supervisor,
    s2: Supervisor,
    a1: StopAction,
    a2: StopAction,
)
    requires
        stop_transition(s0, s1, a1),
        stop_transition(s1, s2, a2),
    ensures
        a2 is NoOp,
        s2.spec_running() == s1.spec_running(),
        s2.spec_info() == s1.spec_info(),
{
}

} // verus!
