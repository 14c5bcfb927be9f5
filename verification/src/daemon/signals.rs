//! Shutdown / reload request flags.
//!
//! SIGTERM and SIGINT request a graceful shutdown; SIGHUP requests a reload.
//! The application owns one `SignalFlags` behind its signal handlers; these
//! methods are the flag logic.
use vstd::prelude::*;

verus! {

/// Pending shutdown and reload requests.
#[derive(Debug, Clone, Copy, PartialEq, Eq, Default)]
pub struct SignalFlags {
    /// A shutdown has been requested (SIGTERM, SIGINT or programmatically).
    pub shutdown: bool,
    /// A reload has been requested (SIGHUP) and not yet taken.
    pub reload: bool,
}

impl SignalFlags {
    /// No request pending.
    pub fn new() -> (r: Self)
        ensures
            !r.shutdown && !r.reload,
    {
        SignalFlags { shutdown: false, reload: false }
    }

    /// Whether a shutdown has been requested.
    pub fn is_shutdown_requested(&self) -> (r: bool)
        ensures
            r == self.shutdown,
    {
        self.shutdown
    }

    /// Take the reload request: returns whether one was pending and clears it.
    pub fn is_reload_requested(&mut self) -> (r: bool)
        ensures
            r == old(self).reload,
            !final(self).reload,
            final(self).shutdown == old(self).shutdown,
    {
        let r = self.reload;
        self.reload = false;
        r
    }

    /// Request a shutdown (SIGTERM / SIGINT, or from an IPC command).
    pub fn request_shutdown(&mut self)
        ensures
            final(self).shutdown,
            final(self).reload == old(self).reload,
    {
        self.shutdown = true;
    }

    /// Record a reload request (SIGHUP).
    pub fn request_reload(&mut self)
        ensures
            final(self).reload,
            final(self).shutdown == old(self).shutdown,
    {
        self.reload = true;
    }

    /// Clear both flags.
    pub fn reset_signal_flags(&mut self)
        ensures
            !final(self).shutdown && !final(self).reload,
    {
        self.shutdown = false;
        self.reload = false;
    }
}

/// A reload request is reported once: taking it twice in a row yields
/// `true` at most the first time, and a shutdown request is never withdrawn.
pub proof fn law_reload_taken_once(s0: SignalFlags, s1: SignalFlags, s2: SignalFlags, r1: bool, r2: bool)
    requires
        r1 == s0.reload && !s1.reload && s1.shutdown == s0.shutdown,
        r2 == s1.reload && !s2.reload && s2.shutdown == s1.shutdown,
    ensures
        !r2,
        s2.shutdown == s0.shutdown,
{
}

} // verus!
