//! Whether the DAW is still talking to us: the time of its last heartbeat, and whether
//! the first heartbeat has been seen since the connection was (re)established.
use vstd::prelude::*;

verus! {

/// Connection bookkeeping; times are whole seconds of the Unix clock.
#[derive(Clone, Copy, Debug, PartialEq, Eq, Structural)]
pub struct ConnectionState {
    pub last_heartbeat_s: u64,
    pub timed_out: bool,
    pub initialized: bool,
}

impl ConnectionState {
    /// Whether more than `timeout_s` seconds have passed since the last heartbeat (a clock
    /// that went backwards counts as no time passed).
    pub open spec fn spec_overdue(self, now_s: u64, timeout_s: u64) -> bool {
        now_s > self.last_heartbeat_s && now_s - self.last_heartbeat_s > timeout_s
    }

    /// The state after a heartbeat at `now_s`.
    pub open spec fn spec_after_heartbeat(self, now_s: u64) -> Self {
        ConnectionState { last_heartbeat_s: now_s, timed_out: false, initialized: true }
    }

    /// The state after a timeout check at `now_s`: an overdue heartbeat marks the
    /// connection timed out.
    pub open spec fn spec_after_check(self, now_s: u64, timeout_s: u64) -> Self {
        ConnectionState { timed_out: self.timed_out || self.spec_overdue(now_s, timeout_s), ..self }
    }

    pub fn new(now_s: u64) -> (r: Self)
        ensures
            r == (ConnectionState { last_heartbeat_s: now_s, timed_out: false, initialized: false }),
    {
        Self { last_heartbeat_s: now_s, timed_out: false, initialized: false }
    }

    /// Record a heartbeat at `now_s`; `true` if it is the first since the connection was
    /// last (re)established.
    pub fn on_heartbeat(&mut self, now_s: u64) -> (first: bool)
        ensures
            *final(self) == old(self).spec_after_heartbeat(now_s),
            first == !old(self).initialized,
    {
        self.last_heartbeat_s = now_s;
        self.timed_out = false;
        let was = self.initialized;
        self.initialized = true;
        !was
    }

    /// Whether the connection times out now: the heartbeat is overdue and the timeout was
    /// not reported yet.
    pub fn should_timeout(&mut self, now_s: u64, timeout_s: u64) -> (r: bool)
        ensures
            r == (old(self).spec_overdue(now_s, timeout_s) && !old(self).timed_out),
            *final(self) == old(self).spec_after_check(now_s, timeout_s),
    {
        if now_s.saturating_sub(self.last_heartbeat_s) > timeout_s {
            let was = self.timed_out;
            self.timed_out = true;
            !was
        } else {
            false
        }
    }
}

/// After a heartbeat at `now_s`, the connection does not time out before more than
/// `timeout_s` seconds have passed.
pub proof fn law_heartbeat_defers_timeout(s: ConnectionState, now_s: u64, later_s: u64, timeout_s: u64)
    requires
        later_s <= now_s + timeout_s,
    ensures
        !s.spec_after_heartbeat(now_s).spec_overdue(later_s, timeout_s),
{
}

/// A timeout is reported once: after a check that reported it, no later check reports it
/// again until the next heartbeat.
pub proof fn law_timeout_reported_once(s: ConnectionState, now_s: u64, later_s: u64, timeout_s: u64)
    requires
        s.spec_overdue(now_s, timeout_s) && !s.timed_out,
    ensures
        s.spec_after_check(now_s, timeout_s).timed_out,
        !(s.spec_after_check(now_s, timeout_s).spec_overdue(later_s, timeout_s)
            && !s.spec_after_check(now_s, timeout_s).timed_out),
{
}

} // verus!
