use vstd::prelude::*;
use crate::protocol::Status;

verus! {

/// How many connection failures in a row the overlay tolerates before it
/// concludes the daemon is gone.
pub const MAX_CONSECUTIVE_FAILURES: u32 = 10;

/// The overlay's connection to the daemon, as far as reconnecting goes.
pub struct Listener {
    pub consecutive_failures: u32,
}

impl Listener {
    pub fn new() -> (l: Listener)
        ensures
            l.consecutive_failures == 0,
    {
        Listener { consecutive_failures: 0 }
    }

    /// A connection to the daemon was made.
    pub fn connected(&mut self)
        ensures
            final(self).consecutive_failures == 0,
    {
        self.consecutive_failures = 0;
    }

    /// A connection attempt failed or a session ended. Returns whether the
    /// overlay should give up and exit: after more than
    /// [`MAX_CONSECUTIVE_FAILURES`] failures in a row.
    pub fn connection_lost(&mut self) -> (exit: bool)
        ensures
            final(self).consecutive_failures == failure_step(old(self).consecutive_failures as nat),
            exit == (final(self).consecutive_failures > MAX_CONSECUTIVE_FAILURES),
    {
        if self.consecutive_failures <= MAX_CONSECUTIVE_FAILURES {
            self.consecutive_failures = self.consecutive_failures + 1;
        }
        self.consecutive_failures > MAX_CONSECUTIVE_FAILURES
    }
}

/// The failure count after one more failure (it stops growing once the
/// overlay has given up).
pub open spec fn failure_step(f: nat) -> nat {
    if f <= MAX_CONSECUTIVE_FAILURES { f + 1 } else { f }
}

/// The failure count after `n` failures in a row since the last connection.
pub open spec fn failures_after(n: nat) -> nat
    decreases n,
{
    if n == 0 { 0 } else { failure_step(failures_after((n - 1) as nat)) }
}

/// After a connection, the overlay gives up on the failure that makes more
/// than `MAX_CONSECUTIVE_FAILURES` in a row, and not before.
pub proof fn lemma_listener_gives_up_after_too_many_failures(n: nat)
    ensures
        (failures_after(n) > MAX_CONSECUTIVE_FAILURES) == (n > MAX_CONSECUTIVE_FAILURES),
        n <= MAX_CONSECUTIVE_FAILURES + 1 ==> failures_after(n) == n,
    decreases n,
{
    if n > 0 {
        lemma_listener_gives_up_after_too_many_failures((n - 1) as nat);
    }
}

/// The request the overlay polls the daemon with.
pub fn status_request() -> (r: &'static str)
    ensures
        r@ == "{\"cmd\":\"status\"}\n"@,
{
    "{\"cmd\":\"status\"}\n"
}

/// Whether the meter animation starts afresh: when the overlay enters the
/// recording display from any other status.
pub fn meter_restarts(last: Option<Status>, now: Status) -> (b: bool)
    ensures
        b == (last != Some(Status::Recording) && now == Status::Recording),
{
    let was_recording = match last {
        Some(s) => s == Status::Recording,
        None => false,
    };
    !was_recording && now == Status::Recording
}

} // verus!
