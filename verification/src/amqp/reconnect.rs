//! When a consumer that lost its connection tries again.

use vstd::prelude::*;

verus! {

/// The longest wait after a failure, in seconds.
pub const MAX_BACKOFF_SECS: u64 = 60;

/// The wait after a connection that ended in good order, in seconds.
pub const DISCONNECT_DELAY_SECS: u64 = 5;

/// How a connection ended.
#[derive(Debug, Clone, Copy, PartialEq, Eq, Structural)]
pub enum ConnectionEnd {
    /// The consumer was told to stop.
    Shutdown,
    /// There was nothing left to wait for.
    Disconnected,
    /// Something failed.
    Failed,
}

/// What to do once a connection has ended.
#[derive(Debug, Clone, Copy, PartialEq, Eq, Structural)]
pub enum RunStep {
    /// Stop for good.
    Exit,
    /// Connect again after so many seconds.
    ReconnectAfter(u64),
}

/// The wait that comes after a wait of `secs` seconds.
pub open spec fn next_backoff(secs: int) -> int {
    if 2 * secs <= MAX_BACKOFF_SECS {
        2 * secs
    } else {
        MAX_BACKOFF_SECS as int
    }
}

/// The wait that follows the next failure after `n` failures in a row.
pub open spec fn backoff_after(n: nat) -> int
    decreases n,
{
    if n == 0 {
        1
    } else {
        next_backoff(backoff_after((n - 1) as nat))
    }
}

/// What to do after a connection, and the wait that follows the next failure, given
/// how the connection ended and the wait that followed a failure so far.
pub open spec fn after_connection(secs: int, end: ConnectionEnd) -> (RunStep, int) {
    match end {
        ConnectionEnd::Shutdown => (RunStep::Exit, secs),
        ConnectionEnd::Disconnected => (RunStep::ReconnectAfter(DISCONNECT_DELAY_SECS), 1),
        ConnectionEnd::Failed => (RunStep::ReconnectAfter(secs as u64), next_backoff(secs)),
    }
}

/// The wait that follows the next failure.
#[derive(Debug)]
pub struct Backoff {
    secs: u64,
}

impl View for Backoff {
    type V = int;

    closed spec fn view(&self) -> int {
        self.secs as int
    }
}

impl Backoff {
    #[verifier::type_invariant]
    closed spec fn inv(self) -> bool {
        1 <= self.secs <= MAX_BACKOFF_SECS
    }

    /// The wait that follows the first failure.
    pub fn new() -> (r: Backoff)
        ensures
            r@ == backoff_after(0),
    {
        Backoff { secs: 1 }
    }

    /// What to do after a connection that ended so.
    pub fn next_step(&mut self, end: ConnectionEnd) -> (r: RunStep)
        ensures
            (r, final(self)@) == after_connection(old(self)@, end),
            1 <= old(self)@ <= MAX_BACKOFF_SECS,
    {
        proof {
            use_type_invariant(&*self);
        }
        match end {
            ConnectionEnd::Shutdown => RunStep::Exit,
            ConnectionEnd::Disconnected => {
                self.secs = 1;
                RunStep::ReconnectAfter(DISCONNECT_DELAY_SECS)
            },
            ConnectionEnd::Failed => {
                let delay: u64 = self.secs;
                let doubled: u64 = delay * 2;
                self.secs = if doubled <= MAX_BACKOFF_SECS {
                    doubled
                } else {
                    MAX_BACKOFF_SECS
                };
                RunStep::ReconnectAfter(delay)
            },
        }
    }
}

/// Two to the power of `n`.
pub open spec fn power_of_two(n: nat) -> int
    decreases n,
{
    if n == 0 {
        1
    } else {
        2 * power_of_two((n - 1) as nat)
    }
}

/// The waits after failures in a row double from one second up to the longest wait.
pub proof fn law_backoff_doubles_up_to_the_limit(n: nat)
    ensures
        backoff_after(n) == (if power_of_two(n) <= MAX_BACKOFF_SECS {
            power_of_two(n)
        } else {
            MAX_BACKOFF_SECS as int
        }),
        1 <= backoff_after(n) <= MAX_BACKOFF_SECS,
        backoff_after(n) <= backoff_after(n + 1),
    decreases n,
{
    if n > 0 {
        law_backoff_doubles_up_to_the_limit((n - 1) as nat);
    }
}

/// The waits so far do not matter once a connection has ended in good order: the
/// next failure is again followed by the shortest wait.
pub proof fn law_disconnect_resets_the_backoff(secs: int)
    ensures
        after_connection(secs, ConnectionEnd::Disconnected).1 == backoff_after(0),
        after_connection(backoff_after(0), ConnectionEnd::Failed).0 == RunStep::ReconnectAfter(1),
{
}

/// After a failure the consumer waits as long as it was to, and is to wait twice as
/// long after the next one, a minute at most; after a connection that ended in good
/// order it waits five seconds and starts over from one; and told to stop, it stops.
pub proof fn law_waits(secs: int)
    requires
        1 <= secs <= 60,
    ensures
        after_connection(secs, ConnectionEnd::Failed).0 == RunStep::ReconnectAfter(secs as u64),
        after_connection(secs, ConnectionEnd::Failed).1 <= 60,
        after_connection(secs, ConnectionEnd::Failed).1 <= 2 * secs,
        after_connection(secs, ConnectionEnd::Failed).1 == 60 || after_connection(
            secs,
            ConnectionEnd::Failed,
        ).1 == 2 * secs,
        after_connection(secs, ConnectionEnd::Disconnected) == (RunStep::ReconnectAfter(5), 1int),
        after_connection(secs, ConnectionEnd::Shutdown) == (RunStep::Exit, secs),
{
}

/// After `n` failures in a row the next one is followed by the wait for `n`, and the
/// one after that by the wait for one more.
pub proof fn law_failures_in_a_row(n: nat)
    ensures
        after_connection(backoff_after(n), ConnectionEnd::Failed) == (
            RunStep::ReconnectAfter(backoff_after(n) as u64),
            backoff_after(n + 1),
        ),
{
}

} // verus!
