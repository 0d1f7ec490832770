//! When to retry a lost broker connection, and when to give up.
use vstd::prelude::*;

verus! {

/// Number of reconnection attempts before giving up.
pub const RECONNECT_ATTEMPTS: u32 = 12;

/// Pause before each reconnection attempt, in milliseconds.
pub const RECONNECT_PAUSE_MS: u64 = 5000;

/// What to do next while the connection is lost.
#[derive(Clone, Copy, Debug, PartialEq, Eq, Structural)]
pub enum ReconnectStep {
    /// Pause for `RECONNECT_PAUSE_MS`, then attempt to reconnect.
    PauseThenRetry,
    /// The last attempt succeeded.
    Reconnected,
    /// Every attempt failed.
    GiveUp,
}

/// The next step after `attempts_made` failed or successful attempts, the
/// last of which (if any) succeeded when `last_attempt_ok`.
pub fn next_reconnect_step(attempts_made: u32, last_attempt_ok: bool) -> (r: ReconnectStep)
    ensures
        r == if attempts_made > 0 && last_attempt_ok {
            ReconnectStep::Reconnected
        } else if attempts_made < RECONNECT_ATTEMPTS {
            ReconnectStep::PauseThenRetry
        } else {
            ReconnectStep::GiveUp
        },
{
    if attempts_made > 0 && last_attempt_ok {
        ReconnectStep::Reconnected
    } else if attempts_made < RECONNECT_ATTEMPTS {
        ReconnectStep::PauseThenRetry
    } else {
        ReconnectStep::GiveUp
    }
}

} // verus!
