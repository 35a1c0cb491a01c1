//! Waiting for a side-car's connection without polling.
//!
//! The waiter awaits the side-car's connection-ready notifier in slices of at
//! most [`RECHECK_INTERVAL_MS`], re-checking the pool between slices: a
//! waiter that subscribes after the handshake already fired would otherwise
//! sleep through its whole budget. The budget stays the hard cap.

use vstd::prelude::*;

verus! {

/// Longest single wait before the connected flag is checked again.
pub const RECHECK_INTERVAL_MS: u64 = 100;

/// What the waiter does next.
pub enum WaitStep {
    /// Stop and answer.
    Answer(bool),
    /// The budget is spent: answer whether the side-car is connected now.
    FinalCheck,
    /// Wait on the notifier for at most this many milliseconds, then step again.
    Wait(u64),
}

/// The answer before any waiting: `false` while shutting down, `true` when
/// already connected, otherwise none yet.
pub fn StartWait(ShuttingDown: bool, Connected: bool) -> (r: Option<bool>)
    ensures
        r == (if ShuttingDown {
            Some(false)
        } else if Connected {
            Some(true)
        } else {
            None
        }),
{
    if ShuttingDown {
        Some(false)
    } else if Connected {
        Some(true)
    } else {
        None
    }
}

/// One step of the wait: connected answers `true`, shutting down answers
/// `false`, a spent budget asks for a final check, and otherwise the waiter
/// waits for the rest of the budget but no longer than the re-check interval.
pub open spec fn next_wait_step(connected: bool, shutting_down: bool, remaining: u64) -> WaitStep {
    if connected {
        WaitStep::Answer(true)
    } else if shutting_down {
        WaitStep::Answer(false)
    } else if remaining == 0 {
        WaitStep::FinalCheck
    } else if remaining < RECHECK_INTERVAL_MS {
        WaitStep::Wait(remaining)
    } else {
        WaitStep::Wait(RECHECK_INTERVAL_MS)
    }
}

/// Every wait is a real slice that neither overruns the budget nor the
/// re-check interval, and a connected side-car is answered `true` at once.
pub proof fn lemma_wait_slices_are_bounded(connected: bool, shutting_down: bool, remaining: u64)
    ensures
        next_wait_step(connected, shutting_down, remaining) matches WaitStep::Wait(ms) ==> 0 < ms <= remaining
            && ms <= RECHECK_INTERVAL_MS,
        connected ==> next_wait_step(connected, shutting_down, remaining) == WaitStep::Answer(true),
        !connected && remaining == 0 ==> !(next_wait_step(connected, shutting_down, remaining) is Wait),
{
}

/// See [`next_wait_step`].
pub fn NextWaitStep(Connected: bool, ShuttingDown: bool, RemainingMilliseconds: u64) -> (r: WaitStep)
    ensures
        r == next_wait_step(Connected, ShuttingDown, RemainingMilliseconds),
{
    if Connected {
        WaitStep::Answer(true)
    } else if ShuttingDown {
        WaitStep::Answer(false)
    } else if RemainingMilliseconds == 0 {
        WaitStep::FinalCheck
    } else if RemainingMilliseconds < RECHECK_INTERVAL_MS {
        WaitStep::Wait(RemainingMilliseconds)
    } else {
        WaitStep::Wait(RECHECK_INTERVAL_MS)
    }
}

} // verus!
