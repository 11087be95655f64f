//! A plain countdown: a number of seconds counted down to zero, without
//! phases and without cancelling. A host drives it: it starts it, waits one
//! second at a time while seconds are pending, reports each with
//! `countdown_tick`, and closes it with `finish_countdown`.

use vstd::prelude::*;
use crate::error::TimerError;

verus! {

/// The seconds left, and whether a countdown is running.
#[derive(Debug, Clone, Copy, PartialEq, Eq, Structural)]
pub struct CountdownState(pub i32, pub bool);

impl CountdownState {
    /// A countdown is running and has seconds left to count.
    pub open spec fn pending(self) -> bool {
        self.1 && self.0 > 0
    }
}

/// Starts a countdown of `seconds`.
///
/// A state that is already running refuses and is left as it is. Otherwise
/// the seconds are loaded, whatever their sign, and the state is marked as
/// running; a countdown of no seconds, or fewer, has nothing pending.
pub fn start_countdown(seconds: i32, state: &mut CountdownState) -> (started: Result<
    (),
    TimerError,
>)
    ensures
        old(state).1 ==> started == Err::<(), TimerError>(TimerError::AlreadyRunning),
        old(state).1 ==> *final(state) == *old(state),
        !old(state).1 ==> started is Ok && *final(state) == CountdownState(seconds, true),
{
    if state.1 {
        return Err(TimerError::AlreadyRunning);
    }
    state.0 = seconds;
    state.1 = true;
    Ok(())
}

/// Whether the host has another second to wait for.
pub fn countdown_pending(state: &CountdownState) -> (pending: bool)
    ensures
        pending == state.pending(),
{
    state.1 && state.0 > 0
}

/// Counts one elapsed second: while seconds are pending, one is taken off
/// and the seconds left are returned for announcing. Otherwise nothing
/// changes and nothing is returned.
pub fn countdown_tick(state: &mut CountdownState) -> (remaining: Option<i32>)
    ensures
        old(state).pending() ==> remaining == Some((old(state).0 - 1) as i32) && *final(state)
            == CountdownState((old(state).0 - 1) as i32, true),
        !old(state).pending() ==> remaining is None && *final(state) == *old(state),
{
    if state.1 && state.0 > 0 {
        state.0 = state.0 - 1;
        Some(state.0)
    } else {
        None
    }
}

/// Closes the countdown: the state is idle again, with the seconds left as
/// they were.
pub fn finish_countdown(state: &mut CountdownState)
    ensures
        *final(state) == CountdownState(old(state).0, false),
{
    state.1 = false;
}

/// The seconds left.
pub fn get_remaining_time(state: &CountdownState) -> (remaining: i32)
    ensures
        remaining == state.0,
{
    state.0
}

/// Whether a countdown is running.
pub fn get_countdown_state(state: &CountdownState) -> (running: bool)
    ensures
        running == state.1,
{
    state.1
}

/// The state after `n` seconds were reported.
pub open spec fn after_ticks(state: CountdownState, n: nat) -> CountdownState
    decreases n,
{
    if n == 0 {
        state
    } else if state.pending() {
        after_ticks(CountdownState((state.0 - 1) as i32, true), (n - 1) as nat)
    } else {
        state
    }
}

/// A countdown of `seconds` has nothing pending after exactly that many
/// reported seconds, and not before: each report takes one second off, down
/// to zero.
pub proof fn lemma_countdown_reaches_zero(seconds: i32, n: nat)
    requires
        0 <= seconds,
        n <= seconds,
    ensures
        after_ticks(CountdownState(seconds, true), n) == CountdownState((seconds - n) as i32, true),
        after_ticks(CountdownState(seconds, true), n).pending() <==> n < seconds,
    decreases n,
{
    if n > 0 {
        lemma_countdown_reaches_zero((seconds - 1) as i32, (n - 1) as nat);
    }
}

} // verus!
