//! The per-instance countdown: once a second while the cached state is
//! active with an expiry, it recomputes the remaining time from the absolute
//! expiry and asks for deactivation when none is left.
use vstd::prelude::*;
use crate::state::CaffeineState;

verus! {

/// What one tick of the countdown found.
#[derive(Debug, Clone, Copy, PartialEq, Eq, Structural)]
pub enum Tick {
    /// Nothing to count: inactive, or active without expiry.
    Idle,
    /// This many seconds are left.
    Remaining(u64),
    /// The expiry is reached: request `SetState(false, ..)` and stop.
    Expired,
}

/// The tick that the countdown takes on `state` at time `now`.
pub open spec fn tick_of(state: CaffeineState, now: int) -> Tick {
    match state.remaining_at(now) {
        None => Tick::Idle,
        Some(n) => if n == 0 {
            Tick::Expired
        } else {
            Tick::Remaining(n as u64)
        },
    }
}

/// Whether the countdown runs for this cached state: active with an expiry.
pub fn countdown_running(state: &CaffeineState) -> (r: bool)
    ensures
        r == (state.active && state.expiry() is Some),
{
    state.is_active() && state.expiry_ts != crate::state::NO_EXPIRY
}

/// One tick at time `now` (seconds since the Unix epoch).
pub fn countdown_tick(state: &CaffeineState, now: u64) -> (r: Tick)
    ensures
        r == tick_of(*state, now as int),
        r == Tick::Expired <==> state.remaining_at(now as int) == Some(0int),
{
    match state.remaining_secs_at(now) {
        None => Tick::Idle,
        Some(n) => if n == 0 {
            Tick::Expired
        } else {
            Tick::Remaining(n)
        },
    }
}

} // verus!
