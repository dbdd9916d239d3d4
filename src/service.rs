//! The coordination service: the one authoritative owner of the state.
//!
//! A `SetState` request is decided here in two steps around the host's
//! inhibition call, which the caller performs; `GetState` reads the stored
//! value. Every transition replaces the whole stored state.
use vstd::prelude::*;
use vstd::string::StringExecFns;
use crate::backend::{AcquireStep, CaffeineBackend};
use crate::state::{duration_of, selection_of_index, CaffeineState, TimerSelection, NO_EXPIRY};
use crate::text::{decimal_string, decimal_text};

verus! {

/// Minutes of a manual timer whose length was not given (zero).
pub const DEFAULT_MANUAL_MINUTES: u32 = 30;

/// Minutes that a manual timer requested with `mins` lasts.
pub open spec fn effective_minutes(mins: u32) -> u32 {
    if mins == 0 {
        DEFAULT_MANUAL_MINUTES
    } else {
        mins
    }
}

/// Expiry of a timer started at `now`; the largest representable time where
/// the sum does not fit.
pub open spec fn planned_expiry(sel: TimerSelection, mins: u32, now: u64) -> i64 {
    match duration_of(sel, Some(effective_minutes(mins) as u64)) {
        None => NO_EXPIRY,
        Some(d) => if now + d <= i64::MAX {
            (now + d) as i64
        } else {
            i64::MAX
        },
    }
}

/// The state that an accepted activation request stores.
pub open spec fn planned_state(selection_idx: u32, manual_mins: u32, now: u64) -> CaffeineState {
    let sel = selection_of_index(selection_idx);
    CaffeineState { active: true, selection: sel, expiry_ts: planned_expiry(sel, manual_mins, now) }
}

/// Reason given to the host with an inhibition request.
pub open spec fn reason_text(sel: TimerSelection, mins: u32) -> Seq<char> {
    match sel {
        TimerSelection::Infinity => "User enabled infinity caffeine mode"@,
        TimerSelection::OneHour => "User enabled 1-hour caffeine timer"@,
        TimerSelection::TwoHours => "User enabled 2-hour caffeine timer"@,
        TimerSelection::Manual => "User enabled "@ + decimal_text(effective_minutes(mins) as nat)
            + "-minute caffeine timer"@,
    }
}

/// What the caller of `set_state` has to do next.
#[derive(Debug)]
pub enum StateChange<H> {
    /// Ask the host for an inhibition grant with `reason`, then hand the
    /// outcome and `next` to `finish_activation`.
    Inhibit { reason: String, next: CaffeineState },
    /// A grant was held already; the state is stored: broadcast it.
    Activated(CaffeineState),
    /// The state is stored: close `handle` if there is one, then broadcast
    /// `state`.
    Deactivated { handle: Option<H>, state: CaffeineState },
}

/// The service's stored state and its inhibition slot, with handles of type `H`.
pub struct CaffeineService<H> {
    backend: CaffeineBackend<H>,
    state: CaffeineState,
}

fn reason_for(sel: TimerSelection, mins: u32) -> (r: String)
    ensures
        r@ == reason_text(sel, mins),
{
    proof {
        reveal_strlit("User enabled infinity caffeine mode");
        reveal_strlit("User enabled 1-hour caffeine timer");
        reveal_strlit("User enabled 2-hour caffeine timer");
        reveal_strlit("User enabled ");
        reveal_strlit("-minute caffeine timer");
    }
    match sel {
        TimerSelection::Infinity => String::from_str("User enabled infinity caffeine mode"),
        TimerSelection::OneHour => String::from_str("User enabled 1-hour caffeine timer"),
        TimerSelection::TwoHours => String::from_str("User enabled 2-hour caffeine timer"),
        TimerSelection::Manual => {
            let m: u32 = if mins == 0 {
                DEFAULT_MANUAL_MINUTES
            } else {
                mins
            };
            let digits = decimal_string(m as u64);
            let head = String::from_str("User enabled ");
            let with_digits = head.concat(digits.as_str());
            with_digits.concat("-minute caffeine timer")
        },
    }
}

impl<H> CaffeineService<H> {
    /// The stored state.
    pub closed spec fn stored(&self) -> CaffeineState {
        self.state
    }

    /// The inhibition handle held, if any.
    pub closed spec fn held(&self) -> Option<H> {
        self.backend@
    }

    pub fn new(backend: CaffeineBackend<H>, state: CaffeineState) -> (r: Self)
        ensures
            r.stored() == state,
            r.held() == backend@,
    {
        CaffeineService { backend, state }
    }

    /// The stored state; never fails and never waits on the host.
    pub fn get_state(&self) -> (r: CaffeineState)
        ensures
            r == self.stored(),
    {
        self.state
    }

    /// Decides a `SetState(active, selection_idx, manual_mins)` request made
    /// at time `now`. A deactivation stores the inactive state at once and
    /// hands out the held handle to close. An activation with a grant held
    /// stores the new state at once; without one it changes nothing and
    /// asks for a grant first.
    pub fn set_state(&mut self, active: bool, selection_idx: u32, manual_mins: u32, now: u64) -> (r:
        StateChange<H>)
        ensures
            active && old(self).held() is None ==> {
                &&& r matches StateChange::Inhibit { reason, next }
                &&& reason@ == reason_text(selection_of_index(selection_idx), manual_mins)
                &&& next == planned_state(selection_idx, manual_mins, now)
                &&& final(self).stored() == old(self).stored()
                &&& final(self).held() == old(self).held()
            },
            active && old(self).held() is Some ==> {
                &&& r == StateChange::<H>::Activated(planned_state(selection_idx, manual_mins, now))
                &&& final(self).stored() == planned_state(selection_idx, manual_mins, now)
                &&& final(self).held() == old(self).held()
            },
            !active ==> {
                &&& r == StateChange::Deactivated {
                    handle: old(self).held(),
                    state: CaffeineState::inactive_spec(),
                }
                &&& final(self).stored() == CaffeineState::inactive_spec()
                &&& final(self).held() is None
            },
    {
        if !active {
            let handle = self.backend.uninhibit();
            let state = CaffeineState::inactive();
            self.state = state;
            return StateChange::Deactivated { handle, state };
        }
        let selection = TimerSelection::from_index(selection_idx);
        let mins: u32 = if manual_mins == 0 {
            DEFAULT_MANUAL_MINUTES
        } else {
            manual_mins
        };
        let duration = selection.duration_secs(Some(mins as u64));
        let limit: u64 = i64::MAX as u64;
        let expiry: Option<u64> = match duration {
            None => None,
            Some(d) => if d <= limit && now <= limit - d {
                Some(now + d)
            } else {
                Some(limit)
            },
        };
        let next = CaffeineState::active(selection, expiry);
        match self.backend.inhibit() {
            AcquireStep::AlreadyHeld => {
                self.state = next;
                StateChange::Activated(next)
            },
            AcquireStep::Request => {
                let reason = reason_for(selection, manual_mins);
                StateChange::Inhibit { reason, next }
            },
        }
    }

    /// Whether an inhibition grant is held.
    pub fn holds_grant(&self) -> (r: bool)
        ensures
            r == self.held() is Some,
    {
        self.backend.is_held()
    }

    /// Completes an activation, while no grant is held, with the host's
    /// answer: on a grant, keeps the handle, stores `next` and returns it for
    /// broadcast; on failure changes nothing and returns `None`.
    pub fn finish_activation<E>(&mut self, next: CaffeineState, outcome: Result<H, E>) -> (r:
        Option<CaffeineState>)
        requires
            old(self).held() is None,
        ensures
            match outcome {
                Ok(h) => {
                    &&& r == Some(next)
                    &&& final(self).stored() == next
                    &&& final(self).held() == Some(h)
                },
                Err(_) => {
                    &&& r is None
                    &&& final(self).stored() == old(self).stored()
                    &&& final(self).held() == old(self).held()
                },
            },
    {
        match self.backend.finish_inhibit(outcome) {
            Ok(()) => {
                self.state = next;
                Some(next)
            },
            Err(_) => None,
        }
    }
}

/// An accepted one-hour activation at `now` stores an active one-hour state
/// that expires at `now + 3600`; a deactivation stores the state that is
/// inactive, unbounded and without expiry.
pub proof fn one_hour_then_inactive(now: u64)
    requires
        now + 3600 <= i64::MAX,
    ensures
        planned_state(1, 0, now) == (CaffeineState {
            active: true,
            selection: TimerSelection::OneHour,
            expiry_ts: (now + 3600) as i64,
        }),
        CaffeineState::inactive_spec() == (CaffeineState {
            active: false,
            selection: TimerSelection::Infinity,
            expiry_ts: NO_EXPIRY,
        }),
{
}

/// A manual activation at `now` without minutes lasts thirty minutes.
pub proof fn manual_without_minutes_lasts_thirty(now: u64)
    requires
        now + 1800 <= i64::MAX,
    ensures
        planned_state(3, 0, now) == (CaffeineState {
            active: true,
            selection: TimerSelection::Manual,
            expiry_ts: (now + 1800) as i64,
        }),
{
}

} // verus!
