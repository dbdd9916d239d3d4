//! The state that every instance shares: what is selected and when it ends.
use vstd::prelude::*;

verus! {

/// How long an inhibition lasts once it is switched on.
#[derive(Debug, Clone, Copy, PartialEq, Eq, Structural)]
pub enum TimerSelection {
    Infinity,
    OneHour,
    TwoHours,
    Manual,
}

/// Text shown for a selection.
pub open spec fn label_text(s: TimerSelection) -> Seq<char> {
    match s {
        TimerSelection::Infinity => "Infinity"@,
        TimerSelection::OneHour => "1 Hour"@,
        TimerSelection::TwoHours => "2 Hours"@,
        TimerSelection::Manual => "Manual"@,
    }
}

/// Length in seconds of a selection; `None` is unbounded. `Manual` lasts the
/// given number of minutes, and is unbounded when none is given.
pub open spec fn duration_of(s: TimerSelection, manual_mins: Option<u64>) -> Option<int> {
    match s {
        TimerSelection::Infinity => None,
        TimerSelection::OneHour => Some(3600),
        TimerSelection::TwoHours => Some(7200),
        TimerSelection::Manual => match manual_mins {
            Some(m) => Some(m * 60),
            None => None,
        },
    }
}

/// An optional machine integer read as an optional mathematical one.
pub open spec fn opt_int(o: Option<u64>) -> Option<int> {
    match o {
        Some(v) => Some(v as int),
        None => None,
    }
}

/// Selection for its wire index: 0 to 2 in order, anything else `Manual`.
pub open spec fn selection_of_index(idx: u32) -> TimerSelection {
    if idx == 0 {
        TimerSelection::Infinity
    } else if idx == 1 {
        TimerSelection::OneHour
    } else if idx == 2 {
        TimerSelection::TwoHours
    } else {
        TimerSelection::Manual
    }
}

/// Wire index of a selection.
pub open spec fn index_of_selection(s: TimerSelection) -> u32 {
    match s {
        TimerSelection::Infinity => 0,
        TimerSelection::OneHour => 1,
        TimerSelection::TwoHours => 2,
        TimerSelection::Manual => 3,
    }
}

impl Default for TimerSelection {
    fn default() -> (r: Self)
        ensures
            r == TimerSelection::Infinity,
    {
        TimerSelection::Infinity
    }
}

impl TimerSelection {
    pub fn label(&self) -> (r: &'static str)
        ensures
            r@ == label_text(*self),
    {
        proof {
            reveal_strlit("Infinity");
            reveal_strlit("1 Hour");
            reveal_strlit("2 Hours");
            reveal_strlit("Manual");
        }
        match self {
            TimerSelection::Infinity => "Infinity",
            TimerSelection::OneHour => "1 Hour",
            TimerSelection::TwoHours => "2 Hours",
            TimerSelection::Manual => "Manual",
        }
    }

    pub fn from_index(idx: u32) -> (r: Self)
        ensures
            r == selection_of_index(idx),
    {
        match idx {
            0 => TimerSelection::Infinity,
            1 => TimerSelection::OneHour,
            2 => TimerSelection::TwoHours,
            _ => TimerSelection::Manual,
        }
    }

    pub fn index(&self) -> (r: u32)
        ensures
            r == index_of_selection(*self),
            selection_of_index(r) == *self,
    {
        match self {
            TimerSelection::Infinity => 0,
            TimerSelection::OneHour => 1,
            TimerSelection::TwoHours => 2,
            TimerSelection::Manual => 3,
        }
    }

    /// The result depends on the selection and the minutes alone, and
    /// `Infinity` never has a bound.
    pub fn duration_secs(&self, manual_mins: Option<u64>) -> (r: Option<u64>)
        requires
            *self == TimerSelection::Manual && manual_mins is Some ==> manual_mins.unwrap() * 60
                <= u64::MAX,
        ensures
            opt_int(r) == duration_of(*self, manual_mins),
            *self == TimerSelection::Infinity ==> r is None,
    {
        match self {
            TimerSelection::Infinity => None,
            TimerSelection::OneHour => Some(3600),
            TimerSelection::TwoHours => Some(7200),
            TimerSelection::Manual => match manual_mins {
                Some(m) => Some(m * 60),
                None => None,
            },
        }
    }
}

/// The value that the coordination service stores and broadcasts.
/// `expiry_ts` is a time in seconds since the Unix epoch; `-1` stands for
/// "no expiry".
#[derive(Debug, Clone, Copy, PartialEq, Eq, Structural)]
pub struct CaffeineState {
    pub active: bool,
    pub selection: TimerSelection,
    pub expiry_ts: i64,
}

/// Sentinel of `expiry_ts` for a state without expiry.
pub const NO_EXPIRY: i64 = -1;

impl CaffeineState {
    /// The absolute expiry, if there is one.
    pub open spec fn expiry(self) -> Option<int> {
        if self.expiry_ts == NO_EXPIRY {
            None
        } else {
            Some(self.expiry_ts as int)
        }
    }

    /// Seconds left at time `now`: none while inactive or unbounded, else
    /// the time to expiry, never below zero.
    pub open spec fn remaining_at(self, now: int) -> Option<int> {
        if !self.active {
            None
        } else {
            match self.expiry() {
                None => None,
                Some(e) => Some(if e > now { e - now } else { 0 }),
            }
        }
    }

    /// The canonical inactive state.
    pub open spec fn inactive_spec() -> CaffeineState {
        CaffeineState { active: false, selection: TimerSelection::Infinity, expiry_ts: NO_EXPIRY }
    }

    pub fn inactive() -> (r: Self)
        ensures
            r == Self::inactive_spec(),
    {
        CaffeineState {
            active: false,
            selection: TimerSelection::default(),
            expiry_ts: NO_EXPIRY,
        }
    }

    pub fn active(selection: TimerSelection, expiry_ts: Option<u64>) -> (r: Self)
        requires
            expiry_ts matches Some(t) ==> t <= i64::MAX,
        ensures
            r.active,
            r.selection == selection,
            r.expiry() == opt_int(expiry_ts),
    {
        let ts: i64 = match expiry_ts {
            Some(t) => t as i64,
            None => NO_EXPIRY,
        };
        CaffeineState { active: true, selection, expiry_ts: ts }
    }

    pub fn is_active(&self) -> (r: bool)
        ensures
            r == self.active,
    {
        self.active
    }

    /// Seconds left at time `now` (seconds since the Unix epoch).
    pub fn remaining_secs_at(&self, now: u64) -> (r: Option<u64>)
        ensures
            opt_int(r) == self.remaining_at(now as int),
            !self.active ==> r is None,
    {
        if !self.active || self.expiry_ts == NO_EXPIRY {
            return None;
        }
        if self.expiry_ts <= 0 {
            return Some(0);
        }
        let ts = self.expiry_ts as u64;
        if ts > now {
            Some(ts - now)
        } else {
            Some(0)
        }
    }

    /// Seconds left now, read from the system clock.
    pub fn remaining_secs(&self) -> (r: Option<u64>)
        ensures
            exists|now: u64| #[trigger] self.remaining_at(now as int) == opt_int(r),
            !self.active ==> r is None,
    {
        let now = unix_now_secs();
        let r = self.remaining_secs_at(now);
        assert(self.remaining_at(now as int) == opt_int(r));
        r
    }
}

/// `Infinity` has no bound, whatever the minutes.
pub proof fn infinity_is_unbounded(manual_mins: Option<u64>)
    ensures
        duration_of(TimerSelection::Infinity, manual_mins) is None,
{
}

/// An inactive state has no remaining time, whatever the time.
pub proof fn inactive_has_no_remaining(state: CaffeineState, now: u64)
    requires
        !state.active,
    ensures
        state.remaining_at(now as int) is None,
{
}

/// For an active state with an expiry, the remaining time is defined at every
/// time, never grows as time goes on, and is zero from the expiry on.
pub proof fn remaining_never_grows(state: CaffeineState, earlier: u64, later: u64)
    requires
        state.active,
        state.expiry() is Some,
        earlier <= later,
    ensures
        state.remaining_at(earlier as int) is Some,
        state.remaining_at(later as int) is Some,
        state.remaining_at(later as int).unwrap() <= state.remaining_at(earlier as int).unwrap(),
        state.remaining_at(later as int).unwrap() >= 0,
        later >= state.expiry_ts ==> state.remaining_at(later as int) == Some(0int),
{
}

/// Relies on `std::time::SystemTime::now` and `duration_since(UNIX_EPOCH)`:
/// whole seconds since the Unix epoch, zero for a clock set before it.
/// Nothing is promised of the value.
#[verifier::external_body]
pub(crate) fn unix_now_secs() -> u64 {
    match std::time::SystemTime::now().duration_since(std::time::UNIX_EPOCH) {
        Ok(d) => d.as_secs(),
        Err(_) => 0,
    }
}

} // verus!
