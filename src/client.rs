//! What an instance decides as a client of the coordination service: the
//! role it takes at start, and the arguments of its `SetState` requests.
use vstd::prelude::*;
use crate::service::DEFAULT_MANUAL_MINUTES;
use crate::state::{index_of_selection, TimerSelection};
use crate::text::{decimal_value, is_u32_text, parse_u32, unsigned_digits};

verus! {

/// The role of an instance on the session bus.
#[derive(Debug, Clone, Copy, PartialEq, Eq, Structural)]
pub enum Role {
    /// Claimed the well-known name: serves the state, and reaches it through
    /// a remote handle like every other instance.
    Owner,
    /// The name is owned elsewhere: holds only a remote handle to the owner.
    Follower,
    /// No bus: runs without cross-instance coordination.
    Standalone,
}

pub open spec fn role_of(connected: bool, claimed: bool) -> Role {
    if !connected {
        Role::Standalone
    } else if claimed {
        Role::Owner
    } else {
        Role::Follower
    }
}

/// The role from the outcome of connecting to the bus and of claiming the
/// well-known name.
pub fn resolve_role(connected: bool, claimed: bool) -> (r: Role)
    ensures
        r == role_of(connected, claimed),
{
    if !connected {
        Role::Standalone
    } else if claimed {
        Role::Owner
    } else {
        Role::Follower
    }
}

impl Role {
    /// Whether this instance must run the service.
    pub fn serves(&self) -> (r: bool)
        ensures
            r == (*self == Role::Owner),
    {
        match self {
            Role::Owner => true,
            _ => false,
        }
    }

    /// Whether this instance gets a remote handle to the service.
    pub fn has_remote_handle(&self) -> (r: bool)
        ensures
            r == (*self != Role::Standalone),
    {
        match self {
            Role::Standalone => false,
            _ => true,
        }
    }
}

/// Of two instances on one bus, of which the bus granted the name to exactly
/// one, exactly one serves and both hold a remote handle.
pub proof fn one_owner_of_two(first_claimed: bool, second_claimed: bool)
    requires
        first_claimed != second_claimed,
    ensures
        (role_of(true, first_claimed) == Role::Owner) != (role_of(true, second_claimed)
            == Role::Owner),
        role_of(true, first_claimed) != Role::Standalone,
        role_of(true, second_claimed) != Role::Standalone,
{
}

/// Minutes sent for a manual timer typed as `input`: its value where it is a
/// positive number that fits, else the default.
pub open spec fn manual_minutes_of(input: Seq<char>) -> u32 {
    if is_u32_text(input) && decimal_value(unsigned_digits(input)) > 0 {
        decimal_value(unsigned_digits(input)) as u32
    } else {
        DEFAULT_MANUAL_MINUTES
    }
}

/// Arguments `(selection_idx, manual_mins)` of a `SetState` request for
/// `selection`, with `manual_input` the minutes typed for a manual timer.
pub fn request_args(selection: TimerSelection, manual_input: &str) -> (r: (u32, u32))
    ensures
        r.0 == index_of_selection(selection),
        r.1 == if selection == TimerSelection::Manual {
            manual_minutes_of(manual_input@)
        } else {
            0
        },
{
    let idx = selection.index();
    match selection {
        TimerSelection::Manual => match parse_u32(manual_input) {
            Some(m) => if m > 0 {
                (idx, m)
            } else {
                (idx, DEFAULT_MANUAL_MINUTES)
            },
            None => (idx, DEFAULT_MANUAL_MINUTES),
        },
        _ => (idx, 0),
    }
}

} // verus!
