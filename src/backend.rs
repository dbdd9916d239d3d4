//! The slot for the one outstanding idle-inhibition grant.
//!
//! The grant itself comes from the host and is obtained and closed by the
//! caller; this type decides when a request or a close is due and keeps the
//! handle, so that a grant is requested at most once while one is held and
//! closed at most once.
use vstd::prelude::*;

verus! {

/// What an acquire has to do.
#[derive(Debug, Clone, Copy, PartialEq, Eq, Structural)]
pub enum AcquireStep {
    /// A grant is held already: succeed without asking the host.
    AlreadyHeld,
    /// Ask the host for a grant, then hand the outcome to `finish_inhibit`.
    Request,
}

/// The step an acquire takes from a slot.
pub open spec fn acquire_step_of<H>(slot: Option<H>) -> AcquireStep {
    if slot is Some {
        AcquireStep::AlreadyHeld
    } else {
        AcquireStep::Request
    }
}

/// The slot after the host answered a request.
pub open spec fn after_acquire<H, E>(slot: Option<H>, outcome: Result<H, E>) -> Option<H> {
    match outcome {
        Ok(h) => Some(h),
        Err(_) => slot,
    }
}

/// The handle that a release hands out to be closed.
pub open spec fn release_handle<H>(slot: Option<H>) -> Option<H> {
    slot
}

/// The slot after a release: empty, whether or not the close then succeeds.
pub open spec fn after_release<H>(slot: Option<H>) -> Option<H> {
    None
}

/// Holds at most one inhibition handle of type `H`.
pub struct CaffeineBackend<H> {
    handle: Option<H>,
}

impl<H> View for CaffeineBackend<H> {
    type V = Option<H>;

    closed spec fn view(&self) -> Option<H> {
        self.handle
    }
}

impl<H> CaffeineBackend<H> {
    /// An empty slot.
    pub fn new() -> (r: Self)
        ensures
            r@ is None,
    {
        CaffeineBackend { handle: None }
    }

    pub fn is_held(&self) -> (r: bool)
        ensures
            r == self@ is Some,
    {
        self.handle.is_some()
    }

    /// First half of an acquire: whether the host must be asked.
    pub fn inhibit(&self) -> (r: AcquireStep)
        ensures
            r == acquire_step_of(self@),
    {
        if self.handle.is_some() {
            AcquireStep::AlreadyHeld
        } else {
            AcquireStep::Request
        }
    }

    /// Second half of an acquire, on an empty slot: keeps the granted
    /// handle, or on failure leaves the slot empty and passes the error on.
    pub fn finish_inhibit<E>(&mut self, outcome: Result<H, E>) -> (r: Result<(), E>)
        requires
            old(self)@ is None,
        ensures
            final(self)@ == after_acquire(old(self)@, outcome),
            match outcome {
                Ok(_) => r is Ok,
                Err(e) => r == Err::<(), E>(e),
            },
    {
        match outcome {
            Ok(h) => {
                self.handle = Some(h);
                Ok(())
            },
            Err(e) => Err(e),
        }
    }

    /// A release: empties the slot and hands out the handle that the caller
    /// must close, if one was held. The slot is empty whatever the close
    /// then does.
    pub fn uninhibit(&mut self) -> (r: Option<H>)
        ensures
            r == release_handle(old(self)@),
            final(self)@ == after_release(old(self)@),
    {
        self.handle.take()
    }
}

/// Once a request has been granted, a second acquire asks the host for
/// nothing: it finds the grant held and succeeds at once.
pub proof fn acquire_twice_requests_once<H, E>(slot: Option<H>, outcome: Result<H, E>)
    requires
        outcome is Ok,
    ensures
        acquire_step_of(after_acquire(slot, outcome)) == AcquireStep::AlreadyHeld,
{
}

/// Two releases in a row hand out at most one handle to close: the second
/// finds the slot empty and has nothing to close.
pub proof fn release_twice_closes_once<H>(slot: Option<H>)
    ensures
        release_handle(after_release(slot)) is None,
{
}

} // verus!
