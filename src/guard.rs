use vstd::prelude::*;

use crate::error::Error;

verus! {

/// A per-ledger flag that blocks a mutating operation from starting while
/// another one is still in flight.
#[derive(Debug)]
pub struct ReentrancyGuard {
    held: bool,
}

impl View for ReentrancyGuard {
    type V = bool;

    /// Whether the guard is held.
    closed spec fn view(&self) -> bool {
        self.held
    }
}

impl ReentrancyGuard {
    pub fn new() -> (r: ReentrancyGuard)
        ensures
            !r@,
    {
        ReentrancyGuard { held: false }
    }

    pub fn is_held(&self) -> (r: bool)
        ensures
            r == self@,
    {
        self.held
    }

    /// Takes the guard, or fails `ReentrancyDetected` and leaves it as it is
    /// when it is already held.
    pub fn acquire(&mut self) -> (r: Result<(), Error>)
        ensures
            old(self)@ ==> r == Err::<(), Error>(Error::ReentrancyDetected) && *final(self) == *old(self),
            !old(self)@ ==> r.is_ok() && final(self)@,
    {
        if self.held {
            return Err(Error::ReentrancyDetected);
        }
        self.held = true;
        Ok(())
    }

    /// Gives the guard back.
    pub fn release(&mut self)
        ensures
            !final(self)@,
    {
        self.held = false;
    }
}

} // verus!
