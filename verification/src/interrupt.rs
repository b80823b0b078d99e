//! The externally supplied interrupt poll that keeps blocking waits
//! responsive.

use vstd::prelude::*;

verus! {

/// Reported by an interrupt poll when an external interrupt is pending.
pub struct Interrupted;

/// An externally supplied poll point for pending interrupts.
///
/// A blocking queue operation calls `check_interrupt` between wait slices,
/// never more often than once per poll interval; an `Err` makes the
/// operation abandon its wait at once and report
/// `QueueError::Interrupted`.
pub trait InterruptCheck {
    /// Whether this poll can ever report a pending interrupt. A poll for
    /// which this is `false` never makes an operation fail with
    /// `QueueError::Interrupted`.
    open spec fn can_interrupt(&self) -> bool {
        true
    }

    fn check_interrupt(&mut self) -> (r: Result<(), Interrupted>)
        ensures
            r is Err ==> old(self).can_interrupt(),
            final(self).can_interrupt() == old(self).can_interrupt(),
    ;
}

/// A poll that never reports a pending interrupt, for callers with nothing
/// to poll.
pub struct NeverInterrupted;

impl InterruptCheck for NeverInterrupted {
    open spec fn can_interrupt(&self) -> bool {
        false
    }

    fn check_interrupt(&mut self) -> (r: Result<(), Interrupted>) {
        Ok(())
    }
}

} // verus!
