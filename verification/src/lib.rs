//! A FIFO blocking queue with non-blocking, blocking, and timeout-bounded
//! put/get operations that stay responsive to an externally supplied
//! interrupt poll while waiting.

use vstd::prelude::*;

pub mod channel;
pub mod interrupt;
pub mod laws;
pub mod queue;

verus! {

/// The errors a queue operation can report.
///
/// `Full` and `Empty` say that the operation could not complete under the
/// requested blocking policy; `InvalidArgument` rejects a negative timeout
/// before any attempt to touch the buffer; `Interrupted` propagates a pending
/// external interrupt observed during a blocking wait.
#[derive(Clone, Copy, Debug, PartialEq, Eq, Structural)]
pub enum QueueError {
    Empty,
    Full,
    InvalidArgument,
    Interrupted,
}

} // verus!
