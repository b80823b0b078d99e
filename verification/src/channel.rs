//! Trusted boundary around one crossbeam FIFO channel.
//!
//! `Channel` owns both endpoints of a single channel, created together and
//! never separated or cloned, so a `&mut Channel` (or `&Channel` with no
//! mutating borrow alive) is the only access to the underlying buffer. The
//! contracts below therefore state what each call does when nothing else
//! touches the channel, which the ownership of the pair guarantees.

use vstd::prelude::*;

use core::time::Duration;
use crossbeam::channel::Receiver;
use crossbeam::channel::RecvTimeoutError;
use crossbeam::channel::Sender;
use crossbeam::channel::SendTimeoutError;
use crossbeam::channel::TryRecvError;
use crossbeam::channel::TrySendError;

verus! {

#[verifier::external_type_specification]
#[verifier::external_body]
#[verifier::reject_recursive_types(T)]
pub struct ExSender<T>(Sender<T>);

#[verifier::external_type_specification]
#[verifier::external_body]
#[verifier::reject_recursive_types(T)]
pub struct ExReceiver<T>(Receiver<T>);

/// Both endpoints of one FIFO channel. Items are opaque 64-bit payload words;
/// the queue never inspects them.
pub struct Channel {
    sender: Sender<u64>,
    receiver: Receiver<u64>,
}

/// The items buffered in the channel, front of the queue first.
pub uninterp spec fn chan_items(c: Channel) -> Seq<u64>;

/// The capacity the channel was created with; `0` stands for an unbounded
/// channel (no `Channel` here is ever created as a zero-capacity rendezvous
/// channel).
pub uninterp spec fn chan_bound(c: Channel) -> nat;

impl Channel {
    /// Relies on crossbeam::channel::unbounded: a fresh channel with no
    /// buffered items and no capacity limit.
    #[verifier::external_body]
    pub(crate) fn new_unbounded() -> (c: Channel)
        ensures
            chan_items(c) == Seq::<u64>::empty(),
            chan_bound(c) == 0nat,
    {
        let (sender, receiver) = crossbeam::channel::unbounded();
        Channel { sender, receiver }
    }

    /// Relies on crossbeam::channel::bounded: a fresh channel with no
    /// buffered items that holds at most `cap` items.
    #[verifier::external_body]
    pub(crate) fn new_bounded(cap: usize) -> (c: Channel)
        requires
            cap > 0,
        ensures
            chan_items(c) == Seq::<u64>::empty(),
            chan_bound(c) == cap as nat,
    {
        let (sender, receiver) = crossbeam::channel::bounded(cap);
        Channel { sender, receiver }
    }

    /// Relies on crossbeam::channel::Sender::try_send: with both endpoints
    /// held here, it enqueues at the back when the buffer has room and
    /// reports full otherwise, without blocking. Disconnection cannot occur
    /// while this pair is alive.
    #[verifier::external_body]
    pub(crate) fn try_send(&mut self, item: u64) -> (r: bool)
        ensures
            chan_bound(*final(self)) == chan_bound(*old(self)),
            r == (chan_bound(*old(self)) == 0 || chan_items(*old(self)).len() < chan_bound(
                *old(self),
            )),
            r ==> chan_items(*final(self)) == chan_items(*old(self)).push(item),
            !r ==> chan_items(*final(self)) == chan_items(*old(self)),
    {
        match self.sender.try_send(item) {
            Ok(()) => true,
            Err(TrySendError::Full(_)) => false,
            // unreachable: both endpoints live in this pair
            Err(TrySendError::Disconnected(_)) => None.expect("queue endpoints disconnected"),
        }
    }

    /// Relies on crossbeam::channel::Sender::send_timeout: with both
    /// endpoints held here, it enqueues at once when the buffer has room;
    /// otherwise it sleeps for `wait_nanos` nanoseconds and reports a timeout
    /// with the buffer untouched and the item back in the caller's hands.
    #[verifier::external_body]
    pub(crate) fn send_within(&mut self, item: u64, wait_nanos: u64) -> (r: bool)
        ensures
            chan_bound(*final(self)) == chan_bound(*old(self)),
            r == (chan_bound(*old(self)) == 0 || chan_items(*old(self)).len() < chan_bound(
                *old(self),
            )),
            r ==> chan_items(*final(self)) == chan_items(*old(self)).push(item),
            !r ==> chan_items(*final(self)) == chan_items(*old(self)),
    {
        match self.sender.send_timeout(item, Duration::from_nanos(wait_nanos)) {
            Ok(()) => true,
            Err(SendTimeoutError::Timeout(_)) => false,
            // unreachable: both endpoints live in this pair
            Err(SendTimeoutError::Disconnected(_)) => None.expect("queue endpoints disconnected"),
        }
    }

    /// Relies on crossbeam::channel::Receiver::try_recv: with both endpoints
    /// held here, it removes and returns the front item when one is buffered
    /// and reports empty otherwise, without blocking.
    #[verifier::external_body]
    pub(crate) fn try_recv(&mut self) -> (r: Option<u64>)
        ensures
            chan_bound(*final(self)) == chan_bound(*old(self)),
            chan_items(*old(self)).len() > 0 ==> (r == Some(chan_items(*old(self))[0])
                && chan_items(*final(self)) == chan_items(*old(self)).subrange(
                1,
                chan_items(*old(self)).len() as int,
            )),
            chan_items(*old(self)).len() == 0 ==> (r == None::<u64> && chan_items(*final(self))
                == chan_items(*old(self))),
    {
        match self.receiver.try_recv() {
            Ok(item) => Some(item),
            Err(TryRecvError::Empty) => None,
            // unreachable: both endpoints live in this pair
            Err(TryRecvError::Disconnected) => None.expect("queue endpoints disconnected"),
        }
    }

    /// Relies on crossbeam::channel::Receiver::recv_timeout: with both
    /// endpoints held here, it removes and returns the front item at once
    /// when one is buffered; otherwise it sleeps for `wait_nanos` nanoseconds
    /// and reports a timeout with the buffer untouched.
    #[verifier::external_body]
    pub(crate) fn recv_within(&mut self, wait_nanos: u64) -> (r: Option<u64>)
        ensures
            chan_bound(*final(self)) == chan_bound(*old(self)),
            chan_items(*old(self)).len() > 0 ==> (r == Some(chan_items(*old(self))[0])
                && chan_items(*final(self)) == chan_items(*old(self)).subrange(
                1,
                chan_items(*old(self)).len() as int,
            )),
            chan_items(*old(self)).len() == 0 ==> (r == None::<u64> && chan_items(*final(self))
                == chan_items(*old(self))),
    {
        match self.receiver.recv_timeout(Duration::from_nanos(wait_nanos)) {
            Ok(item) => Some(item),
            Err(RecvTimeoutError::Timeout) => None,
            // unreachable: both endpoints live in this pair
            Err(RecvTimeoutError::Disconnected) => None.expect("queue endpoints disconnected"),
        }
    }

    /// Relies on crossbeam::channel::Receiver::len: the number of buffered
    /// items.
    #[verifier::external_body]
    pub(crate) fn buffered(&self) -> (n: usize)
        ensures
            n == chan_items(*self).len(),
    {
        self.receiver.len()
    }

    /// Relies on crossbeam::channel::Receiver::is_empty: whether no item is
    /// buffered.
    #[verifier::external_body]
    pub(crate) fn buffer_is_empty(&self) -> (b: bool)
        ensures
            b == (chan_items(*self).len() == 0),
    {
        self.receiver.is_empty()
    }
}

} // verus!
