//! The blocking FIFO queue: non-blocking, blocking, and timeout-bounded
//! put/get over one channel, with an interrupt poll between wait slices.

use vstd::prelude::*;

use crate::channel::chan_bound;
use crate::channel::chan_items;
use crate::channel::Channel;
use crate::interrupt::InterruptCheck;
use crate::QueueError;

verus! {

/// Nanoseconds between two looks at the interrupt poll while a blocking
/// operation waits. Every indefinite wait is sliced at this interval so a
/// pending interrupt is observed within roughly one interval.
pub const POLL_INTERVAL_NANOS: u64 = 200_000_000;

/// The wait budget, in nanoseconds, that stands in for "no deadline": close
/// to six hundred years. A verified loop must terminate, so a blocking call
/// without a timeout waits under this budget instead of literally forever;
/// no real execution outlives it.
pub const NO_DEADLINE_NANOS: u64 = 0xffff_ffff_ffff_ffff;

/// Whether a buffer holding `items` can take one more item under capacity
/// `maxsize` (`0` means unbounded).
pub open spec fn room(items: Seq<u64>, maxsize: usize) -> bool {
    maxsize == 0 || items.len() < maxsize
}

/// What one non-blocking put does to a buffer: with room, the item joins the
/// back and the call succeeds; without room, the buffer is untouched and the
/// call reports `Full`.
pub open spec fn put_nowait_spec(
    pre: Seq<u64>,
    maxsize: usize,
    item: u64,
    r: Result<(), QueueError>,
    post: Seq<u64>,
) -> bool {
    if room(pre, maxsize) {
        r == Ok::<(), QueueError>(()) && post == pre.push(item)
    } else {
        r == Err::<(), QueueError>(QueueError::Full) && post == pre
    }
}

/// What one non-blocking get does to a buffer: with an item buffered, the
/// front item is removed and returned; with none, the buffer is untouched and
/// the call reports `Empty`.
pub open spec fn get_nowait_spec(
    pre: Seq<u64>,
    r: Result<u64, QueueError>,
    post: Seq<u64>,
) -> bool {
    if pre.len() > 0 {
        r == Ok::<u64, QueueError>(pre[0]) && post == pre.subrange(1, pre.len() as int)
    } else {
        r == Err::<u64, QueueError>(QueueError::Empty) && post == pre
    }
}

/// Whether `t` is an acceptable timeout argument: absent, or a non-negative
/// count of nanoseconds.
pub open spec fn timeout_ok(t: Option<i64>) -> bool {
    match t {
        Some(n) => n >= 0,
        None => true,
    }
}

/// The wait budget, in nanoseconds, that a valid timeout argument buys: the
/// nanoseconds given, or the stand-in for "no deadline".
pub open spec fn budget_of(t: Option<i64>) -> u64 {
    match t {
        Some(n) => n as u64,
        None => NO_DEADLINE_NANOS,
    }
}

/// Validates a timeout argument and turns it into a wait budget: a present
/// negative timeout is rejected with `InvalidArgument`; otherwise the budget
/// is the nanoseconds given, or `NO_DEADLINE_NANOS` when none was.
pub fn wait_budget(timeout_nanos: Option<i64>) -> (r: Result<u64, QueueError>)
    ensures
        !timeout_ok(timeout_nanos) ==> r == Err::<u64, QueueError>(QueueError::InvalidArgument),
        timeout_ok(timeout_nanos) ==> r == Ok::<u64, QueueError>(budget_of(timeout_nanos)),
{
    match timeout_nanos {
        Some(t) => if t < 0 {
            Err(QueueError::InvalidArgument)
        } else {
            Ok(t as u64)
        },
        None => Ok(NO_DEADLINE_NANOS),
    }
}

/// What one wait slice of a blocking operation decided: the operation's
/// result, or the order to poll for interrupts and wait another slice with
/// the remaining budget.
#[derive(Debug, PartialEq, Eq)]
pub enum WaitStep<T> {
    Done(Result<T, QueueError>),
    Again(u64),
}

/// A FIFO queue of opaque 64-bit payload words with Python
/// `queue.Queue`-style put/get semantics: bounded or unbounded capacity,
/// non-blocking and blocking variants, optional timeouts, and an interrupt
/// poll observed between wait slices of every blocking wait.
pub struct Queue {
    chan: Channel,
    cap: usize,
}

impl Queue {
    /// The buffered items, front of the queue first.
    pub closed spec fn items(self) -> Seq<u64> {
        chan_items(self.chan)
    }

    /// The capacity the queue was built with; `0` means unbounded.
    pub closed spec fn maxsize(self) -> usize {
        self.cap
    }

    /// Well-formed: the channel's bound is the declared capacity, and a
    /// bounded buffer never holds more than its capacity.
    pub closed spec fn wf(self) -> bool {
        &&& chan_bound(self.chan) == self.cap as nat
        &&& (self.cap > 0 ==> chan_items(self.chan).len() <= self.cap)
    }

    /// Builds a queue. `maxsize == 0` asks for an unbounded buffer; any other
    /// value bounds the buffer at exactly `maxsize` items. Construction
    /// always succeeds and the queue starts empty.
    pub fn new(maxsize: usize) -> (q: Queue)
        ensures
            q.wf(),
            q.items() == Seq::<u64>::empty(),
            q.maxsize() == maxsize,
    {
        let chan = if maxsize == 0 {
            Channel::new_unbounded()
        } else {
            Channel::new_bounded(maxsize)
        };
        Queue { chan, cap: maxsize }
    }

    /// One non-blocking insertion: succeeds exactly when the buffer has room,
    /// fails with `Full` otherwise. Never blocks, never polls for interrupts.
    pub fn put_nowait(&mut self, item: u64) -> (r: Result<(), QueueError>)
        requires
            old(self).wf(),
        ensures
            final(self).wf(),
            final(self).maxsize() == old(self).maxsize(),
            put_nowait_spec(old(self).items(), old(self).maxsize(), item, r, final(self).items()),
    {
        if self.chan.try_send(item) {
            Ok(())
        } else {
            Err(QueueError::Full)
        }
    }

    /// One non-blocking removal: returns the front item exactly when one is
    /// buffered, fails with `Empty` otherwise. Never blocks.
    pub fn get_nowait(&mut self) -> (r: Result<u64, QueueError>)
        requires
            old(self).wf(),
        ensures
            final(self).wf(),
            final(self).maxsize() == old(self).maxsize(),
            get_nowait_spec(old(self).items(), r, final(self).items()),
    {
        match self.chan.try_recv() {
            Some(item) => Ok(item),
            None => Err(QueueError::Empty),
        }
    }

    /// The number of items currently buffered. Under concurrent access the
    /// snapshot may be stale the instant it returns.
    pub fn qsize(&self) -> (n: usize)
        ensures
            n == self.items().len(),
    {
        self.chan.buffered()
    }

    /// Whether the buffer is currently empty; the same snapshot as `qsize`.
    pub fn empty(&self) -> (b: bool)
        ensures
            b == (self.items().len() == 0),
    {
        self.chan.buffer_is_empty()
    }

    /// One bounded wait slice of a blocking put. With room in the buffer the
    /// item is enqueued at once; on a full buffer the call sleeps for
    /// `min(remaining, POLL_INTERVAL_NANOS)` nanoseconds and then either
    /// gives up with `Full` (the budget is spent) or orders one more slice
    /// with the rest of the budget. A caller that runs the slices itself
    /// polls for interrupts between two slices, where this call holds no
    /// borrow of the queue.
    pub fn put_slice(&mut self, item: u64, remaining: u64) -> (r: WaitStep<()>)
        requires
            old(self).wf(),
        ensures
            final(self).wf(),
            final(self).maxsize() == old(self).maxsize(),
            room(old(self).items(), old(self).maxsize()) ==> (r == WaitStep::Done(Ok::<
                (),
                QueueError,
            >(())) && final(self).items() == old(self).items().push(item)),
            !room(old(self).items(), old(self).maxsize()) ==> (final(self).items() == old(
                self,
            ).items() && r == (if remaining <= POLL_INTERVAL_NANOS {
                WaitStep::Done(Err::<(), QueueError>(QueueError::Full))
            } else {
                WaitStep::Again(((remaining - POLL_INTERVAL_NANOS) as u64))
            })),
    {
        let wait: u64 = if remaining < POLL_INTERVAL_NANOS {
            remaining
        } else {
            POLL_INTERVAL_NANOS
        };
        if self.chan.send_within(item, wait) {
            WaitStep::Done(Ok(()))
        } else if remaining <= POLL_INTERVAL_NANOS {
            WaitStep::Done(Err(QueueError::Full))
        } else {
            WaitStep::Again(remaining - POLL_INTERVAL_NANOS)
        }
    }

    /// One bounded wait slice of a blocking get, symmetric to `put_slice`:
    /// the front item when one is buffered, `Empty` when the buffer stays
    /// empty and the budget is spent, or the order to poll and wait another
    /// slice.
    pub fn get_slice(&mut self, remaining: u64) -> (r: WaitStep<u64>)
        requires
            old(self).wf(),
        ensures
            final(self).wf(),
            final(self).maxsize() == old(self).maxsize(),
            old(self).items().len() > 0 ==> (r == WaitStep::Done(Ok::<u64, QueueError>(
                old(self).items()[0],
            )) && final(self).items() == old(self).items().subrange(
                1,
                old(self).items().len() as int,
            )),
            old(self).items().len() == 0 ==> (final(self).items() == old(self).items() && r == (
            if remaining <= POLL_INTERVAL_NANOS {
                WaitStep::Done(Err::<u64, QueueError>(QueueError::Empty))
            } else {
                WaitStep::Again(((remaining - POLL_INTERVAL_NANOS) as u64))
            })),
    {
        let wait: u64 = if remaining < POLL_INTERVAL_NANOS {
            remaining
        } else {
            POLL_INTERVAL_NANOS
        };
        match self.chan.recv_within(wait) {
            Some(item) => WaitStep::Done(Ok(item)),
            None => if remaining <= POLL_INTERVAL_NANOS {
                WaitStep::Done(Err(QueueError::Empty))
            } else {
                WaitStep::Again(remaining - POLL_INTERVAL_NANOS)
            },
        }
    }

    /// Puts `item`, blocking when asked to.
    ///
    /// With `block == false` the call is exactly `put_nowait` and the timeout
    /// is ignored. When blocking, a present negative timeout is rejected with
    /// `InvalidArgument` before any attempt to enqueue; otherwise the fast
    /// path tries a non-blocking send, and on a full buffer the call waits in
    /// slices of at most one poll interval, asking `interrupt` between
    /// slices, until the item fits (impossible while this call alone holds
    /// the queue), the timeout (when given) runs out — then `Full` — or an
    /// interrupt is pending — then `Interrupted`. A timeout of at most one
    /// poll interval is exhausted by the first slice, before any interrupt
    /// poll, so such a call never reports `Interrupted`. With no timeout the
    /// wait runs under `NO_DEADLINE_NANOS`. This method keeps exclusive
    /// access for its whole wait; a caller that shares the queue behind a
    /// lock runs `put_slice` itself and holds the lock only per slice.
    pub fn put<C: InterruptCheck>(
        &mut self,
        item: u64,
        block: bool,
        timeout_nanos: Option<i64>,
        interrupt: &mut C,
    ) -> (r: Result<(), QueueError>)
        requires
            old(self).wf(),
        ensures
            final(self).wf(),
            final(self).maxsize() == old(self).maxsize(),
            r == Err::<(), QueueError>(QueueError::Interrupted) ==> old(interrupt).can_interrupt(),
            !block ==> put_nowait_spec(
                old(self).items(),
                old(self).maxsize(),
                item,
                r,
                final(self).items(),
            ),
            (block && !timeout_ok(timeout_nanos)) ==> (r == Err::<(), QueueError>(
                QueueError::InvalidArgument,
            ) && final(self).items() == old(self).items()),
            (block && timeout_ok(timeout_nanos)) ==> {
                &&& room(old(self).items(), old(self).maxsize()) ==> (r == Ok::<(), QueueError>(())
                    && final(self).items() == old(self).items().push(item))
                &&& !room(old(self).items(), old(self).maxsize()) ==> (final(self).items() == old(
                    self,
                ).items() && (r == Err::<(), QueueError>(QueueError::Full) || r == Err::<
                    (),
                    QueueError,
                >(QueueError::Interrupted)))
                &&& (!room(old(self).items(), old(self).maxsize()) && (timeout_nanos matches Some(t)
                    && t as int <= POLL_INTERVAL_NANOS as int)) ==> r == Err::<(), QueueError>(
                    QueueError::Full,
                )
            },
    {
        if !block {
            return self.put_nowait(item);
        }
        let mut remaining: u64 = match wait_budget(timeout_nanos) {
            Ok(budget) => budget,
            Err(e) => {
                return Err(e);
            },
        };
        if self.chan.try_send(item) {
            return Ok(());
        }
        loop
            invariant
                self.wf(),
                self.maxsize() == old(self).maxsize(),
                self.items() == old(self).items(),
                !room(old(self).items(), old(self).maxsize()),
                block,
                timeout_ok(timeout_nanos),
                timeout_nanos matches Some(t) ==> remaining as int <= t as int,
                interrupt.can_interrupt() == old(interrupt).can_interrupt(),
            decreases remaining,
        {
            match self.put_slice(item, remaining) {
                WaitStep::Done(r) => {
                    return r;
                },
                WaitStep::Again(rest) => {
                    if interrupt.check_interrupt().is_err() {
                        return Err(QueueError::Interrupted);
                    }
                    remaining = rest;
                },
            }
        }
    }

    /// Gets an item, blocking when asked to.
    ///
    /// Symmetric to `put`: with `block == false` the call is exactly
    /// `get_nowait` and the timeout is ignored. When blocking, a present
    /// negative timeout is rejected with `InvalidArgument`; otherwise the
    /// fast path tries a non-blocking receive, and on an empty buffer the
    /// call waits in slices of at most one poll interval, asking `interrupt`
    /// between slices, until the timeout (when given) runs out — then
    /// `Empty` — or an interrupt is pending — then `Interrupted`. A timeout
    /// of at most one poll interval is exhausted by the first slice, before
    /// any interrupt poll, so such a call never reports `Interrupted`. With
    /// no timeout the wait runs under `NO_DEADLINE_NANOS`. This method keeps
    /// exclusive access for its whole wait; a caller that shares the queue
    /// behind a lock runs `get_slice` itself and holds the lock only per
    /// slice.
    pub fn get<C: InterruptCheck>(
        &mut self,
        block: bool,
        timeout_nanos: Option<i64>,
        interrupt: &mut C,
    ) -> (r: Result<u64, QueueError>)
        requires
            old(self).wf(),
        ensures
            final(self).wf(),
            final(self).maxsize() == old(self).maxsize(),
            r == Err::<u64, QueueError>(QueueError::Interrupted) ==> old(
                interrupt,
            ).can_interrupt(),
            !block ==> get_nowait_spec(old(self).items(), r, final(self).items()),
            (block && !timeout_ok(timeout_nanos)) ==> (r == Err::<u64, QueueError>(
                QueueError::InvalidArgument,
            ) && final(self).items() == old(self).items()),
            (block && timeout_ok(timeout_nanos)) ==> {
                &&& old(self).items().len() > 0 ==> (r == Ok::<u64, QueueError>(
                    old(self).items()[0],
                ) && final(self).items() == old(self).items().subrange(
                    1,
                    old(self).items().len() as int,
                ))
                &&& old(self).items().len() == 0 ==> (final(self).items() == old(self).items() && (
                r == Err::<u64, QueueError>(QueueError::Empty) || r == Err::<u64, QueueError>(
                    QueueError::Interrupted,
                )))
                &&& (old(self).items().len() == 0 && (timeout_nanos matches Some(t) && t as int
                    <= POLL_INTERVAL_NANOS as int)) ==> r == Err::<u64, QueueError>(
                    QueueError::Empty,
                )
            },
    {
        if !block {
            return self.get_nowait();
        }
        let mut remaining: u64 = match wait_budget(timeout_nanos) {
            Ok(budget) => budget,
            Err(e) => {
                return Err(e);
            },
        };
        if let Some(item) = self.chan.try_recv() {
            return Ok(item);
        }
        loop
            invariant
                self.wf(),
                self.maxsize() == old(self).maxsize(),
                self.items() == old(self).items(),
                old(self).items().len() == 0,
                block,
                timeout_ok(timeout_nanos),
                timeout_nanos matches Some(t) ==> remaining as int <= t as int,
                interrupt.can_interrupt() == old(interrupt).can_interrupt(),
            decreases remaining,
        {
            match self.get_slice(remaining) {
                WaitStep::Done(r) => {
                    return r;
                },
                WaitStep::Again(rest) => {
                    if interrupt.check_interrupt().is_err() {
                        return Err(QueueError::Interrupted);
                    }
                    remaining = rest;
                },
            }
        }
    }
}

} // verus!
