//! Laws that relate whole runs of non-blocking operations.
//!
//! A run of `put_nowait`/`get_nowait` calls with no concurrent interleaving
//! is modelled as a sequence of [`Op`] steps applied to the buffer, each step
//! being exactly what the contracts of the two calls state; the proof
//! functions here say what every such run delivers.

use vstd::prelude::*;
use vstd::assert_seqs_equal;

use crate::queue::get_nowait_spec;
use crate::queue::put_nowait_spec;
use crate::queue::room;
use crate::QueueError;

verus! {

/// One non-blocking operation of a run: a put of a value, or a get.
pub enum Op {
    Put(u64),
    Get,
}

/// The buffer after one step on an unbounded queue: a put appends, a get
/// removes the front when there is one.
pub open spec fn step_items(items: Seq<u64>, op: Op) -> Seq<u64> {
    match op {
        Op::Put(v) => items.push(v),
        Op::Get => if items.len() > 0 {
            items.subrange(1, items.len() as int)
        } else {
            items
        },
    }
}

/// What one step delivers to the caller: a successful get yields the front
/// item, anything else yields nothing.
pub open spec fn step_output(items: Seq<u64>, op: Op) -> Seq<u64> {
    match op {
        Op::Put(_) => Seq::<u64>::empty(),
        Op::Get => if items.len() > 0 {
            seq![items[0]]
        } else {
            Seq::<u64>::empty()
        },
    }
}

/// The buffer after a whole run on an unbounded queue that starts empty.
pub open spec fn run_items(ops: Seq<Op>) -> Seq<u64>
    decreases ops.len(),
{
    if ops.len() == 0 {
        Seq::<u64>::empty()
    } else {
        step_items(run_items(ops.drop_last()), ops.last())
    }
}

/// Everything the gets of a run deliver, in order of delivery.
pub open spec fn run_outputs(ops: Seq<Op>) -> Seq<u64>
    decreases ops.len(),
{
    if ops.len() == 0 {
        Seq::<u64>::empty()
    } else {
        run_outputs(ops.drop_last()) + step_output(run_items(ops.drop_last()), ops.last())
    }
}

/// The values a run passes to puts, in order.
pub open spec fn put_values(ops: Seq<Op>) -> Seq<u64>
    decreases ops.len(),
{
    if ops.len() == 0 {
        Seq::<u64>::empty()
    } else {
        put_values(ops.drop_last()) + (match ops.last() {
            Op::Put(v) => seq![v],
            Op::Get => Seq::<u64>::empty(),
        })
    }
}

/// How many gets a run makes.
pub open spec fn get_count(ops: Seq<Op>) -> nat
    decreases ops.len(),
{
    if ops.len() == 0 {
        0nat
    } else {
        get_count(ops.drop_last()) + (match ops.last() {
            Op::Put(_) => 0nat,
            Op::Get => 1nat,
        })
    }
}

/// Whether every get of the run found an item buffered.
pub open spec fn all_gets_succeed(ops: Seq<Op>) -> bool
    decreases ops.len(),
{
    ops.len() == 0 || (all_gets_succeed(ops.drop_last()) && (match ops.last() {
        Op::Put(_) => true,
        Op::Get => run_items(ops.drop_last()).len() > 0,
    }))
}

/// On an unbounded queue a non-blocking put is always accepted, and what it
/// does to the buffer is exactly the model's put step.
pub proof fn lemma_put_nowait_is_step(
    pre: Seq<u64>,
    item: u64,
    r: Result<(), QueueError>,
    post: Seq<u64>,
)
    requires
        put_nowait_spec(pre, 0, item, r, post),
    ensures
        r == Ok::<(), QueueError>(()),
        post == step_items(pre, Op::Put(item)),
{
}

/// What a non-blocking get does to the buffer, and what it returns, is
/// exactly the model's get step and its output.
pub proof fn lemma_get_nowait_is_step(pre: Seq<u64>, r: Result<u64, QueueError>, post: Seq<u64>)
    requires
        get_nowait_spec(pre, r, post),
    ensures
        post == step_items(pre, Op::Get),
        pre.len() > 0 ==> r == Ok::<u64, QueueError>(pre[0]) && step_output(pre, Op::Get) == seq![
            pre[0],
        ],
        pre.len() == 0 ==> r == Err::<u64, QueueError>(QueueError::Empty) && step_output(
            pre,
            Op::Get,
        ) == Seq::<u64>::empty(),
{
}

/// FIFO law: over any run of non-blocking operations on an unbounded queue
/// that starts empty, the values the gets have delivered, followed by the
/// values still buffered, are exactly the values passed to the puts, in
/// order. In particular the gets deliver put values in put order.
pub proof fn lemma_fifo(ops: Seq<Op>)
    ensures
        run_outputs(ops) + run_items(ops) == put_values(ops),
    decreases ops.len(),
{
    if ops.len() == 0 {
        assert_seqs_equal!(run_outputs(ops) + run_items(ops), put_values(ops));
    } else {
        let pre = ops.drop_last();
        lemma_fifo(pre);
        match ops.last() {
            Op::Put(v) => {
                assert_seqs_equal!(
                    run_outputs(ops) + run_items(ops),
                    (run_outputs(pre) + run_items(pre)) + seq![v]
                );
                assert_seqs_equal!(put_values(ops), put_values(pre) + seq![v]);
            },
            Op::Get => {
                assert_seqs_equal!(
                    run_outputs(ops) + run_items(ops),
                    run_outputs(pre) + run_items(pre)
                );
                assert_seqs_equal!(put_values(ops), put_values(pre));
            },
        }
    }
}

/// The delivered values of a run are a prefix of the put values: no get ever
/// sees values out of put order.
pub proof fn lemma_fifo_prefix(ops: Seq<Op>)
    ensures
        run_outputs(ops) == put_values(ops).take(run_outputs(ops).len() as int),
{
    lemma_fifo(ops);
    assert_seqs_equal!(run_outputs(ops), put_values(ops).take(run_outputs(ops).len() as int));
}

/// A non-blocking put is accepted whenever the buffer is below its capacity
/// (or unbounded), and then appends the item at the back.
pub proof fn lemma_put_accepted_when_room(
    pre: Seq<u64>,
    maxsize: usize,
    item: u64,
    r: Result<(), QueueError>,
    post: Seq<u64>,
)
    requires
        room(pre, maxsize),
        put_nowait_spec(pre, maxsize, item, r, post),
    ensures
        r == Ok::<(), QueueError>(()),
        post == pre.push(item),
        post.len() == pre.len() + 1,
{
}

/// Whatever the capacity, a non-blocking put steps the buffer to the bounded
/// put step: an accepted put appends, a rejected one changes nothing, and
/// acceptance is exactly `room`.
pub proof fn lemma_put_nowait_is_bounded_step(
    pre: Seq<u64>,
    maxsize: usize,
    item: u64,
    r: Result<(), QueueError>,
    post: Seq<u64>,
)
    requires
        put_nowait_spec(pre, maxsize, item, r, post),
    ensures
        post == (if room(pre, maxsize) {
            pre.push(item)
        } else {
            pre
        }),
        r == Ok::<(), QueueError>(()) <==> room(pre, maxsize),
{
}

/// The buffer after a run of non-blocking puts of `vals`, in order, on a
/// bounded queue of capacity `maxsize` that starts empty: each accepted put
/// appends, each rejected one changes nothing.
pub open spec fn run_bounded_puts(vals: Seq<u64>, maxsize: usize) -> Seq<u64>
    decreases vals.len(),
{
    if vals.len() == 0 {
        Seq::<u64>::empty()
    } else {
        let prior = run_bounded_puts(vals.drop_last(), maxsize);
        if room(prior, maxsize) {
            prior.push(vals.last())
        } else {
            prior
        }
    }
}

/// Filling law: a bounded queue that starts empty accepts up to `maxsize`
/// consecutive non-blocking puts in full, and then holds exactly the values
/// put, in order. With `vals.len() == maxsize` the buffer is at capacity, so
/// by `lemma_full_put_rejected` the next non-blocking put fails with `Full`.
pub proof fn lemma_bounded_fill(vals: Seq<u64>, maxsize: usize)
    requires
        maxsize > 0,
        vals.len() <= maxsize,
    ensures
        run_bounded_puts(vals, maxsize) == vals,
    decreases vals.len(),
{
    if vals.len() == 0 {
        assert_seqs_equal!(run_bounded_puts(vals, maxsize), vals);
    } else {
        lemma_bounded_fill(vals.drop_last(), maxsize);
        assert_seqs_equal!(run_bounded_puts(vals, maxsize), vals);
    }
}

/// A bounded buffer holding its full capacity (or more) rejects a
/// non-blocking put with `Full` and is left untouched.
pub proof fn lemma_full_put_rejected(
    pre: Seq<u64>,
    maxsize: usize,
    item: u64,
    r: Result<(), QueueError>,
    post: Seq<u64>,
)
    requires
        maxsize > 0,
        pre.len() >= maxsize,
        put_nowait_spec(pre, maxsize, item, r, post),
    ensures
        r == Err::<(), QueueError>(QueueError::Full),
        post == pre,
{
}

/// A drained buffer rejects a non-blocking get with `Empty` and is left
/// untouched.
pub proof fn lemma_empty_get_rejected(pre: Seq<u64>, r: Result<u64, QueueError>, post: Seq<u64>)
    requires
        pre.len() == 0,
        get_nowait_spec(pre, r, post),
    ensures
        r == Err::<u64, QueueError>(QueueError::Empty),
        post == pre,
{
}

/// Counting law: after a quiescent run of puts and gets on an unbounded
/// queue that starts empty, in which every get found an item, the buffer
/// holds exactly (puts made) − (gets made) items; it is empty exactly when
/// the two counts agree.
pub proof fn lemma_size_counts(ops: Seq<Op>)
    requires
        all_gets_succeed(ops),
    ensures
        run_items(ops).len() + get_count(ops) == put_values(ops).len(),
        run_items(ops).len() == 0 <==> put_values(ops).len() == get_count(ops),
    decreases ops.len(),
{
    if ops.len() > 0 {
        lemma_size_counts(ops.drop_last());
    }
}

} // verus!
