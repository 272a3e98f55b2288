//! Mathematical model of the latency ring buffer.
//!
//! The buffer is modelled as the sequence of samples it currently holds,
//! oldest first, together with its fixed capacity. The spec functions here
//! say what one block of feeding or draining does to that sequence, and the
//! lemmas state the buffer's laws: FIFO order, the capacity bound, the
//! prefill behaviour, and that no interleaving of pushes and pops ever
//! loses, duplicates or reorders a sample.

use vstd::prelude::*;

verus! {

/// A sample is carried as the raw bit pattern of a 32-bit float amplitude.
/// Silence (amplitude 0.0) has the all-zero bit pattern.
pub const SILENCE: u32 = 0;

/// `n` samples of silence.
pub open spec fn silence(n: nat) -> Seq<u32> {
    Seq::new(n, |i: int| SILENCE)
}

/// The smaller of two integers.
pub open spec fn min_int(a: int, b: int) -> int {
    if a <= b {
        a
    } else {
        b
    }
}

/// How many samples of `block` a buffer that holds `contents` and has room
/// for `cap` accepts: the whole block if it fits, otherwise exactly enough
/// to fill the buffer. The rest of the block is dropped (overrun policy).
pub open spec fn accepted_len(contents: Seq<u32>, cap: int, block: Seq<u32>) -> int
    recommends
        contents.len() <= cap,
{
    min_int(block.len() as int, cap - contents.len())
}

/// The buffer contents after the whole of `block` has been offered to it,
/// sample by sample, in order.
pub open spec fn fed(contents: Seq<u32>, cap: int, block: Seq<u32>) -> Seq<u32>
    recommends
        contents.len() <= cap,
{
    contents + block.take(accepted_len(contents, cap, block))
}

/// A drained block of `len` samples read from a buffer that holds
/// `contents`: the oldest samples in order, padded with silence once the
/// buffer runs out (underrun policy).
pub open spec fn drained_block(contents: Seq<u32>, len: int) -> Seq<u32>
    recommends
        0 <= len,
{
    let taken = min_int(len, contents.len() as int);
    contents.take(taken) + silence((len - taken) as nat)
}

/// The buffer contents after `len` samples have been requested from it.
pub open spec fn drained_rest(contents: Seq<u32>, len: int) -> Seq<u32>
    recommends
        0 <= len,
{
    contents.skip(min_int(len, contents.len() as int))
}

/// One operation on the buffer, as one side of the pair performs it: the
/// producer offers a sample, the consumer asks for one.
pub enum BufferOp {
    Offer(u32),
    Take,
}

/// The buffer contents after a sequence of operations, starting from
/// `init` with capacity `cap`. Each step is exactly the push/pop contract:
/// an offer appends when there is room and is dropped when there is none;
/// a take removes the oldest sample when there is one and does nothing
/// when the buffer is empty.
pub open spec fn run_contents(init: Seq<u32>, cap: int, ops: Seq<BufferOp>) -> Seq<u32>
    decreases ops.len(),
{
    if ops.len() == 0 {
        init
    } else {
        let prev = run_contents(init, cap, ops.drop_last());
        match ops.last() {
            BufferOp::Offer(s) => if prev.len() < cap {
                prev.push(s)
            } else {
                prev
            },
            BufferOp::Take => if prev.len() > 0 {
                prev.drop_first()
            } else {
                prev
            },
        }
    }
}

/// The offered samples that the buffer accepted, in offer order.
pub open spec fn run_accepted(init: Seq<u32>, cap: int, ops: Seq<BufferOp>) -> Seq<u32>
    decreases ops.len(),
{
    if ops.len() == 0 {
        Seq::empty()
    } else {
        let prev = run_contents(init, cap, ops.drop_last());
        let acc = run_accepted(init, cap, ops.drop_last());
        match ops.last() {
            BufferOp::Offer(s) => if prev.len() < cap {
                acc.push(s)
            } else {
                acc
            },
            BufferOp::Take => acc,
        }
    }
}

/// The samples handed out by the takes, in take order.
pub open spec fn run_taken(init: Seq<u32>, cap: int, ops: Seq<BufferOp>) -> Seq<u32>
    decreases ops.len(),
{
    if ops.len() == 0 {
        Seq::empty()
    } else {
        let prev = run_contents(init, cap, ops.drop_last());
        let taken = run_taken(init, cap, ops.drop_last());
        match ops.last() {
            BufferOp::Offer(s) => taken,
            BufferOp::Take => if prev.len() > 0 {
                taken.push(prev[0])
            } else {
                taken
            },
        }
    }
}

/// FIFO order: when a run of pushes all fits (so every push succeeds),
/// the buffer afterwards holds exactly the pushed samples in push order,
/// and popping as many times hands exactly those samples back, in the
/// same order, leaving the buffer empty.
pub proof fn lemma_fifo_order(cap: int, pushed: Seq<u32>)
    requires
        pushed.len() <= cap,
    ensures
        fed(Seq::<u32>::empty(), cap, pushed) == pushed,
        drained_block(pushed, pushed.len() as int) == pushed,
        drained_rest(pushed, pushed.len() as int) == Seq::<u32>::empty(),
{
    assert(fed(Seq::<u32>::empty(), cap, pushed) =~= pushed);
    assert(drained_block(pushed, pushed.len() as int) =~= pushed);
    assert(drained_rest(pushed, pushed.len() as int) =~= Seq::<u32>::empty());
}

/// Capacity bound: from an empty buffer, a run of exactly `cap` pushes
/// succeeds in full and leaves the buffer full; one further push is
/// refused and changes nothing.
pub proof fn lemma_capacity_bound(cap: int, pushed: Seq<u32>, extra: u32)
    requires
        pushed.len() == cap,
    ensures
        fed(Seq::<u32>::empty(), cap, pushed) == pushed,
        fed(pushed, cap, seq![extra]) == pushed,
{
    assert(fed(Seq::<u32>::empty(), cap, pushed) =~= pushed);
    assert(fed(pushed, cap, seq![extra]) =~= pushed);
}

/// Prefill: draining exactly `latency` samples from a freshly prefilled
/// buffer yields pure silence and leaves the buffer empty.
pub proof fn lemma_prefill_drains_silence(latency: nat)
    ensures
        drained_block(silence(latency), latency as int) == silence(latency),
        drained_rest(silence(latency), latency as int) == Seq::<u32>::empty(),
{
    assert(drained_block(silence(latency), latency as int) =~= silence(latency));
    assert(drained_rest(silence(latency), latency as int) =~= Seq::<u32>::empty());
}

/// No loss, no duplication, no reordering: for every interleaving of
/// offers and takes, the samples handed out followed by the samples still
/// buffered are exactly the initial contents followed by the accepted
/// offers, in order — so what the consumer has seen is always a prefix of
/// that stream. Each sample is therefore delivered exactly once, in the
/// order the producer offered it, whatever the scheduling of the two
/// sides was.
pub proof fn lemma_no_loss_no_duplication(init: Seq<u32>, cap: int, ops: Seq<BufferOp>)
    ensures
        run_taken(init, cap, ops) + run_contents(init, cap, ops) == init + run_accepted(
            init,
            cap,
            ops,
        ),
        run_taken(init, cap, ops).is_prefix_of(init + run_accepted(init, cap, ops)),
    decreases ops.len(),
{
    if ops.len() == 0 {
        assert(run_taken(init, cap, ops) + run_contents(init, cap, ops) =~= init + run_accepted(
            init,
            cap,
            ops,
        ));
    } else {
        let shorter = ops.drop_last();
        lemma_no_loss_no_duplication(init, cap, shorter);
        let prev = run_contents(init, cap, shorter);
        let taken = run_taken(init, cap, shorter);
        let acc = run_accepted(init, cap, shorter);
        match ops.last() {
            BufferOp::Offer(s) => {
                if prev.len() < cap {
                    assert(taken + prev.push(s) =~= (taken + prev).push(s));
                    assert(init + acc.push(s) =~= (init + acc).push(s));
                }
            },
            BufferOp::Take => {
                if prev.len() > 0 {
                    assert(taken.push(prev[0]) + prev.drop_first() =~= taken + prev);
                }
            },
        }
    }
    let taken_all = run_taken(init, cap, ops);
    let stream = init + run_accepted(init, cap, ops);
    assert(taken_all =~= stream.subrange(0, taken_all.len() as int));
}

} // verus!
