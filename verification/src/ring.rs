//! The latency ring buffer.
//!
//! `LatencyRb` owns a fixed-capacity, lock-free sample ring buffer. Samples
//! are carried as the raw bit patterns of 32-bit float amplitudes, so that
//! the contracts can speak of them as plain values; silence is the all-zero
//! pattern. The buffer is created with a target latency of `L` samples: its
//! capacity is `2 * L` and it starts out holding `L` silence samples, so
//! that playback runs a deliberate `L` samples behind capture.
//!
//! Pushing into a full buffer drops the new sample (overrun policy) and
//! popping from an empty buffer reports that there is nothing (underrun
//! policy, the caller substitutes silence); neither ever blocks or panics.

use vstd::prelude::*;

use ringbuf::HeapRb;

use crate::model::SILENCE;
use crate::model::drained_block;
use crate::model::drained_rest;
use crate::model::fed;
use crate::model::min_int;
use crate::model::silence;

verus! {

/// A fixed-capacity circular sample buffer with one writer and one reader.
/// It holds ringbuf's heap-allocated ring buffer, which the verifier does
/// not look into; everything stated about it goes through `rb_contents`
/// and `rb_capacity` and the trusted wrappers below.
#[verifier::external_body]
pub struct LatencyRb {
    pub(crate) inner: HeapRb<u32>,
}

/// The samples the buffer currently holds, oldest first.
pub uninterp spec fn rb_contents(rb: LatencyRb) -> Seq<u32>;

/// The fixed capacity the buffer was created with.
pub uninterp spec fn rb_capacity(rb: LatencyRb) -> int;

impl LatencyRb {
    /// The samples the buffer currently holds, oldest first.
    pub open spec fn contents(self) -> Seq<u32> {
        rb_contents(self)
    }

    /// The fixed capacity the buffer was created with.
    pub open spec fn cap(self) -> int {
        rb_capacity(self)
    }

    /// A buffer never holds more samples than its capacity. Constructors
    /// establish this and every operation preserves it.
    pub open spec fn wf(self) -> bool {
        self.contents().len() <= self.cap()
    }
}

/// Relies on ringbuf's `HeapRb::new`: a fresh ring buffer with exactly the
/// given capacity, holding nothing. `new` panics on capacity zero, so zero
/// is excluded here.
#[verifier::external_body]
fn rb_new(capacity: usize) -> (rb: LatencyRb)
    requires
        1 <= capacity,
    ensures
        rb_capacity(rb) == capacity,
        rb_contents(rb) == Seq::<u32>::empty(),
{
    LatencyRb { inner: HeapRb::new(capacity) }
}

/// Relies on ringbuf's `Producer::try_push`: when the buffer is not full
/// the sample is appended behind the newest one and `Ok` comes back; when
/// it is full the sample is handed back in the `Err` and nothing changes.
#[verifier::external_body]
fn rb_try_push(rb: &mut LatencyRb, sample: u32) -> (accepted: bool)
    ensures
        rb_capacity(*final(rb)) == rb_capacity(*old(rb)),
        rb_contents(*old(rb)).len() < rb_capacity(*old(rb)) ==> accepted
            && rb_contents(*final(rb)) == rb_contents(*old(rb)).push(sample),
        rb_contents(*old(rb)).len() >= rb_capacity(*old(rb)) ==> !accepted
            && rb_contents(*final(rb)) == rb_contents(*old(rb)),
{
    ringbuf::traits::Producer::try_push(&mut rb.inner, sample).is_ok()
}

/// Relies on ringbuf's `Consumer::try_pop`: when the buffer is not empty
/// the oldest sample is removed and returned; when it is empty `None`
/// comes back and nothing changes.
#[verifier::external_body]
fn rb_try_pop(rb: &mut LatencyRb) -> (popped: Option<u32>)
    ensures
        rb_capacity(*final(rb)) == rb_capacity(*old(rb)),
        rb_contents(*old(rb)).len() > 0 ==> popped == Some(rb_contents(*old(rb))[0])
            && rb_contents(*final(rb)) == rb_contents(*old(rb)).drop_first(),
        rb_contents(*old(rb)).len() == 0 ==> popped == None::<u32> && rb_contents(*final(rb))
            == rb_contents(*old(rb)),
{
    ringbuf::traits::Consumer::try_pop(&mut rb.inner)
}

/// Relies on ringbuf's `Observer::occupied_len`: the number of samples
/// stored. The count is exact here because this handle owns both ends of
/// the buffer, so nothing runs beside the call.
#[verifier::external_body]
fn rb_len(rb: &LatencyRb) -> (n: usize)
    ensures
        n == rb_contents(*rb).len(),
{
    ringbuf::traits::Observer::occupied_len(&rb.inner)
}

/// Relies on ringbuf's `Observer::capacity`: the fixed capacity the buffer
/// was created with.
#[verifier::external_body]
fn rb_cap(rb: &LatencyRb) -> (c: usize)
    ensures
        c == rb_capacity(*rb),
{
    ringbuf::traits::Observer::capacity(&rb.inner).get()
}

/// The underrun rule of the output side: a present sample passes through
/// unchanged, a missing one becomes silence. Never a stale or arbitrary
/// value.
pub fn substitute(popped: Option<u32>) -> (sample: u32)
    ensures
        sample == (match popped {
            Some(v) => v,
            None => SILENCE,
        }),
{
    match popped {
        Some(v) => v,
        None => SILENCE,
    }
}

impl LatencyRb {
    /// An empty buffer with the given fixed capacity.
    pub fn with_capacity(capacity: usize) -> (rb: LatencyRb)
        requires
            1 <= capacity,
        ensures
            rb.cap() == capacity,
            rb.contents() == Seq::<u32>::empty(),
            rb.wf(),
    {
        rb_new(capacity)
    }

    /// A buffer set up for a target latency of `latency` samples: capacity
    /// `2 * latency`, prefilled with exactly `latency` silence samples.
    /// The capacity is twice the prefill, so the prefill itself can never
    /// hit a full buffer; that is proved, not handled.
    pub fn with_latency(latency: usize) -> (rb: LatencyRb)
        requires
            1 <= latency <= usize::MAX / 2,
        ensures
            rb.cap() == 2 * latency,
            rb.contents() == silence(latency as nat),
            rb.wf(),
    {
        let mut rb = LatencyRb::with_capacity(2 * latency);
        let mut i: usize = 0;
        while i < latency
            invariant
                i <= latency,
                rb.cap() == 2 * latency,
                rb.contents() == silence(i as nat),
            decreases latency - i,
        {
            let accepted = rb.push(SILENCE);
            i = i + 1;
            proof {
                // The buffer is at most half full during the prefill, so
                // this push cannot have met a full buffer.
                assert(accepted);
                assert(rb.contents() =~= silence(i as nat));
            }
        }
        rb
    }

    /// Write one sample at the write cursor. Succeeds exactly when the
    /// buffer is not full; on a full buffer the sample is dropped and the
    /// buffer is left as it was (overrun policy). Never blocks.
    pub fn push(&mut self, sample: u32) -> (accepted: bool)
        ensures
            final(self).cap() == old(self).cap(),
            accepted == (old(self).contents().len() < old(self).cap()),
            accepted ==> final(self).contents() == old(self).contents().push(sample),
            !accepted ==> final(self).contents() == old(self).contents(),
            old(self).wf() ==> final(self).wf(),
    {
        rb_try_push(self, sample)
    }

    /// Read one sample at the read cursor. Returns the oldest sample
    /// exactly when the buffer is not empty; on an empty buffer returns
    /// `None` and leaves the buffer as it was (underrun policy). Never
    /// blocks.
    pub fn pop(&mut self) -> (popped: Option<u32>)
        ensures
            final(self).cap() == old(self).cap(),
            popped.is_some() == (old(self).contents().len() > 0),
            old(self).contents().len() > 0 ==> popped == Some(old(self).contents()[0])
                && final(self).contents() == old(self).contents().drop_first(),
            old(self).contents().len() == 0 ==> final(self).contents() == old(self).contents(),
            old(self).wf() ==> final(self).wf(),
    {
        rb_try_pop(self)
    }

    /// The number of samples currently buffered.
    pub fn len(&self) -> (n: usize)
        ensures
            n == self.contents().len(),
    {
        rb_len(self)
    }

    /// The fixed capacity.
    pub fn capacity(&self) -> (c: usize)
        ensures
            c == self.cap(),
    {
        rb_cap(self)
    }

    /// The input side of the loopback path: every sample of the block is
    /// offered to the buffer in order; once the buffer is full the rest of
    /// the block is dropped (overrun policy). Never blocks, never retries.
    pub fn feed_block(&mut self, block: &Vec<u32>)
        requires
            old(self).wf(),
        ensures
            final(self).cap() == old(self).cap(),
            final(self).contents() == fed(old(self).contents(), old(self).cap(), block@),
            final(self).wf(),
    {
        let ghost c0 = self.contents();
        let ghost cap = self.cap();
        let mut i: usize = 0;
        while i < block.len()
            invariant
                i <= block.len(),
                c0.len() <= cap,
                self.cap() == cap,
                self.contents() == c0 + block@.take(min_int(i as int, cap - c0.len())),
            decreases block.len() - i,
        {
            let _ = self.push(block[i]);
            i = i + 1;
            proof {
                assert(self.contents() =~= c0 + block@.take(min_int(i as int, cap - c0.len())));
            }
        }
        proof {
            assert(self.contents() =~= fed(c0, cap, block@));
        }
    }

    /// The output side of the loopback path: a block of `len` samples,
    /// the oldest buffered samples in order, padded with silence once the
    /// buffer runs out (underrun policy). Never blocks, never retries.
    pub fn drain_block(&mut self, len: usize) -> (block: Vec<u32>)
        ensures
            final(self).cap() == old(self).cap(),
            block@ == drained_block(old(self).contents(), len as int),
            final(self).contents() == drained_rest(old(self).contents(), len as int),
            old(self).wf() ==> final(self).wf(),
    {
        let ghost c0 = self.contents();
        let ghost cap = self.cap();
        let mut block: Vec<u32> = Vec::new();
        let mut i: usize = 0;
        while i < len
            invariant
                i <= len,
                self.cap() == cap,
                block@ == drained_block(c0, i as int),
                self.contents() == drained_rest(c0, i as int),
            decreases len - i,
        {
            let popped = self.pop();
            let sample = substitute(popped);
            block.push(sample);
            i = i + 1;
            proof {
                assert(block@ =~= drained_block(c0, i as int));
                assert(self.contents() =~= drained_rest(c0, i as int));
            }
        }
        block
    }
}

} // verus!
