//! The split halves of the latency ring buffer.
//!
//! For the real-time embedding the buffer is split once, at setup, into a
//! write-only `Producer` and a read-only `Consumer`. Each handle is moved
//! into exactly one callback context — the producer into the audio input
//! callback, the consumer into the audio output callback — and the two
//! never synchronize with each other in any other way. Both types are
//! move-only and cannot be cloned, so the single-writer/single-reader
//! discipline is enforced by construction.
//!
//! While the other half runs concurrently, the samples a handle will see
//! are not a function of the handle alone, so the operations here promise
//! nothing about the contents; what they do per sample is the same policy
//! that `LatencyRb` states and proves exactly: offer each sample in order
//! and drop it on overrun, read each slot in order and substitute silence
//! on underrun. The model's interleaving law (`lemma_no_loss_no_duplication`)
//! covers every order in which the two sides' operations can take effect.

use vstd::prelude::*;

use ringbuf::HeapCons;
use ringbuf::HeapProd;

use crate::ring::LatencyRb;
use crate::ring::substitute;

verus! {

/// The write-only half of the buffer, owned by the input callback.
#[verifier::external_body]
pub struct Producer {
    inner: HeapProd<u32>,
}

/// The read-only half of the buffer, owned by the output callback.
#[verifier::external_body]
pub struct Consumer {
    inner: HeapCons<u32>,
}

impl LatencyRb {
    /// Relies on ringbuf's `Split::split`: consumes the buffer and hands
    /// out its two halves, each exactly once. The samples already buffered
    /// (the prefill) stay in place and are what the consumer reads first.
    #[verifier::external_body]
    pub fn split(self) -> (halves: (Producer, Consumer))
    {
        let (prod, cons) = ringbuf::traits::Split::split(self.inner);
        (Producer { inner: prod }, Consumer { inner: cons })
    }
}

/// Relies on ringbuf's `Producer::try_push`: appends the sample unless the
/// buffer is full at that moment, in which case the sample is dropped.
/// Under a concurrently running consumer the outcome is not a function of
/// this handle, so nothing more is stated. Never blocks.
#[verifier::external_body]
fn prod_try_push(prod: &mut Producer, sample: u32) -> (accepted: bool)
{
    ringbuf::traits::Producer::try_push(&mut prod.inner, sample).is_ok()
}

/// Relies on ringbuf's `Consumer::try_pop`: removes and returns the oldest
/// sample, or `None` if the buffer is empty at that moment. Under a
/// concurrently running producer the outcome is not a function of this
/// handle, so nothing more is stated. Never blocks.
#[verifier::external_body]
fn cons_try_pop(cons: &mut Consumer) -> (popped: Option<u32>)
{
    ringbuf::traits::Consumer::try_pop(&mut cons.inner)
}

impl Producer {
    /// One captured block, as the input callback hands it over: every
    /// sample is offered to the buffer in order, and a sample that meets a
    /// full buffer is silently dropped (overrun policy). Never blocks,
    /// never retries.
    pub fn feed_block(&mut self, block: &Vec<u32>)
    {
        let mut i: usize = 0;
        while i < block.len()
            decreases block.len() - i,
        {
            let _ = prod_try_push(self, block[i]);
            i = i + 1;
        }
    }
}

impl Consumer {
    /// One playback block, as the output callback asks for it: `len`
    /// slots, each filled with the oldest buffered sample, or with silence
    /// when the buffer is empty at that slot (underrun policy). Never
    /// blocks, never retries.
    pub fn drain_block(&mut self, len: usize) -> (block: Vec<u32>)
        ensures
            block@.len() == len,
    {
        let mut block: Vec<u32> = Vec::new();
        let mut i: usize = 0;
        while i < len
            invariant
                i <= len,
                block@.len() == i,
            decreases len - i,
        {
            let popped = cons_try_pop(self);
            let sample = substitute(popped);
            block.push(sample);
            i = i + 1;
        }
        block
    }
}

} // verus!
