//! Tests of the latency ring buffer through its public interface, with
//! samples written as 32-bit float amplitudes converted to bit patterns.

use latency_ring::LatencyRb;
use latency_ring::SILENCE;

fn bits(amplitude: f32) -> u32 {
    amplitude.to_bits()
}

fn amp(sample: u32) -> f32 {
    f32::from_bits(sample)
}

#[test]
fn fifo_order_pushes_then_pops() {
    let mut rb = LatencyRb::with_capacity(8);
    let values = [0.25f32, -0.5, 1.0, 0.125, -1.0];
    for v in values {
        assert!(rb.push(bits(v)));
    }
    for v in values {
        assert_eq!(rb.pop(), Some(bits(v)));
    }
    assert_eq!(rb.pop(), None);
}

#[test]
fn capacity_bound_first_full_then_refused() {
    let latency = 3;
    let mut rb = LatencyRb::with_capacity(2 * latency);
    for i in 0..2 * latency {
        assert!(rb.push(i as u32), "push {} of {} must succeed", i + 1, 2 * latency);
    }
    assert_eq!(rb.len(), 2 * latency);
    assert_eq!(rb.len(), rb.capacity());
    assert!(!rb.push(99));
    assert_eq!(rb.len(), 2 * latency);
}

#[test]
fn prefill_yields_latency_silence_samples() {
    let latency = 5;
    let mut rb = LatencyRb::with_latency(latency);
    assert_eq!(rb.capacity(), 2 * latency);
    assert_eq!(rb.len(), latency);
    for _ in 0..latency {
        let popped = rb.pop().expect("prefilled sample must be there");
        assert_eq!(amp(popped), 0.0);
    }
    assert_eq!(rb.pop(), None);
}

#[test]
fn underrun_pops_report_no_data_and_drain_substitutes_silence() {
    let mut rb = LatencyRb::with_capacity(4);
    assert_eq!(rb.pop(), None);
    let block = rb.drain_block(3);
    assert_eq!(block.len(), 3);
    for sample in block {
        assert_eq!(amp(sample), 0.0);
        assert_eq!(sample, SILENCE);
    }
}

#[test]
fn overrun_push_leaves_buffer_unchanged() {
    let mut rb = LatencyRb::with_capacity(3);
    for v in [10u32, 20, 30] {
        assert!(rb.push(v));
    }
    assert!(!rb.push(40));
    assert!(!rb.push(41));
    assert_eq!(rb.len(), 3);
    assert_eq!(rb.pop(), Some(10));
    assert_eq!(rb.pop(), Some(20));
    assert_eq!(rb.pop(), Some(30));
    assert_eq!(rb.pop(), None);
}

#[test]
fn example_scenario_latency_four() {
    let mut rb = LatencyRb::with_latency(4);
    assert_eq!(rb.capacity(), 8);
    assert_eq!(rb.len(), 4);
    assert!(rb.push(bits(1.0)));
    assert!(rb.push(bits(2.0)));
    assert!(rb.push(bits(3.0)));
    assert_eq!(rb.len(), 7);
    for _ in 0..4 {
        assert_eq!(rb.pop().map(amp), Some(0.0));
    }
    assert_eq!(rb.pop().map(amp), Some(1.0));
    assert_eq!(rb.pop().map(amp), Some(2.0));
    assert_eq!(rb.pop().map(amp), Some(3.0));
    assert_eq!(rb.pop(), None);
    let substituted = rb.drain_block(1);
    assert_eq!(amp(substituted[0]), 0.0);
}

#[test]
fn feed_block_drops_what_does_not_fit() {
    let mut rb = LatencyRb::with_capacity(4);
    let block: Vec<u32> = vec![1, 2, 3, 4, 5, 6];
    rb.feed_block(&block);
    assert_eq!(rb.len(), 4);
    for expected in [1u32, 2, 3, 4] {
        assert_eq!(rb.pop(), Some(expected));
    }
    assert_eq!(rb.pop(), None);
}

#[test]
fn drain_block_pads_with_silence() {
    let mut rb = LatencyRb::with_capacity(8);
    rb.feed_block(&vec![bits(0.5), bits(-0.5)]);
    let block = rb.drain_block(5);
    assert_eq!(block.len(), 5);
    assert_eq!(amp(block[0]), 0.5);
    assert_eq!(amp(block[1]), -0.5);
    assert_eq!(amp(block[2]), 0.0);
    assert_eq!(amp(block[3]), 0.0);
    assert_eq!(amp(block[4]), 0.0);
    assert_eq!(rb.len(), 0);
}

#[test]
fn interleaved_pushes_and_pops_preserve_producer_order() {
    // A deterministic pseudo-random interleaving of one producer's pushes
    // and one consumer's pops, run step by step: whatever the schedule,
    // the popped samples must be exactly a prefix of the pushed samples,
    // in push order, with nothing lost, duplicated or reordered.
    let mut rb = LatencyRb::with_capacity(4);
    let mut produced: Vec<u32> = Vec::new();
    let mut consumed: Vec<u32> = Vec::new();
    let mut next: u32 = 1;
    let mut state: u64 = 0x2545F4914F6CDD1D;
    for _ in 0..400 {
        state = state.wrapping_mul(6364136223846793005).wrapping_add(1442695040888963407);
        if (state >> 33) & 1 == 0 {
            if rb.push(next) {
                produced.push(next);
            }
            next += 1;
        } else if let Some(v) = rb.pop() {
            consumed.push(v);
        }
    }
    while let Some(v) = rb.pop() {
        consumed.push(v);
    }
    assert_eq!(consumed, produced);
}
