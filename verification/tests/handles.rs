//! Tests of the split producer/consumer halves: the same buffer driven
//! through the two handles that the real-time callbacks own. The handles
//! are exercised here from one thread, in interleaved order; the two-thread
//! embedding itself lives in the surrounding application.

use latency_ring::LatencyRb;

#[test]
fn split_halves_carry_samples_across() {
    let (mut producer, mut consumer) = LatencyRb::with_latency(4).split();
    producer.feed_block(&vec![5u32, 6, 7]);
    let block = consumer.drain_block(9);
    // Four prefilled silence samples, the three fed samples, then underrun
    // silence for the two slots the buffer could not fill.
    assert_eq!(block, vec![0, 0, 0, 0, 5, 6, 7, 0, 0]);
}

#[test]
fn split_keeps_overrun_policy() {
    let (mut producer, mut consumer) = LatencyRb::with_capacity(2).split();
    producer.feed_block(&vec![1u32, 2, 3, 4]);
    let block = consumer.drain_block(3);
    assert_eq!(block, vec![1, 2, 0]);
}

#[test]
fn interleaved_blocks_preserve_producer_order() {
    // Feeder and drainer take turns in a deterministic pseudo-random
    // schedule, as the two callbacks would interleave: whatever the
    // schedule, the non-silence samples arrive in push order, each at
    // most once.
    let (mut producer, mut consumer) = LatencyRb::with_capacity(16).split();
    let mut next: u32 = 1;
    let mut seen: Vec<u32> = Vec::new();
    let mut state: u64 = 0x9E3779B97F4A7C15;
    for _ in 0..300 {
        state = state.wrapping_mul(6364136223846793005).wrapping_add(1442695040888963407);
        if (state >> 33) & 1 == 0 {
            let block: Vec<u32> = (0..3).map(|i| next + i).collect();
            next += 3;
            producer.feed_block(&block);
        } else {
            let block = consumer.drain_block(4);
            seen.extend(block.into_iter().filter(|&s| s != 0));
        }
    }
    seen.extend(consumer.drain_block(16).into_iter().filter(|&s| s != 0));
    for pair in seen.windows(2) {
        assert!(pair[0] < pair[1], "out of order: {} before {}", pair[0], pair[1]);
    }
    for &s in &seen {
        assert!(s < next);
    }
}
