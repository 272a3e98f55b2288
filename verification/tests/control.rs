//! Tests of the play/pause control state machine.

use latency_ring::Activity;
use latency_ring::toggled;

#[test]
fn toggle_flips_between_the_two_states() {
    assert_eq!(toggled(Activity::Playing), Activity::Paused);
    assert_eq!(toggled(Activity::Paused), Activity::Playing);
}

#[test]
fn toggling_twice_restores_the_state() {
    for start in [Activity::Playing, Activity::Paused] {
        assert_eq!(toggled(toggled(start)), start);
    }
}
