//! Play/pause control for the stream pair.
//!
//! A session is either playing or paused as a whole: the input and output
//! streams are always toggled together, from a non-real-time context. The
//! state machine has exactly two states and one transition: toggling.

use vstd::prelude::*;

verus! {

/// Activity state of the stream pair. Both streams share one state: there is
/// no independent pause control for input versus output.
#[derive(Clone, Copy, PartialEq, Eq, Structural, Debug)]
pub enum Activity {
    Playing,
    Paused,
}

impl Activity {
    /// The state reached from `self` by one toggle.
    pub open spec fn flipped(self) -> Activity {
        match self {
            Activity::Playing => Activity::Paused,
            Activity::Paused => Activity::Playing,
        }
    }
}

/// One press of the play/pause control: a paused session resumes, a playing
/// session pauses. Toggling twice restores the original state.
pub fn toggled(state: Activity) -> (next: Activity)
    ensures
        next == state.flipped(),
        next.flipped() == state,
{
    match state {
        Activity::Playing => Activity::Paused,
        Activity::Paused => Activity::Playing,
    }
}

} // verus!
