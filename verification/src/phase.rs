//! The top-level state machine gating which systems run.

use vstd::prelude::*;
use crate::input::InputState;

verus! {

/// The top-level mode of the match.  Exactly one is active; only `Playing`
/// lets the paddle, ball, collision, and scoring systems run.
#[derive(Clone, Copy, Debug, PartialEq, Eq, Structural)]
pub enum MatchPhase {
    /// The initial menu; selecting start moves to `Playing`.
    MainMenu,
    /// The simulation runs.
    Playing,
    /// Everything holds position; the serve/pause control resumes play.
    Paused,
}

impl MatchPhase {
    /// The phase after one tick of input: start leaves the menu, and the
    /// serve/pause control toggles between playing and paused.  No
    /// transition ever returns to the menu.
    pub open spec fn spec_next(self, input: InputState) -> MatchPhase {
        match self {
            MatchPhase::MainMenu => if input.start_pressed {
                MatchPhase::Playing
            } else {
                MatchPhase::MainMenu
            },
            MatchPhase::Playing => if input.serve_pressed {
                MatchPhase::Paused
            } else {
                MatchPhase::Playing
            },
            MatchPhase::Paused => if input.serve_pressed {
                MatchPhase::Playing
            } else {
                MatchPhase::Paused
            },
        }
    }

    /// Applies this tick's input to the phase machine.
    pub fn next(&self, input: &InputState) -> (r: MatchPhase)
        ensures
            r == self.spec_next(*input),
    {
        match self {
            MatchPhase::MainMenu => if input.start_pressed {
                MatchPhase::Playing
            } else {
                MatchPhase::MainMenu
            },
            MatchPhase::Playing => if input.serve_pressed {
                MatchPhase::Paused
            } else {
                MatchPhase::Playing
            },
            MatchPhase::Paused => if input.serve_pressed {
                MatchPhase::Playing
            } else {
                MatchPhase::Paused
            },
        }
    }
}

} // verus!
