//! The per-tick input snapshot handed to the simulation.

use vstd::prelude::*;
use crate::player::Player;

verus! {

/// Which controls are held or were just pressed this tick.  The caller maps
/// whatever physical keys it uses onto this snapshot; the simulation never
/// sees key codes.
#[derive(Clone, Copy, Debug, PartialEq, Eq, Structural)]
pub struct InputState {
    /// Player one's up control is held.
    pub p1_up: bool,
    /// Player one's down control is held.
    pub p1_down: bool,
    /// Player two's up control is held.
    pub p2_up: bool,
    /// Player two's down control is held.
    pub p2_down: bool,
    /// The serve/pause control was just pressed (edge, not level).
    pub serve_pressed: bool,
    /// The menu start selection was just activated.
    pub start_pressed: bool,
}

impl InputState {
    /// Whether the given player's up control is held.
    pub open spec fn spec_up_held(self, p: Player) -> bool {
        match p {
            Player::Player1 => self.p1_up,
            Player::Player2 => self.p2_up,
        }
    }

    /// Returns whether the given player's up control is held.
    pub fn up_held(&self, p: Player) -> (r: bool)
        ensures
            r == self.spec_up_held(p),
    {
        match p {
            Player::Player1 => self.p1_up,
            Player::Player2 => self.p2_up,
        }
    }

    /// Whether the given player's down control is held.
    pub open spec fn spec_down_held(self, p: Player) -> bool {
        match p {
            Player::Player1 => self.p1_down,
            Player::Player2 => self.p2_down,
        }
    }

    /// Returns whether the given player's down control is held.
    pub fn down_held(&self, p: Player) -> (r: bool)
        ensures
            r == self.spec_down_held(p),
    {
        match p {
            Player::Player1 => self.p1_down,
            Player::Player2 => self.p2_down,
        }
    }

    /// The snapshot with every control released.
    pub fn released() -> (r: InputState)
        ensures
            r == (InputState {
                p1_up: false,
                p1_down: false,
                p2_up: false,
                p2_down: false,
                serve_pressed: false,
                start_pressed: false,
            }),
    {
        InputState {
            p1_up: false,
            p1_down: false,
            p2_up: false,
            p2_down: false,
            serve_pressed: false,
            start_pressed: false,
        }
    }
}

} // verus!
