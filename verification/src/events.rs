//! The transient events one tick can emit.

use vstd::prelude::*;
use crate::player::Player;

verus! {

/// An event produced by the collision resolver and consumed within the same
/// tick; nothing persists it.
#[derive(Clone, Copy, Debug, PartialEq, Eq, Structural)]
pub enum GameEvent {
    /// The named player scored a point.
    PointScored(Player),
    /// The ball returns to the field center and serves with the named
    /// player's heading.
    BallReset(Player),
}

} // verus!
