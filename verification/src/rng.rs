//! The injected randomness: a seedable generator drawn on for serve
//! directions, and nothing else.

use vstd::prelude::*;
use rand::rngs::StdRng;
use rand::Rng;
use crate::player::Player;

verus! {

/// rand's standard seedable generator, opaque to the verifier.  Callers
/// construct and seed it; the simulation only draws serve directions from
/// it, so a fixed seed replays a match deterministically.
#[verifier::external_type_specification]
#[verifier::external_body]
pub struct ExStdRng(StdRng);

/// Relies on rand's `Rng::gen` for `bool`: advances the generator and
/// returns one of the two booleans.  Nothing is promised of which, so every
/// caller must be correct for either outcome.
#[verifier::external_body]
fn draw_bool(rng: &mut StdRng) -> bool {
    rng.gen::<bool>()
}

/// Draws the player toward whom a manual serve heads; either player can
/// come out, uniformly at random for a well-seeded generator.
pub fn random_serve_player(rng: &mut StdRng) -> (p: Player)
{
    if draw_bool(rng) {
        Player::Player1
    } else {
        Player::Player2
    }
}

} // verus!
