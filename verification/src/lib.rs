//! A verified two-player pong simulation core.
//!
//! The library models the per-tick game update: paddle motion under input,
//! ball integration and wall/paddle reflection, goal detection, score
//! bookkeeping, and the menu/playing/paused state machine.  All geometry is
//! fixed-point: positions are measured in subunits (one thousandth of a world
//! unit), velocities in whole units per second, and elapsed time in
//! milliseconds, so that one tick's displacement is exactly `velocity * dt`
//! subunits with no rounding.
//!
//! Presentation concerns (windowing, rendering, audio, key mapping) live
//! outside the library; the simulation consumes a plain [`input::InputState`]
//! snapshot each tick and returns the events of that tick.

pub mod ball;
pub mod events;
pub mod geom;
pub mod input;
pub mod paddle;
pub mod phase;
pub mod player;
pub mod resolver;
pub mod rng;
pub mod score;
pub mod state;
