//! Paddle motion: input-driven vertical movement clamped to the field.

use vstd::prelude::*;
use crate::geom::{clamp_i64, clamp_spec, Config, COORD_MAX, DT_MAX, SPEED_MAX};
use crate::input::InputState;
use crate::player::Player;

verus! {

/// A paddle: its owner, its fixed horizontal center, and its moving vertical
/// center, both in subunits.
#[derive(Clone, Copy, Debug, PartialEq, Eq, Structural)]
pub struct Paddle {
    pub player: Player,
    pub x: i64,
    pub y: i64,
}

/// Mathematical model of a [`Paddle`].
pub ghost struct PaddleM {
    pub player: Player,
    pub x: int,
    pub y: int,
}

impl View for Paddle {
    type V = PaddleM;

    open spec fn view(&self) -> PaddleM {
        PaddleM { player: self.player, x: self.x as int, y: self.y as int }
    }
}

/// What one tick of paddle motion yields: a held up control shifts the center
/// up by `speed * dt` and clamps, a held down control shifts it down and
/// clamps, and a final clamp corrects a center that was already out of
/// bounds even when no control is held.
pub open spec fn spec_move_paddle(p: PaddleM, cfg: Config, up: bool, down: bool, dt: int) -> PaddleM {
    let lo = cfg.paddle_min_y();
    let hi = cfg.paddle_max_y();
    let d = cfg.paddle_speed * dt;
    let y1 = if up {
        clamp_spec(p.y + d, lo, hi)
    } else {
        p.y
    };
    let y2 = if down {
        clamp_spec(y1 - d, lo, hi)
    } else {
        y1
    };
    PaddleM { player: p.player, x: p.x, y: clamp_spec(y2, lo, hi) }
}

impl Paddle {
    /// Moves the paddle for one tick from its own controls in `input`.  The
    /// center always ends inside `[paddle_min_y, paddle_max_y]`, however far
    /// the input would have pushed it and wherever it started.
    pub fn move_paddle(&mut self, cfg: &Config, input: &InputState, dt: i64)
        requires
            cfg.valid(),
            0 <= dt <= DT_MAX,
            -2 * COORD_MAX <= old(self).y <= 2 * COORD_MAX,
        ensures
            final(self)@ == spec_move_paddle(
                old(self)@,
                *cfg,
                input.spec_up_held(old(self).player),
                input.spec_down_held(old(self).player),
                dt as int,
            ),
            cfg.paddle_min_y() <= final(self).y <= cfg.paddle_max_y(),
            final(self).player == old(self).player,
            final(self).x == old(self).x,
    {
        let pl = self.player;
        let up = input.up_held(pl);
        let down = input.down_held(pl);
        let lo = -cfg.half_height + cfg.paddle_half_height;
        let hi = cfg.half_height - cfg.paddle_half_height;
        proof {
            assert(0 <= cfg.paddle_speed * dt <= SPEED_MAX * DT_MAX) by (nonlinear_arith)
                requires
                    0 < cfg.paddle_speed <= SPEED_MAX,
                    0 <= dt <= DT_MAX,
            ;
        }
        let d = cfg.paddle_speed * dt;
        if up {
            self.y = clamp_i64(self.y + d, lo, hi);
        }
        if down {
            self.y = clamp_i64(self.y - d, lo, hi);
        }
        self.y = clamp_i64(self.y, lo, hi);
    }
}

} // verus!
