//! Ball motion: integration, wall and paddle reflection, and serving.

use vstd::prelude::*;
use crate::events::GameEvent;
use crate::geom::{clamp_i64, clamp_spec, Config, Vec2, Vec2M, COORD_MAX, DT_MAX, SPEED_MAX};
use crate::player::{GameColor, Player};

verus! {

/// The ball: center position in subunits, velocity in units per second, and
/// a cosmetic color tag set by the last paddle touch.
#[derive(Clone, Copy, Debug, PartialEq, Eq, Structural)]
pub struct Ball {
    pub pos: Vec2,
    pub vel: Vec2,
    pub tint: GameColor,
}

/// Mathematical model of a [`Ball`].
pub ghost struct BallM {
    pub pos: Vec2M,
    pub vel: Vec2M,
    pub tint: GameColor,
}

impl View for Ball {
    type V = BallM;

    open spec fn view(&self) -> BallM {
        BallM { pos: self.pos@, vel: self.vel@, tint: self.tint }
    }
}

/// What integration over `dt` milliseconds yields: the position advances by
/// `velocity * dt` subunits on each axis.
pub open spec fn spec_integrate(b: BallM, dt: int) -> BallM {
    BallM {
        pos: Vec2M { x: b.pos.x + b.vel.x * dt, y: b.pos.y + b.vel.y * dt },
        vel: b.vel,
        tint: b.tint,
    }
}

/// Whether the ball's post-move center has reached either horizontal wall
/// (closed interval: sitting exactly on a wall counts).
pub open spec fn at_wall(b: BallM, cfg: Config) -> bool {
    b.pos.y <= -cfg.half_height || b.pos.y >= cfg.half_height
}

/// What wall reflection yields: when the post-move center has reached a
/// wall, the vertical velocity is negated and the center is clamped back
/// into the field so the ball cannot tunnel past the wall; otherwise the
/// ball is unchanged.
pub open spec fn spec_reflect_vertical(b: BallM, cfg: Config) -> BallM {
    if at_wall(b, cfg) {
        BallM {
            pos: Vec2M {
                x: b.pos.x,
                y: clamp_spec(b.pos.y, -cfg.half_height as int, cfg.half_height as int),
            },
            vel: Vec2M { x: b.vel.x, y: -b.vel.y },
            tint: b.tint,
        }
    } else {
        b
    }
}

/// What paddle contact yields: the horizontal velocity is negated.
pub open spec fn spec_reflect_horizontal(b: BallM) -> BallM {
    BallM { pos: b.pos, vel: Vec2M { x: -b.vel.x, y: b.vel.y }, tint: b.tint }
}

/// What a serve reset yields: the ball returns to the field center with the
/// named player's serve heading; the color tag is left as it was.
pub open spec fn spec_reset(b: BallM, cfg: Config, p: Player) -> BallM {
    BallM { pos: Vec2M { x: 0, y: 0 }, vel: p.spec_start_speed(cfg), tint: b.tint }
}

impl Ball {
    /// Advances the position by `velocity * dt`.
    pub fn integrate(&mut self, dt: i64)
        requires
            0 <= dt <= DT_MAX,
            -4 * COORD_MAX <= old(self).pos.x <= 4 * COORD_MAX,
            -4 * COORD_MAX <= old(self).pos.y <= 4 * COORD_MAX,
            -SPEED_MAX <= old(self).vel.x <= SPEED_MAX,
            -SPEED_MAX <= old(self).vel.y <= SPEED_MAX,
        ensures
            final(self)@ == spec_integrate(old(self)@, dt as int),
    {
        proof {
            assert(-(SPEED_MAX * DT_MAX) <= self.vel.x * dt <= SPEED_MAX * DT_MAX)
                by (nonlinear_arith)
                requires
                    -SPEED_MAX <= self.vel.x <= SPEED_MAX,
                    0 <= dt <= DT_MAX,
            ;
            assert(-(SPEED_MAX * DT_MAX) <= self.vel.y * dt <= SPEED_MAX * DT_MAX)
                by (nonlinear_arith)
                requires
                    -SPEED_MAX <= self.vel.y <= SPEED_MAX,
                    0 <= dt <= DT_MAX,
            ;
        }
        self.pos.x = self.pos.x + self.vel.x * dt;
        self.pos.y = self.pos.y + self.vel.y * dt;
    }

    /// Reflects off a horizontal wall when the post-move center has reached
    /// one, negating the vertical velocity and clamping the center back into
    /// the field.
    pub fn reflect_vertical(&mut self, cfg: &Config)
        requires
            cfg.valid(),
            -SPEED_MAX <= old(self).vel.y <= SPEED_MAX,
        ensures
            final(self)@ == spec_reflect_vertical(old(self)@, *cfg),
    {
        if self.pos.y <= -cfg.half_height || self.pos.y >= cfg.half_height {
            self.pos.y = clamp_i64(self.pos.y, -cfg.half_height, cfg.half_height);
            self.vel.y = -self.vel.y;
        }
    }

    /// Reflects off a paddle, negating the horizontal velocity.
    pub fn reflect_horizontal(&mut self)
        requires
            old(self).vel.x > i64::MIN,
        ensures
            final(self)@ == spec_reflect_horizontal(old(self)@),
    {
        self.vel.x = -self.vel.x;
    }

    /// Returns the ball to the field center and serves it with the named
    /// player's heading.
    pub fn reset_to_center(&mut self, cfg: &Config, p: Player)
        requires
            cfg.speed_ok(),
        ensures
            final(self)@ == spec_reset(old(self)@, *cfg, p),
            final(self).pos.x == 0 && final(self).pos.y == 0,
            final(self)@.vel == p.spec_start_speed(*cfg),
    {
        self.pos = Vec2 { x: 0, y: 0 };
        self.vel = p.start_speed(cfg);
    }
}

/// The ball after applying the reset events of a tick's list from index `i`
/// on, in order; scored points do not move the ball.
pub open spec fn spec_ball_resets_from(b: BallM, cfg: Config, evs: Seq<GameEvent>, i: int) -> BallM
    decreases evs.len() - i,
{
    if i < 0 || i >= evs.len() {
        b
    } else {
        let b2 = match evs[i] {
            GameEvent::BallReset(p) => spec_reset(b, cfg, p),
            GameEvent::PointScored(_) => b,
        };
        spec_ball_resets_from(b2, cfg, evs, i + 1)
    }
}

/// The ball after applying a whole event list in order.
pub open spec fn spec_ball_after_resets(b: BallM, cfg: Config, evs: Seq<GameEvent>) -> BallM {
    spec_ball_resets_from(b, cfg, evs, 0)
}

/// Applies every reset event of the tick's list to the ball, in order.
pub fn reset_ball(ball: &mut Ball, cfg: &Config, evs: &Vec<GameEvent>)
    requires
        cfg.speed_ok(),
    ensures
        final(ball)@ == spec_ball_after_resets(old(ball)@, *cfg, evs@),
{
    let ghost target = spec_ball_after_resets(old(ball)@, *cfg, evs@);
    let n = evs.len();
    let mut i: usize = 0;
    while i < n
        invariant
            0 <= i <= n,
            n == evs@.len(),
            cfg.speed_ok(),
            spec_ball_resets_from(ball@, *cfg, evs@, i as int) == target,
        decreases n - i,
    {
        match evs[i] {
            GameEvent::BallReset(p) => ball.reset_to_center(cfg, p),
            GameEvent::PointScored(_) => {},
        }
        i = i + 1;
    }
}

proof fn lemma_reset_applied_from(b: BallM, cfg: Config, evs: Seq<GameEvent>, p: Player, i: int)
    requires
        0 <= i < evs.len(),
        evs.last() == GameEvent::BallReset(p),
    ensures
        spec_ball_resets_from(b, cfg, evs, i).pos == (Vec2M { x: 0, y: 0 }),
        spec_ball_resets_from(b, cfg, evs, i).vel == p.spec_start_speed(cfg),
    decreases evs.len() - i,
{
    if i < evs.len() - 1 {
        let b2 = match evs[i] {
            GameEvent::BallReset(q) => spec_reset(b, cfg, q),
            GameEvent::PointScored(_) => b,
        };
        lemma_reset_applied_from(b2, cfg, evs, p, i + 1);
    } else {
        let b2 = spec_reset(b, cfg, p);
        assert(spec_ball_resets_from(b2, cfg, evs, i + 1) == b2);
    }
}

/// The reset invariant: after a tick whose event list ends with
/// `BallReset(p)` is applied, the ball sits exactly at the field center and
/// moves with `p`'s serve heading.
pub proof fn lemma_reset_applied(b: BallM, cfg: Config, evs: Seq<GameEvent>, p: Player)
    requires
        evs.len() > 0,
        evs.last() == GameEvent::BallReset(p),
    ensures
        spec_ball_after_resets(b, cfg, evs).pos == (Vec2M { x: 0, y: 0 }),
        spec_ball_after_resets(b, cfg, evs).vel == p.spec_start_speed(cfg),
{
    lemma_reset_applied_from(b, cfg, evs, p, 0);
}

/// Wall reflection is idempotent on the sign of the vertical velocity: a
/// ball at a wall reflects to `-v`, and since the reflected ball still
/// touches the wall, a second consecutive reflection returns it to `+v`.
pub proof fn lemma_wall_reflection_sign(b: BallM, cfg: Config)
    requires
        at_wall(b, cfg),
    ensures
        spec_reflect_vertical(b, cfg).vel.y == -b.vel.y,
        at_wall(spec_reflect_vertical(b, cfg), cfg),
        spec_reflect_vertical(spec_reflect_vertical(b, cfg), cfg).vel.y == b.vel.y,
{
}

} // verus!
