//! The match state and the per-tick simulation step that orchestrates it.

use vstd::prelude::*;
use rand::rngs::StdRng;
use crate::ball::{
    lemma_reset_applied, reset_ball, spec_ball_after_resets, spec_integrate,
    spec_reflect_vertical, Ball, BallM,
};
use crate::events::GameEvent;
use crate::geom::{Config, ConfigError, Vec2, Vec2M, DT_MAX, SPEED_MAX};
use crate::input::InputState;
use crate::paddle::{spec_move_paddle, Paddle, PaddleM};
use crate::phase::MatchPhase;
use crate::player::{GameColor, Player};
use crate::resolver::{
    lemma_resolve_events, resolve, spec_goal1_contact, spec_goal2_contact, spec_resolve,
};
use crate::rng::random_serve_player;
use crate::score::{
    apply_points, lemma_scores_total, spec_points, spec_points_from, spec_scores_after,
    ScoreBoard, ScoreM,
};

verus! {

/// The whole mutable state of one match.  The tick function is its only
/// writer; nothing else carries state across ticks.
#[derive(Clone, Copy, Debug, PartialEq, Eq, Structural)]
pub struct MatchState {
    pub config: Config,
    pub paddle1: Paddle,
    pub paddle2: Paddle,
    pub ball: Ball,
    pub score: ScoreBoard,
    pub phase: MatchPhase,
}

/// Mathematical model of a [`MatchState`].
pub ghost struct StateM {
    pub config: Config,
    pub paddle1: PaddleM,
    pub paddle2: PaddleM,
    pub ball: BallM,
    pub score: ScoreM,
    pub phase: MatchPhase,
}

impl View for MatchState {
    type V = StateM;

    open spec fn view(&self) -> StateM {
        StateM {
            config: self.config,
            paddle1: self.paddle1@,
            paddle2: self.paddle2@,
            ball: self.ball@,
            score: self.score@,
            phase: self.phase,
        }
    }
}

impl StateM {
    /// Well-formedness carried across ticks: the geometry is valid, each
    /// paddle sits on its own side within the clamp range, the ball is
    /// inside the field and short of both goals, and reflections have
    /// preserved the serve speed up to sign.
    pub open spec fn inv(self) -> bool {
        let cfg = self.config;
        &&& cfg.valid()
        &&& self.paddle1.player == Player::Player1
        &&& self.paddle2.player == Player::Player2
        &&& self.paddle1.x == cfg.paddle1_x()
        &&& self.paddle2.x == cfg.paddle2_x()
        &&& cfg.paddle_min_y() <= self.paddle1.y <= cfg.paddle_max_y()
        &&& cfg.paddle_min_y() <= self.paddle2.y <= cfg.paddle_max_y()
        &&& -cfg.half_height <= self.ball.pos.y <= cfg.half_height
        &&& -(cfg.half_width - cfg.ball_radius) <= self.ball.pos.x <= cfg.half_width
            - cfg.ball_radius
        &&& (self.ball.vel.x == cfg.serve_vx || self.ball.vel.x == -cfg.serve_vx)
        &&& (self.ball.vel.y == cfg.serve_vy || self.ball.vel.y == -cfg.serve_vy)
    }
}

/// The state a fresh match starts from: paddles centered on their own
/// sides, ball at the field center serving toward `pick`, both counters at
/// zero, and the main menu showing.
pub open spec fn spec_initial(cfg: Config, pick: Player) -> StateM {
    StateM {
        config: cfg,
        paddle1: PaddleM { player: Player::Player1, x: cfg.paddle1_x(), y: 0 },
        paddle2: PaddleM { player: Player::Player2, x: cfg.paddle2_x(), y: 0 },
        ball: BallM {
            pos: Vec2M { x: 0, y: 0 },
            vel: pick.spec_start_speed(cfg),
            tint: GameColor::White,
        },
        score: ScoreM { p1: 0, p2: 0 },
        phase: MatchPhase::MainMenu,
    }
}

/// What one tick yields: the updated state and the tick's ordered event
/// list.  Outside `Playing` only the phase machine advances and no event is
/// emitted.  Within it the fixed pipeline runs: both paddles from input,
/// ball integration, wall reflection on the post-move position, the
/// resolver, and the event list folded into the scoreboard and then the
/// ball, so a scored point is never lost to a same-tick reset.
pub open spec fn spec_tick(s: StateM, input: InputState, dt: int, pick: Player) -> (
    StateM,
    Seq<GameEvent>,
) {
    let phase2 = s.phase.spec_next(input);
    if s.phase != MatchPhase::Playing {
        (StateM { phase: phase2, ..s }, Seq::<GameEvent>::empty())
    } else {
        let p1 = spec_move_paddle(
            s.paddle1,
            s.config,
            input.spec_up_held(s.paddle1.player),
            input.spec_down_held(s.paddle1.player),
            dt,
        );
        let p2 = spec_move_paddle(
            s.paddle2,
            s.config,
            input.spec_up_held(s.paddle2.player),
            input.spec_down_held(s.paddle2.player),
            dt,
        );
        let b2 = spec_reflect_vertical(spec_integrate(s.ball, dt), s.config);
        let r = spec_resolve(b2, p1, p2, s.config, input.serve_pressed, pick);
        let sc = spec_scores_after(s.score, r.1);
        let b4 = spec_ball_after_resets(r.0, s.config, r.1);
        (
            StateM {
                config: s.config,
                paddle1: p1,
                paddle2: p2,
                ball: b4,
                score: sc,
                phase: phase2,
            },
            r.1,
        )
    }
}

/// One tick preserves well-formedness, whatever the input, the elapsed
/// time, and the drawn serve pick.
pub proof fn lemma_tick_preserves_inv(s: StateM, input: InputState, dt: int, pick: Player)
    requires
        s.inv(),
        dt >= 0,
    ensures
        spec_tick(s, input, dt, pick).0.inv(),
{
    let cfg = s.config;
    if s.phase == MatchPhase::Playing {
        let b2 = spec_reflect_vertical(spec_integrate(s.ball, dt), cfg);
        let p1 = spec_move_paddle(
            s.paddle1,
            cfg,
            input.spec_up_held(s.paddle1.player),
            input.spec_down_held(s.paddle1.player),
            dt,
        );
        let p2 = spec_move_paddle(
            s.paddle2,
            cfg,
            input.spec_up_held(s.paddle2.player),
            input.spec_down_held(s.paddle2.player),
            dt,
        );
        let r = spec_resolve(b2, p1, p2, cfg, input.serve_pressed, pick);
        let b4 = spec_ball_after_resets(r.0, cfg, r.1);
        assert(-cfg.half_height <= b2.pos.y <= cfg.half_height);
        if input.serve_pressed {
            lemma_reset_applied(r.0, cfg, r.1, pick);
        } else if spec_goal1_contact(b2, cfg) {
            lemma_reset_applied(r.0, cfg, r.1, Player::Player2);
        } else if spec_goal2_contact(b2, cfg) {
            lemma_reset_applied(r.0, cfg, r.1, Player::Player1);
        } else {
            assert(b4 == r.0);
        }
    }
}

impl MatchState {
    /// Builds the initial state of a match, failing fast with a
    /// configuration error instead of simulating invalid geometry.
    /// Succeeds exactly on valid configurations.
    pub fn new(cfg: Config, serve_pick: Player) -> (r: Result<MatchState, ConfigError>)
        ensures
            r is Ok <==> cfg.valid(),
            r matches Ok(m) ==> m@ == spec_initial(cfg, serve_pick) && m@.inv(),
            r matches Err(e) ==> cfg.spec_error() == Some(e),
    {
        match cfg.validate() {
            Err(e) => Err(e),
            Ok(()) => {
                let paddle1 = Paddle {
                    player: Player::Player1,
                    x: -cfg.half_width + cfg.paddle_offset,
                    y: 0,
                };
                let paddle2 = Paddle {
                    player: Player::Player2,
                    x: cfg.half_width - cfg.paddle_offset,
                    y: 0,
                };
                let ball = Ball {
                    pos: Vec2 { x: 0, y: 0 },
                    vel: serve_pick.start_speed(&cfg),
                    tint: GameColor::White,
                };
                Ok(
                    MatchState {
                        config: cfg,
                        paddle1,
                        paddle2,
                        ball,
                        score: ScoreBoard::new(),
                        phase: MatchPhase::MainMenu,
                    },
                )
            },
        }
    }

    /// Runs one simulation tick: `dt` milliseconds with the given input
    /// snapshot, `serve_pick` standing in for the randomness that a manual
    /// serve would draw.  The result is a function of the arguments alone,
    /// so identical inputs replay identically.  A pressed serve control
    /// while playing emits exactly one reset and no point.
    pub fn tick(&mut self, input: &InputState, dt: i64, serve_pick: Player) -> (events: Vec<
        GameEvent,
    >)
        requires
            old(self)@.inv(),
            0 <= dt <= DT_MAX,
            old(self)@.score.total() < u64::MAX as nat,
        ensures
            final(self)@ == spec_tick(old(self)@, *input, dt as int, serve_pick).0,
            events@ == spec_tick(old(self)@, *input, dt as int, serve_pick).1,
            final(self)@.inv(),
            final(self)@.score.total() == old(self)@.score.total() + spec_points(events@),
            (old(self).phase == MatchPhase::Playing && input.serve_pressed) ==> events@
                == seq![GameEvent::BallReset(serve_pick)] && spec_points(events@) == 0,
    {
        let ghost s0 = self@;
        let next_phase = self.phase.next(input);
        if self.phase != MatchPhase::Playing {
            self.phase = next_phase;
            let events: Vec<GameEvent> = Vec::new();
            proof {
                assert(events@ =~= spec_tick(s0, *input, dt as int, serve_pick).1);
                assert(spec_points_from(events@, 0) == 0);
            }
            return events;
        }
        let cfg = self.config;
        self.paddle1.move_paddle(&cfg, input, dt);
        self.paddle2.move_paddle(&cfg, input, dt);
        self.ball.integrate(dt);
        proof {
            assert(-(SPEED_MAX * DT_MAX) <= s0.ball.vel.x * dt <= SPEED_MAX * DT_MAX)
                by (nonlinear_arith)
                requires
                    -SPEED_MAX <= s0.ball.vel.x <= SPEED_MAX,
                    0 <= dt <= DT_MAX,
            ;
            assert(-(SPEED_MAX * DT_MAX) <= s0.ball.vel.y * dt <= SPEED_MAX * DT_MAX)
                by (nonlinear_arith)
                requires
                    -SPEED_MAX <= s0.ball.vel.y <= SPEED_MAX,
                    0 <= dt <= DT_MAX,
            ;
        }
        self.ball.reflect_vertical(&cfg);
        let events = resolve(
            &mut self.ball,
            &self.paddle1,
            &self.paddle2,
            &cfg,
            input.serve_pressed,
            serve_pick,
        );
        proof {
            let b2 = spec_reflect_vertical(spec_integrate(s0.ball, dt as int), cfg);
            lemma_resolve_events(
                b2,
                self.paddle1@,
                self.paddle2@,
                cfg,
                input.serve_pressed,
                serve_pick,
            );
        }
        apply_points(&mut self.score, &events);
        reset_ball(&mut self.ball, &cfg, &events);
        self.phase = next_phase;
        proof {
            lemma_tick_preserves_inv(s0, *input, dt as int, serve_pick);
            lemma_scores_total(s0.score, events@, 0);
            if input.serve_pressed {
                assert(spec_points_from(events@, 1) == 0);
                assert(spec_points_from(events@, 0) == 0);
            }
            assert(self@ == spec_tick(s0, *input, dt as int, serve_pick).0);
        }
        events
    }

    /// Runs one tick, drawing the serve direction from the injected
    /// generator only when the serve control was pressed; the manual serve
    /// is the only randomness in the simulation, so a fixed seed replays a
    /// match exactly.
    pub fn tick_with_rng(&mut self, input: &InputState, dt: i64, rng: &mut StdRng) -> (events:
        Vec<GameEvent>)
        requires
            old(self)@.inv(),
            0 <= dt <= DT_MAX,
            old(self)@.score.total() < u64::MAX as nat,
        ensures
            exists|pick: Player|
                final(self)@ == spec_tick(old(self)@, *input, dt as int, pick).0 && events@
                    == spec_tick(old(self)@, *input, dt as int, pick).1,
            final(self)@.inv(),
    {
        let pick = if input.serve_pressed {
            random_serve_player(rng)
        } else {
            Player::Player1
        };
        let events = self.tick(input, dt, pick);
        proof {
            assert(self@ == spec_tick(old(self)@, *input, dt as int, pick).0 && events@
                == spec_tick(old(self)@, *input, dt as int, pick).1);
        }
        events
    }

    /// Builds the initial state with a randomly drawn first serve
    /// direction, as a fresh match spawns its ball.
    pub fn new_with_rng(cfg: Config, rng: &mut StdRng) -> (r: Result<MatchState, ConfigError>)
        ensures
            r is Ok <==> cfg.valid(),
            r matches Ok(m) ==> (exists|p: Player| m@ == spec_initial(cfg, p)) && m@.inv(),
            r matches Err(e) ==> cfg.spec_error() == Some(e),
    {
        let pick = random_serve_player(rng);
        let r = MatchState::new(cfg, pick);
        proof {
            if r is Ok {
                assert(r->Ok_0@ == spec_initial(cfg, pick));
            }
        }
        r
    }

    /// Checks well-formedness at runtime, for callers outside the verified
    /// world: a state this accepts satisfies every precondition `tick`
    /// places on the state itself.
    pub fn wf_check(&self) -> (r: bool)
        ensures
            r == self@.inv(),
    {
        let cfg_ok = match self.config.validate() {
            Ok(()) => true,
            Err(_) => false,
        };
        if !cfg_ok {
            return false;
        }
        let cfg = self.config;
        let lo = -cfg.half_height + cfg.paddle_half_height;
        let hi = cfg.half_height - cfg.paddle_half_height;
        let gx = cfg.half_width - cfg.ball_radius;
        self.paddle1.player == Player::Player1 && self.paddle2.player == Player::Player2
            && self.paddle1.x == -cfg.half_width + cfg.paddle_offset && self.paddle2.x
            == cfg.half_width - cfg.paddle_offset && lo <= self.paddle1.y && self.paddle1.y <= hi
            && lo <= self.paddle2.y && self.paddle2.y <= hi && -cfg.half_height <= self.ball.pos.y
            && self.ball.pos.y <= cfg.half_height && -gx <= self.ball.pos.x && self.ball.pos.x
            <= gx && (self.ball.vel.x == cfg.serve_vx || self.ball.vel.x == -cfg.serve_vx) && (
        self.ball.vel.y == cfg.serve_vy || self.ball.vel.y == -cfg.serve_vy)
    }
}

/// One scripted tick of a replay: the input snapshot, the elapsed time, and
/// the serve pick the injected randomness would have drawn.
pub ghost struct TickIn {
    pub input: InputState,
    pub dt: int,
    pub pick: Player,
}

/// The state after replaying a whole script of ticks in order.
pub open spec fn spec_run(s: StateM, ticks: Seq<TickIn>) -> StateM
    decreases ticks.len(),
{
    if ticks.len() == 0 {
        s
    } else {
        spec_run(spec_tick(s, ticks[0].input, ticks[0].dt, ticks[0].pick).0, ticks.drop_first())
    }
}

/// How many points the ticks of a replayed script emit altogether.
pub open spec fn spec_run_points(s: StateM, ticks: Seq<TickIn>) -> nat
    decreases ticks.len(),
{
    if ticks.len() == 0 {
        0
    } else {
        spec_points(spec_tick(s, ticks[0].input, ticks[0].dt, ticks[0].pick).1) + spec_run_points(
            spec_tick(s, ticks[0].input, ticks[0].dt, ticks[0].pick).0,
            ticks.drop_first(),
        )
    }
}

/// One tick grows the two counters together by exactly the number of
/// `PointScored` events it emits.
pub proof fn lemma_tick_score_total(s: StateM, input: InputState, dt: int, pick: Player)
    ensures
        spec_tick(s, input, dt, pick).0.score.total() == s.score.total() + spec_points(
            spec_tick(s, input, dt, pick).1,
        ),
{
    if s.phase == MatchPhase::Playing {
        lemma_scores_total(s.score, spec_tick(s, input, dt, pick).1, 0);
    } else {
        assert(spec_points_from(Seq::<GameEvent>::empty(), 0) == 0);
    }
}

/// The scoring invariant: over any sequence of ticks, the two counters sum
/// to the starting sum plus the number of `PointScored` events ever
/// emitted; no event is double-counted or dropped.
pub proof fn lemma_scoring_invariant(s: StateM, ticks: Seq<TickIn>)
    ensures
        spec_run(s, ticks).score.total() == s.score.total() + spec_run_points(s, ticks),
    decreases ticks.len(),
{
    if ticks.len() > 0 {
        let t = ticks[0];
        lemma_tick_score_total(s, t.input, t.dt, t.pick);
        lemma_scoring_invariant(spec_tick(s, t.input, t.dt, t.pick).0, ticks.drop_first());
    }
}

/// Determinism: the tick relation is a function of its arguments alone, so
/// two runs from equal states over equal scripts end in equal states.
/// Because `tick`'s postcondition pins its result to this very function,
/// two executions fed identical inputs, elapsed times, and drawn picks are
/// bit-identical.
pub proof fn lemma_run_deterministic(
    s1: StateM,
    ticks1: Seq<TickIn>,
    s2: StateM,
    ticks2: Seq<TickIn>,
)
    requires
        s1 == s2,
        ticks1 == ticks2,
    ensures
        spec_run(s1, ticks1) == spec_run(s2, ticks2),
{
}

} // verus!
