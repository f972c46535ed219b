//! Collision resolution: paddle contact, goal contact, and the manual serve.

use vstd::prelude::*;
use crate::ball::{spec_reflect_horizontal, Ball, BallM};
use crate::events::GameEvent;
use crate::geom::{Config, COORD_MAX, POS_MAX, SPEED_MAX};
use crate::paddle::{Paddle, PaddleM};
use crate::player::Player;
use crate::score::{spec_points, spec_points_from};

verus! {

/// Whether the ball's bounding box overlaps the paddle's bounding box
/// (an axis-aligned approximation of circle-versus-rectangle contact).
pub open spec fn spec_paddle_overlap(b: BallM, p: PaddleM, cfg: Config) -> bool {
    let rx = cfg.ball_radius + cfg.paddle_half_width;
    let ry = cfg.ball_radius + cfg.paddle_half_height;
    &&& -rx <= b.pos.x - p.x <= rx
    &&& -ry <= b.pos.y - p.y <= ry
}

/// What the paddle checks yield: the paddles are tried in a fixed, stable
/// order — player one's first — and only the first overlapping paddle
/// reflects the ball horizontally and tags it with its owner's color.
pub open spec fn spec_ball_hit(b: BallM, p1: PaddleM, p2: PaddleM, cfg: Config) -> BallM {
    if spec_paddle_overlap(b, p1, cfg) {
        BallM { tint: p1.player.spec_color(), ..spec_reflect_horizontal(b) }
    } else if spec_paddle_overlap(b, p2, cfg) {
        BallM { tint: p2.player.spec_color(), ..spec_reflect_horizontal(b) }
    } else {
        b
    }
}

/// Whether the ball has reached the goal on the `+half_width` side, the one
/// owned by player one.
pub open spec fn spec_goal1_contact(b: BallM, cfg: Config) -> bool {
    b.pos.x + cfg.ball_radius >= cfg.half_width
}

/// Whether the ball has reached the goal on the `-half_width` side, the one
/// owned by player two.
pub open spec fn spec_goal2_contact(b: BallM, cfg: Config) -> bool {
    b.pos.x - cfg.ball_radius <= -cfg.half_width
}

/// What goal detection yields: contact with a goal scores for the goal
/// owner's opponent and resets the ball toward that same opponent, the point
/// strictly before the reset.  Player one's goal is checked first.
pub open spec fn spec_goal_events(b: BallM, cfg: Config) -> Seq<GameEvent> {
    if spec_goal1_contact(b, cfg) {
        seq![
            GameEvent::PointScored(Player::Player2),
            GameEvent::BallReset(Player::Player2),
        ]
    } else if spec_goal2_contact(b, cfg) {
        seq![
            GameEvent::PointScored(Player::Player1),
            GameEvent::BallReset(Player::Player1),
        ]
    } else {
        Seq::<GameEvent>::empty()
    }
}

/// What the event side of the resolver yields: a just-pressed serve control
/// emits exactly one reset toward the drawn player and skips the collision
/// checks for the tick; otherwise the goal checks decide.
pub open spec fn spec_detect_reset(b: BallM, cfg: Config, serve: bool, pick: Player) -> Seq<
    GameEvent,
> {
    if serve {
        seq![GameEvent::BallReset(pick)]
    } else {
        spec_goal_events(b, cfg)
    }
}

/// What the whole resolver yields for one tick: the ball after the paddle
/// checks, and the tick's event list.  When the serve control was pressed
/// the collision checks are skipped entirely.
pub open spec fn spec_resolve(
    b: BallM,
    p1: PaddleM,
    p2: PaddleM,
    cfg: Config,
    serve: bool,
    pick: Player,
) -> (BallM, Seq<GameEvent>) {
    if serve {
        (b, seq![GameEvent::BallReset(pick)])
    } else {
        (spec_ball_hit(b, p1, p2, cfg), spec_goal_events(b, cfg))
    }
}

/// The resolver's event list never holds more than one scored point, and a
/// pressed serve control yields exactly one reset and no point.
pub proof fn lemma_resolve_events(b: BallM, p1: PaddleM, p2: PaddleM, cfg: Config, serve: bool, pick: Player)
    ensures
        spec_points(spec_resolve(b, p1, p2, cfg, serve, pick).1) <= 1,
        serve ==> spec_resolve(b, p1, p2, cfg, serve, pick).1 =~= seq![GameEvent::BallReset(pick)]
            && spec_points(spec_resolve(b, p1, p2, cfg, serve, pick).1) == 0,
{
    let evs = spec_resolve(b, p1, p2, cfg, serve, pick).1;
    assert(spec_points_from(evs, 2) == 0);
    assert(spec_points_from(evs, 1) <= 1);
    assert(spec_points_from(evs, 0) <= 1);
}

/// Tests whether the ball's bounding box overlaps the paddle's.
pub fn paddle_overlap(ball: &Ball, p: &Paddle, cfg: &Config) -> (r: bool)
    requires
        cfg.valid(),
        -POS_MAX <= ball.pos.x <= POS_MAX,
        -POS_MAX <= ball.pos.y <= POS_MAX,
        -COORD_MAX <= p.x <= COORD_MAX,
        -2 * COORD_MAX <= p.y <= 2 * COORD_MAX,
    ensures
        r == spec_paddle_overlap(ball@, p@, *cfg),
{
    let rx = cfg.ball_radius + cfg.paddle_half_width;
    let ry = cfg.ball_radius + cfg.paddle_half_height;
    let dx = ball.pos.x - p.x;
    let dy = ball.pos.y - p.y;
    -rx <= dx && dx <= rx && -ry <= dy && dy <= ry
}

/// Runs the paddle checks on the post-move ball: in the fixed order player
/// one then player two, the first overlapping paddle reflects the ball
/// horizontally and tags it with the owner's color.
pub fn ball_hit(ball: &mut Ball, p1: &Paddle, p2: &Paddle, cfg: &Config)
    requires
        cfg.valid(),
        -POS_MAX <= old(ball).pos.x <= POS_MAX,
        -POS_MAX <= old(ball).pos.y <= POS_MAX,
        -SPEED_MAX <= old(ball).vel.x <= SPEED_MAX,
        -COORD_MAX <= p1.x <= COORD_MAX,
        -2 * COORD_MAX <= p1.y <= 2 * COORD_MAX,
        -COORD_MAX <= p2.x <= COORD_MAX,
        -2 * COORD_MAX <= p2.y <= 2 * COORD_MAX,
    ensures
        final(ball)@ == spec_ball_hit(old(ball)@, p1@, p2@, *cfg),
{
    if paddle_overlap(ball, p1, cfg) {
        ball.reflect_horizontal();
        ball.tint = p1.player.get_color();
    } else if paddle_overlap(ball, p2, cfg) {
        ball.reflect_horizontal();
        ball.tint = p2.player.get_color();
    }
}

/// Detects this tick's events: a pressed serve control emits one reset
/// toward `pick`; otherwise a goal contact emits the point and the reset for
/// the goal owner's opponent.
pub fn detect_reset(ball: &Ball, cfg: &Config, serve_pressed: bool, pick: Player) -> (evs: Vec<
    GameEvent,
>)
    requires
        cfg.valid(),
        -POS_MAX <= ball.pos.x <= POS_MAX,
    ensures
        evs@ == spec_detect_reset(ball@, *cfg, serve_pressed, pick),
{
    let mut evs: Vec<GameEvent> = Vec::new();
    if serve_pressed {
        evs.push(GameEvent::BallReset(pick));
        proof {
            assert(evs@ =~= spec_detect_reset(ball@, *cfg, serve_pressed, pick));
        }
        return evs;
    }
    if ball.pos.x + cfg.ball_radius >= cfg.half_width {
        evs.push(GameEvent::PointScored(Player::Player2));
        evs.push(GameEvent::BallReset(Player::Player2));
    } else if ball.pos.x - cfg.ball_radius <= -cfg.half_width {
        evs.push(GameEvent::PointScored(Player::Player1));
        evs.push(GameEvent::BallReset(Player::Player1));
    }
    proof {
        assert(evs@ =~= spec_detect_reset(ball@, *cfg, serve_pressed, pick));
    }
    evs
}

/// Runs the whole resolver for one tick on the post-move ball.
pub fn resolve(
    ball: &mut Ball,
    p1: &Paddle,
    p2: &Paddle,
    cfg: &Config,
    serve_pressed: bool,
    pick: Player,
) -> (evs: Vec<GameEvent>)
    requires
        cfg.valid(),
        -POS_MAX <= old(ball).pos.x <= POS_MAX,
        -POS_MAX <= old(ball).pos.y <= POS_MAX,
        -SPEED_MAX <= old(ball).vel.x <= SPEED_MAX,
        -COORD_MAX <= p1.x <= COORD_MAX,
        -2 * COORD_MAX <= p1.y <= 2 * COORD_MAX,
        -COORD_MAX <= p2.x <= COORD_MAX,
        -2 * COORD_MAX <= p2.y <= 2 * COORD_MAX,
    ensures
        final(ball)@ == spec_resolve(old(ball)@, p1@, p2@, *cfg, serve_pressed, pick).0,
        evs@ == spec_resolve(old(ball)@, p1@, p2@, *cfg, serve_pressed, pick).1,
{
    if serve_pressed {
        detect_reset(ball, cfg, true, pick)
    } else {
        ball_hit(ball, p1, p2, cfg);
        detect_reset(ball, cfg, false, pick)
    }
}

} // verus!
