//! Whole-tick scenarios driven through the public simulation step.

use rand::rngs::StdRng;
use rand::SeedableRng;

use pong::events::GameEvent;
use pong::geom::{Config, Vec2};
use pong::input::InputState;
use pong::phase::MatchPhase;
use pong::player::Player;
use pong::state::MatchState;

fn released() -> InputState {
    InputState {
        p1_up: false,
        p1_down: false,
        p2_up: false,
        p2_down: false,
        serve_pressed: false,
        start_pressed: false,
    }
}

/// The original field: 960x540 world units, paddles 10x150 at 20 units from
/// their wall, ball radius 25, serve at 200 units/s.
fn cfg() -> Config {
    Config {
        half_width: 480_000,
        half_height: 270_000,
        paddle_half_width: 5_000,
        paddle_half_height: 75_000,
        paddle_offset: 20_000,
        paddle_speed: 100,
        ball_radius: 25_000,
        serve_vx: 200,
        serve_vy: 0,
    }
}

/// Starts a match and presses start so the simulation runs.
fn playing_state(c: Config, pick: Player) -> MatchState {
    let mut m = MatchState::new(c, pick).unwrap();
    let start = InputState { start_pressed: true, ..released() };
    let evs = m.tick(&start, 16, Player::Player1);
    assert!(evs.is_empty());
    assert_eq!(m.phase, MatchPhase::Playing);
    m
}

#[test]
fn menu_tick_changes_nothing_but_phase() {
    let m0 = MatchState::new(cfg(), Player::Player1).unwrap();
    let mut m = m0;
    let evs = m.tick(&released(), 1_000, Player::Player1);
    assert!(evs.is_empty());
    assert_eq!(m, m0);
}

#[test]
fn ball_crosses_field_scores_and_resets() {
    // Ball serves at (100, 0) toward player one's goal at +480; with radius
    // 25 it reaches the goal after (480 - 25) / 100 = 4.55 seconds.  The
    // paddles sit 200 units from the walls here, away from the crossing
    // point, so no paddle interferes.
    let c = Config { serve_vx: 100, paddle_offset: 200_000, ..cfg() };
    let mut m = playing_state(c, Player::Player1);
    let evs = m.tick(&released(), 4_550, Player::Player1);
    assert_eq!(
        evs,
        vec![
            GameEvent::PointScored(Player::Player2),
            GameEvent::BallReset(Player::Player2),
        ]
    );
    assert_eq!(m.score.get(Player::Player2), 1);
    assert_eq!(m.score.get(Player::Player1), 0);
    assert_eq!(m.ball.pos, Vec2 { x: 0, y: 0 });
    assert_eq!(m.ball.vel, Vec2 { x: -100, y: 0 });
}

#[test]
fn short_of_the_goal_no_event() {
    let c = Config { serve_vx: 100, paddle_offset: 200_000, ..cfg() };
    let mut m = playing_state(c, Player::Player1);
    let evs = m.tick(&released(), 4_549, Player::Player1);
    assert!(evs.is_empty());
    assert_eq!(m.ball.pos.x, 454_900);
    assert_eq!(m.score.get(Player::Player1) + m.score.get(Player::Player2), 0);
}

#[test]
fn serve_press_emits_exactly_one_reset() {
    let mut m = playing_state(cfg(), Player::Player1);
    let serve = InputState { serve_pressed: true, ..released() };
    let evs = m.tick(&serve, 16, Player::Player2);
    assert_eq!(evs, vec![GameEvent::BallReset(Player::Player2)]);
    assert_eq!(m.score.get(Player::Player1), 0);
    assert_eq!(m.score.get(Player::Player2), 0);
    assert_eq!(m.ball.pos, Vec2 { x: 0, y: 0 });
    assert_eq!(m.ball.vel, Vec2 { x: -200, y: 0 });
    assert_eq!(m.phase, MatchPhase::Paused);
}

#[test]
fn paused_match_freezes() {
    let mut m = playing_state(cfg(), Player::Player1);
    let serve = InputState { serve_pressed: true, ..released() };
    m.tick(&serve, 16, Player::Player1);
    assert_eq!(m.phase, MatchPhase::Paused);
    let frozen = m;
    let held = InputState { p1_up: true, p2_down: true, ..released() };
    let evs = m.tick(&held, 1_000, Player::Player1);
    assert!(evs.is_empty());
    assert_eq!(m, frozen);
    let evs2 = m.tick(&serve, 16, Player::Player1);
    assert!(evs2.is_empty());
    assert_eq!(m.phase, MatchPhase::Playing);
}

#[test]
fn scores_sum_to_emitted_points() {
    // Every 4.55 s crossing scores and serves back the other way, so each
    // tick of that length emits exactly one point.
    let c = Config { serve_vx: 100, paddle_offset: 200_000, ..cfg() };
    let mut m = playing_state(c, Player::Player1);
    let mut points: u64 = 0;
    for _ in 0..6 {
        let evs = m.tick(&released(), 4_550, Player::Player1);
        points += evs
            .iter()
            .filter(|e| matches!(e, GameEvent::PointScored(_)))
            .count() as u64;
    }
    assert_eq!(points, 6);
    assert_eq!(m.score.get(Player::Player1) + m.score.get(Player::Player2), points);
    assert_eq!(m.score.get(Player::Player1), 3);
    assert_eq!(m.score.get(Player::Player2), 3);
}

#[test]
fn paddle_blocks_and_returns_the_ball() {
    // With the paddles at their usual 20 units from the wall, the crossing
    // ball meets player two's paddle bounding box before the goal.
    let c = Config { serve_vx: 100, ..cfg() };
    let mut m = playing_state(c, Player::Player1);
    // After 4.4 s the ball is at x = 440, inside the box of player two's
    // paddle (centered at 460) but short of the goal line at 455.
    let evs = m.tick(&released(), 4_400, Player::Player1);
    assert!(evs.is_empty());
    assert_eq!(m.ball.vel.x, -100);
    assert_eq!(m.ball.pos.x, 440_000);
    assert_eq!(m.ball.tint, pong::player::GameColor::Blue);
}

fn script(i: u64) -> InputState {
    InputState {
        p1_up: i % 3 == 0,
        p1_down: i % 5 == 0,
        p2_up: i % 2 == 0,
        p2_down: i % 7 == 0,
        serve_pressed: i % 17 == 5,
        start_pressed: i == 0,
    }
}

#[test]
fn fixed_seed_replays_identically() {
    let c = Config { serve_vx: 150, serve_vy: 80, ..cfg() };
    let mut run = |seed: u64| -> (MatchState, Vec<Vec<GameEvent>>) {
        let mut rng = StdRng::seed_from_u64(seed);
        let mut m = MatchState::new_with_rng(c, &mut rng).unwrap();
        let mut log = Vec::new();
        for i in 0..200u64 {
            log.push(m.tick_with_rng(&script(i), 16, &mut rng));
        }
        (m, log)
    };
    let (m1, log1) = run(42);
    let (m2, log2) = run(42);
    assert_eq!(m1, m2);
    assert_eq!(log1, log2);
}

#[test]
fn random_serve_draws_some_player() {
    let mut rng = StdRng::seed_from_u64(7);
    let mut m = playing_state(cfg(), Player::Player1);
    let serve = InputState { serve_pressed: true, ..released() };
    let evs = m.tick_with_rng(&serve, 16, &mut rng);
    assert_eq!(evs.len(), 1);
    assert!(matches!(evs[0], GameEvent::BallReset(_)));
    assert_eq!(m.ball.pos, Vec2 { x: 0, y: 0 });
}

#[test]
fn wall_bounce_within_tick_pipeline() {
    // A slanted serve meets the bottom wall and comes back up.
    let c = Config { serve_vx: 100, serve_vy: -200, paddle_offset: 200_000, ..cfg() };
    let mut m = playing_state(c, Player::Player2);
    // After 1.35 s the ball has fallen 270 units, exactly to the wall.
    let evs = m.tick(&released(), 1_350, Player::Player1);
    assert!(evs.is_empty());
    assert_eq!(m.ball.pos.y, -270_000);
    assert_eq!(m.ball.vel.y, 200);
    let evs2 = m.tick(&released(), 1_000, Player::Player1);
    assert!(evs2.is_empty());
    assert_eq!(m.ball.pos.y, -70_000);
    assert_eq!(m.ball.vel.y, 200);
}
