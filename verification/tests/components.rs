//! Unit tests for the individual simulation components.

use pong::ball::Ball;
use pong::events::GameEvent;
use pong::geom::{Config, ConfigError, Vec2};
use pong::input::InputState;
use pong::paddle::Paddle;
use pong::phase::MatchPhase;
use pong::player::{GameColor, Player};
use pong::resolver::{ball_hit, detect_reset};
use pong::score::ScoreBoard;
use pong::state::MatchState;

fn cfg() -> Config {
    Config {
        half_width: 480_000,
        half_height: 270_000,
        paddle_half_width: 5_000,
        paddle_half_height: 75_000,
        paddle_offset: 20_000,
        paddle_speed: 100,
        ball_radius: 25_000,
        serve_vx: 200,
        serve_vy: 0,
    }
}

fn released() -> InputState {
    InputState {
        p1_up: false,
        p1_down: false,
        p2_up: false,
        p2_down: false,
        serve_pressed: false,
        start_pressed: false,
    }
}

#[test]
fn paddle_moves_up_unclamped() {
    let c = cfg();
    let mut p = Paddle { player: Player::Player1, x: -460_000, y: 0 };
    let input = InputState { p1_up: true, ..released() };
    // 100 units/s for 100 ms is 10 units, i.e. 10_000 subunits.
    p.move_paddle(&c, &input, 100);
    assert_eq!(p.y, 10_000);
}

#[test]
fn paddle_unchanged_at_upper_clamp() {
    let c = cfg();
    let mut p = Paddle { player: Player::Player1, x: -460_000, y: 195_000 };
    let input = InputState { p1_up: true, ..released() };
    p.move_paddle(&c, &input, 100);
    assert_eq!(p.y, 195_000);
}

#[test]
fn paddle_self_corrects_without_input() {
    let c = cfg();
    let mut p = Paddle { player: Player::Player2, x: 460_000, y: 400_000 };
    p.move_paddle(&c, &released(), 16);
    assert_eq!(p.y, 195_000);
}

#[test]
fn paddle_moves_down() {
    let c = cfg();
    let mut p = Paddle { player: Player::Player2, x: 460_000, y: 0 };
    let input = InputState { p2_down: true, ..released() };
    p.move_paddle(&c, &input, 100);
    assert_eq!(p.y, -10_000);
}

#[test]
fn wall_reflection_flips_sign_twice() {
    let c = cfg();
    let mut b = Ball {
        pos: Vec2 { x: 0, y: -270_000 },
        vel: Vec2 { x: 200, y: -50 },
        tint: GameColor::White,
    };
    b.reflect_vertical(&c);
    assert_eq!(b.vel.y, 50);
    assert_eq!(b.pos.y, -270_000);
    b.reflect_vertical(&c);
    assert_eq!(b.vel.y, -50);
}

#[test]
fn wall_reflection_clamps_overshoot() {
    let c = cfg();
    let mut b = Ball {
        pos: Vec2 { x: 0, y: 280_000 },
        vel: Vec2 { x: 200, y: 75 },
        tint: GameColor::White,
    };
    b.reflect_vertical(&c);
    assert_eq!(b.pos.y, 270_000);
    assert_eq!(b.vel.y, -75);
}

#[test]
fn no_reflection_inside_field() {
    let c = cfg();
    let mut b = Ball {
        pos: Vec2 { x: 0, y: 100_000 },
        vel: Vec2 { x: 200, y: 75 },
        tint: GameColor::White,
    };
    b.reflect_vertical(&c);
    assert_eq!(b.vel.y, 75);
    assert_eq!(b.pos.y, 100_000);
}

#[test]
fn ball_integrates_exactly() {
    let mut b = Ball {
        pos: Vec2 { x: 1_000, y: -2_000 },
        vel: Vec2 { x: 100, y: -50 },
        tint: GameColor::White,
    };
    b.integrate(16);
    assert_eq!(b.pos.x, 1_000 + 1_600);
    assert_eq!(b.pos.y, -2_000 - 800);
}

#[test]
fn ball_reset_goes_to_center_with_heading() {
    let c = cfg();
    let mut b = Ball {
        pos: Vec2 { x: 123_456, y: -7_890 },
        vel: Vec2 { x: -200, y: 0 },
        tint: GameColor::Blue,
    };
    b.reset_to_center(&c, Player::Player1);
    assert_eq!(b.pos, Vec2 { x: 0, y: 0 });
    assert_eq!(b.vel, Vec2 { x: 200, y: 0 });
    b.reset_to_center(&c, Player::Player2);
    assert_eq!(b.pos, Vec2 { x: 0, y: 0 });
    assert_eq!(b.vel, Vec2 { x: -200, y: 0 });
}

#[test]
fn paddle_contact_reflects_and_tints_first_match_only() {
    let c = cfg();
    // Both paddles overlap the ball; the fixed order picks player one.
    let p1 = Paddle { player: Player::Player1, x: 10_000, y: 0 };
    let p2 = Paddle { player: Player::Player2, x: -10_000, y: 0 };
    let mut b = Ball {
        pos: Vec2 { x: 0, y: 0 },
        vel: Vec2 { x: 200, y: 0 },
        tint: GameColor::White,
    };
    ball_hit(&mut b, &p1, &p2, &c);
    assert_eq!(b.vel.x, -200);
    assert_eq!(b.tint, GameColor::Red);
}

#[test]
fn paddle_miss_leaves_ball_alone() {
    let c = cfg();
    let p1 = Paddle { player: Player::Player1, x: -460_000, y: 0 };
    let p2 = Paddle { player: Player::Player2, x: 460_000, y: 0 };
    let mut b = Ball {
        pos: Vec2 { x: 0, y: 0 },
        vel: Vec2 { x: 200, y: 0 },
        tint: GameColor::White,
    };
    ball_hit(&mut b, &p1, &p2, &c);
    assert_eq!(b.vel.x, 200);
    assert_eq!(b.tint, GameColor::White);
}

#[test]
fn goal_contact_emits_point_then_reset() {
    let c = cfg();
    let b = Ball {
        pos: Vec2 { x: 455_000, y: 0 },
        vel: Vec2 { x: 200, y: 0 },
        tint: GameColor::White,
    };
    let evs = detect_reset(&b, &c, false, Player::Player1);
    assert_eq!(
        evs,
        vec![
            GameEvent::PointScored(Player::Player2),
            GameEvent::BallReset(Player::Player2),
        ]
    );
}

#[test]
fn far_goal_scores_for_player_one() {
    let c = cfg();
    let b = Ball {
        pos: Vec2 { x: -455_000, y: 0 },
        vel: Vec2 { x: -200, y: 0 },
        tint: GameColor::White,
    };
    let evs = detect_reset(&b, &c, false, Player::Player2);
    assert_eq!(
        evs,
        vec![
            GameEvent::PointScored(Player::Player1),
            GameEvent::BallReset(Player::Player1),
        ]
    );
}

#[test]
fn scoreboard_counts_points() {
    let mut s = ScoreBoard::new();
    assert_eq!(s.get(Player::Player1), 0);
    assert_eq!(s.get(Player::Player2), 0);
    s.apply(GameEvent::PointScored(Player::Player1));
    s.apply(GameEvent::PointScored(Player::Player1));
    s.apply(GameEvent::PointScored(Player::Player2));
    assert_eq!(s.get(Player::Player1), 2);
    assert_eq!(s.get(Player::Player2), 1);
}

#[test]
fn scoreboard_ignores_resets() {
    let mut s = ScoreBoard::new();
    s.apply(GameEvent::BallReset(Player::Player1));
    s.apply(GameEvent::BallReset(Player::Player2));
    assert_eq!(s.get(Player::Player1), 0);
    assert_eq!(s.get(Player::Player2), 0);
}

#[test]
fn phase_machine_transitions() {
    let start = InputState { start_pressed: true, ..released() };
    let serve = InputState { serve_pressed: true, ..released() };
    assert_eq!(MatchPhase::MainMenu.next(&released()), MatchPhase::MainMenu);
    assert_eq!(MatchPhase::MainMenu.next(&serve), MatchPhase::MainMenu);
    assert_eq!(MatchPhase::MainMenu.next(&start), MatchPhase::Playing);
    assert_eq!(MatchPhase::Playing.next(&released()), MatchPhase::Playing);
    assert_eq!(MatchPhase::Playing.next(&serve), MatchPhase::Paused);
    assert_eq!(MatchPhase::Paused.next(&serve), MatchPhase::Playing);
    assert_eq!(MatchPhase::Paused.next(&released()), MatchPhase::Paused);
}

#[test]
fn player_helpers() {
    let c = cfg();
    assert_eq!(Player::Player1.opponent(), Player::Player2);
    assert_eq!(Player::Player2.opponent(), Player::Player1);
    assert_eq!(Player::Player1.get_color(), GameColor::Red);
    assert_eq!(Player::Player2.get_color(), GameColor::Blue);
    assert_eq!(Player::Player1.start_speed(&c), Vec2 { x: 200, y: 0 });
    assert_eq!(Player::Player2.start_speed(&c), Vec2 { x: -200, y: 0 });
}

#[test]
fn invalid_field_rejected() {
    let c = Config { half_width: 0, ..cfg() };
    assert_eq!(MatchState::new(c, Player::Player1).unwrap_err(), ConfigError::InvalidField);
}

#[test]
fn invalid_paddle_rejected() {
    let c = Config { paddle_half_height: 300_000, ..cfg() };
    assert_eq!(MatchState::new(c, Player::Player1).unwrap_err(), ConfigError::InvalidPaddle);
}

#[test]
fn invalid_ball_rejected() {
    let c = Config { ball_radius: 480_000, ..cfg() };
    assert_eq!(MatchState::new(c, Player::Player1).unwrap_err(), ConfigError::InvalidBall);
}

#[test]
fn invalid_speed_rejected() {
    let c = Config { paddle_speed: 0, ..cfg() };
    assert_eq!(MatchState::new(c, Player::Player1).unwrap_err(), ConfigError::InvalidSpeed);
}

#[test]
fn negative_radius_rejected() {
    let c = Config { ball_radius: -25_000, ..cfg() };
    assert_eq!(MatchState::new(c, Player::Player1).unwrap_err(), ConfigError::InvalidBall);
}

#[test]
fn valid_config_accepted() {
    let m = MatchState::new(cfg(), Player::Player1).unwrap();
    assert_eq!(m.phase, MatchPhase::MainMenu);
    assert_eq!(m.ball.pos, Vec2 { x: 0, y: 0 });
    assert_eq!(m.ball.vel, Vec2 { x: 200, y: 0 });
    assert_eq!(m.paddle1.x, -460_000);
    assert_eq!(m.paddle2.x, 460_000);
    assert!(m.wf_check());
}
