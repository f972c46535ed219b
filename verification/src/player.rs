//! The two players, their colors, and their serve headings.

use vstd::prelude::*;
use crate::geom::{Config, Vec2, Vec2M};

verus! {

/// Identifies a side of the field, its paddle, its goal, and its serve
/// heading.
#[derive(Clone, Copy, Debug, PartialEq, Eq, Structural)]
pub enum Player {
    Player1,
    Player2,
}

/// The cosmetic color tag carried by the ball: white until a paddle touches
/// it, then the owning player's color.
#[derive(Clone, Copy, Debug, PartialEq, Eq, Structural)]
pub enum GameColor {
    White,
    Red,
    Blue,
}

impl Player {
    /// The other player.
    pub open spec fn spec_opponent(self) -> Player {
        match self {
            Player::Player1 => Player::Player2,
            Player::Player2 => Player::Player1,
        }
    }

    /// Returns the other player.
    pub fn opponent(&self) -> (r: Player)
        ensures
            r == self.spec_opponent(),
    {
        match self {
            Player::Player1 => Player::Player2,
            Player::Player2 => Player::Player1,
        }
    }

    /// The serve heading applied when the ball is reset toward this player's
    /// goal: toward `+half_width` for player one, `-half_width` for player
    /// two, both with the configured vertical slant.
    pub open spec fn spec_start_speed(self, cfg: Config) -> Vec2M {
        match self {
            Player::Player1 => Vec2M { x: cfg.serve_vx as int, y: cfg.serve_vy as int },
            Player::Player2 => Vec2M { x: -(cfg.serve_vx as int), y: cfg.serve_vy as int },
        }
    }

    /// Returns the serve heading for this player, in units per second.
    pub fn start_speed(&self, cfg: &Config) -> (r: Vec2)
        requires
            cfg.speed_ok(),
        ensures
            r@ == self.spec_start_speed(*cfg),
    {
        match self {
            Player::Player1 => Vec2 { x: cfg.serve_vx, y: cfg.serve_vy },
            Player::Player2 => Vec2 { x: -cfg.serve_vx, y: cfg.serve_vy },
        }
    }

    /// The color that tags this player's paddle and its touches.
    pub open spec fn spec_color(self) -> GameColor {
        match self {
            Player::Player1 => GameColor::Red,
            Player::Player2 => GameColor::Blue,
        }
    }

    /// Returns this player's color.
    pub fn get_color(&self) -> (r: GameColor)
        ensures
            r == self.spec_color(),
    {
        match self {
            Player::Player1 => GameColor::Red,
            Player::Player2 => GameColor::Blue,
        }
    }
}

} // verus!
