//! Field geometry: fixed-point vectors, clamping, and the match configuration.

use vstd::prelude::*;

verus! {

/// Largest magnitude accepted for a configured length (in subunits).
pub const COORD_MAX: i64 = 1_000_000_000_000;

/// Largest magnitude accepted for a configured speed (in units per second).
pub const SPEED_MAX: i64 = 1_000_000_000;

/// Largest elapsed time accepted for one tick (in milliseconds).
pub const DT_MAX: i64 = 1_000_000;

/// Largest ball-center magnitude the collision checks accept: a ball that
/// started inside the field and moved for one tick stays within this bound.
pub const POS_MAX: i64 = COORD_MAX + SPEED_MAX * DT_MAX;

/// A fixed-point plane vector; positions are in subunits, velocities in
/// units per second.
#[derive(Clone, Copy, Debug, PartialEq, Eq, Structural)]
pub struct Vec2 {
    pub x: i64,
    pub y: i64,
}

/// Mathematical model of a [`Vec2`]: the same pair over unbounded integers.
pub ghost struct Vec2M {
    pub x: int,
    pub y: int,
}

impl View for Vec2 {
    type V = Vec2M;

    open spec fn view(&self) -> Vec2M {
        Vec2M { x: self.x as int, y: self.y as int }
    }
}

/// What clamping a value into `[lo, hi]` yields.
pub open spec fn clamp_spec(v: int, lo: int, hi: int) -> int {
    if v < lo {
        lo
    } else if v > hi {
        hi
    } else {
        v
    }
}

/// Clamps `v` into the interval `[lo, hi]`.
pub fn clamp_i64(v: i64, lo: i64, hi: i64) -> (r: i64)
    requires
        lo <= hi,
    ensures
        r == clamp_spec(v as int, lo as int, hi as int),
{
    if v < lo {
        lo
    } else if v > hi {
        hi
    } else {
        v
    }
}

/// Why a configuration was rejected at match construction.
#[derive(Clone, Copy, Debug, PartialEq, Eq, Structural)]
pub enum ConfigError {
    /// A field half-extent is non-positive or beyond [`COORD_MAX`].
    InvalidField,
    /// A paddle half-extent or the paddle offset does not fit the field.
    InvalidPaddle,
    /// The ball radius is non-positive or does not fit the field.
    InvalidBall,
    /// A speed is out of the accepted range.
    InvalidSpeed,
}

/// The injected match geometry.  The field is the axis-aligned box
/// `[-half_width, half_width] x [-half_height, half_height]` centered on the
/// origin.  Player one's goal is the `+half_width` side and their paddle
/// guards the `-half_width` side; player two mirrors them.
#[derive(Clone, Copy, Debug, PartialEq, Eq, Structural)]
pub struct Config {
    /// Field half-width, in subunits.  Player one's goal is at `+half_width`,
    /// player two's at `-half_width`.
    pub half_width: i64,
    /// Field half-height, in subunits; the horizontal walls are at
    /// `-half_height` and `+half_height`.
    pub half_height: i64,
    /// Paddle half-width, in subunits.
    pub paddle_half_width: i64,
    /// Paddle half-height, in subunits.
    pub paddle_half_height: i64,
    /// Distance from a paddle's center to its own wall, in subunits.
    pub paddle_offset: i64,
    /// Paddle speed while a key is held, in units per second.
    pub paddle_speed: i64,
    /// Ball radius, in subunits.
    pub ball_radius: i64,
    /// Magnitude of the serve velocity's x component, in units per second.
    pub serve_vx: i64,
    /// Serve velocity's y component, in units per second.
    pub serve_vy: i64,
}

impl Config {
    /// The field half-extents are positive and within machine bounds.
    pub open spec fn field_ok(self) -> bool {
        &&& 0 < self.half_width <= COORD_MAX
        &&& 0 < self.half_height <= COORD_MAX
    }

    /// The paddles fit inside the field.
    pub open spec fn paddle_ok(self) -> bool {
        &&& 0 < self.paddle_half_width <= self.half_width
        &&& 0 < self.paddle_half_height <= self.half_height
        &&& 0 <= self.paddle_offset <= self.half_width
    }

    /// The ball fits between the two goals.
    pub open spec fn ball_ok(self) -> bool {
        &&& 0 < self.ball_radius < self.half_width
        &&& self.ball_radius <= self.half_height
    }

    /// All speeds are positive (the serve may slant up or down) and within
    /// machine bounds.
    pub open spec fn speed_ok(self) -> bool {
        &&& 0 < self.paddle_speed <= SPEED_MAX
        &&& 0 < self.serve_vx <= SPEED_MAX
        &&& -SPEED_MAX <= self.serve_vy <= SPEED_MAX
    }

    /// A configuration the match accepts: every geometric quantity is
    /// positive, fits the field, and respects the machine bounds.
    pub open spec fn valid(self) -> bool {
        &&& self.field_ok()
        &&& self.paddle_ok()
        &&& self.ball_ok()
        &&& self.speed_ok()
    }

    /// The error reported for this configuration, checking the field first,
    /// then the paddles, the ball, and the speeds; `None` when valid.
    pub open spec fn spec_error(self) -> Option<ConfigError> {
        if !self.field_ok() {
            Some(ConfigError::InvalidField)
        } else if !self.paddle_ok() {
            Some(ConfigError::InvalidPaddle)
        } else if !self.ball_ok() {
            Some(ConfigError::InvalidBall)
        } else if !self.speed_ok() {
            Some(ConfigError::InvalidSpeed)
        } else {
            None
        }
    }

    /// Checks the configuration, succeeding exactly on valid geometry and
    /// otherwise naming the first invalid group.
    pub fn validate(&self) -> (r: Result<(), ConfigError>)
        ensures
            r is Ok <==> self.valid(),
            r matches Err(e) ==> self.spec_error() == Some(e),
    {
        if !(0 < self.half_width && self.half_width <= COORD_MAX && 0 < self.half_height
            && self.half_height <= COORD_MAX) {
            Err(ConfigError::InvalidField)
        } else if !(0 < self.paddle_half_width && self.paddle_half_width <= self.half_width
            && 0 < self.paddle_half_height && self.paddle_half_height <= self.half_height
            && 0 <= self.paddle_offset && self.paddle_offset <= self.half_width) {
            Err(ConfigError::InvalidPaddle)
        } else if !(0 < self.ball_radius && self.ball_radius < self.half_width
            && self.ball_radius <= self.half_height) {
            Err(ConfigError::InvalidBall)
        } else if !(0 < self.paddle_speed && self.paddle_speed <= SPEED_MAX && 0 < self.serve_vx
            && self.serve_vx <= SPEED_MAX && -SPEED_MAX <= self.serve_vy
            && self.serve_vy <= SPEED_MAX) {
            Err(ConfigError::InvalidSpeed)
        } else {
            Ok(())
        }
    }

    /// Lowest legal paddle center height.
    pub open spec fn paddle_min_y(self) -> int {
        -self.half_height + self.paddle_half_height
    }

    /// Highest legal paddle center height.
    pub open spec fn paddle_max_y(self) -> int {
        self.half_height - self.paddle_half_height
    }

    /// Player one's paddle center x, near the `-half_width` wall.
    pub open spec fn paddle1_x(self) -> int {
        -self.half_width + self.paddle_offset
    }

    /// Player two's paddle center x, near the `+half_width` wall.
    pub open spec fn paddle2_x(self) -> int {
        self.half_width - self.paddle_offset
    }
}

} // verus!
