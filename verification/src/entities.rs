//! Plain data records for the entities of the simulation: the ball and
//! the paddles, together with the integer ranges the core works in.

use vstd::prelude::*;
use crate::arena::ArenaConfig;

verus! {

/// Diameter of the ball in the standard setup.
pub const BALL_DIAMETER: i64 = 30;

/// Speed the host scales the initial ball direction to in the standard
/// setup.
pub const BALL_SPEED: i64 = 500;

/// Width of a paddle in the standard setup.
pub const PADDLE_WIDTH: i64 = 20;

/// Height of a paddle in the standard setup.
pub const PADDLE_HEIGHT: i64 = 120;

/// Gap between a paddle and the arena bound it stands at.
pub const GAP_BETWEEN_PADDLE_AND_FLOOR: i64 = 10;

/// Vertical speed of a paddle, in units per time unit.
pub const PADDLE_SPEED: i64 = 500;

/// Largest magnitude allowed for geometry: arena bounds, wall thickness,
/// paddle coordinates, half-extents, speeds, the ball's radius and the
/// components of its velocity.
pub const GEOM_LIMIT: i64 = 1_000_000_000;

/// Largest time step a single tick may cover.
pub const DT_LIMIT: i64 = 1_000_000_000;

/// Largest magnitude allowed for a ball position handed to the motion
/// integrator. One integration step moves the ball by at most
/// `GEOM_LIMIT * DT_LIMIT`, so the result stays well inside `i64`.
pub const POS_LIMIT: i64 = 7_000_000_000_000_000_000;

/// Largest magnitude a ball position can reach right after one
/// integration step from a position within `POS_LIMIT`.
pub const FLIGHT_LIMIT: i64 = POS_LIMIT + GEOM_LIMIT * DT_LIMIT;

/// A two-dimensional integer vector: a position, a velocity or an extent.
#[derive(Clone, Copy, Debug, PartialEq, Eq, Structural)]
pub struct Vec2 {
    pub x: i64,
    pub y: i64,
}

/// The ball: a position, a velocity and a radius. Mutated every tick by
/// the motion integrator (position) and the collision resolver (velocity).
#[derive(Clone, Copy, Debug, PartialEq, Eq, Structural)]
pub struct Ball {
    pub position: Vec2,
    pub velocity: Vec2,
    pub radius: i64,
}

/// Who drives a paddle: the player's input intent, or nobody.
#[derive(Clone, Copy, Debug, PartialEq, Eq, Structural)]
pub enum PaddleStrategy {
    PlayerControlled,
    Stationary,
}

/// A paddle: a position whose `x` is fixed after spawn, half-extents,
/// a vertical speed, and the strategy that drives it.
#[derive(Clone, Copy, Debug, PartialEq, Eq, Structural)]
pub struct Paddle {
    pub position: Vec2,
    pub half_size: Vec2,
    pub speed: i64,
    pub strategy: PaddleStrategy,
}

/// The velocity components are within `GEOM_LIMIT`.
pub open spec fn vel_ok(v: Vec2) -> bool {
    &&& -GEOM_LIMIT <= v.x <= GEOM_LIMIT
    &&& -GEOM_LIMIT <= v.y <= GEOM_LIMIT
}

/// The position components are within `POS_LIMIT`: safe to integrate.
pub open spec fn pos_ok(p: Vec2) -> bool {
    &&& -POS_LIMIT <= p.x <= POS_LIMIT
    &&& -POS_LIMIT <= p.y <= POS_LIMIT
}

/// The position components are within `FLIGHT_LIMIT`: where a ball can
/// stand right after one integration step.
pub open spec fn in_flight_range(p: Vec2) -> bool {
    &&& -FLIGHT_LIMIT <= p.x <= FLIGHT_LIMIT
    &&& -FLIGHT_LIMIT <= p.y <= FLIGHT_LIMIT
}

impl Ball {
    /// Well-formed ball: bounded velocity and radius, position at most
    /// one integration step beyond `POS_LIMIT`.
    pub open spec fn wf(self) -> bool {
        &&& in_flight_range(self.position)
        &&& vel_ok(self.velocity)
        &&& 0 <= self.radius <= GEOM_LIMIT
    }
}

impl Paddle {
    /// Well-formed paddle: coordinates within twice `GEOM_LIMIT` (a
    /// spawn position lies a small gap inside an arena bound, so it can
    /// stand slightly beyond the bound's own range), half-extents and
    /// speed non-negative and bounded by `GEOM_LIMIT`.
    pub open spec fn wf(self) -> bool {
        &&& -2 * GEOM_LIMIT <= self.position.x <= 2 * GEOM_LIMIT
        &&& -2 * GEOM_LIMIT <= self.position.y <= 2 * GEOM_LIMIT
        &&& 0 <= self.half_size.x <= GEOM_LIMIT
        &&& 0 <= self.half_size.y <= GEOM_LIMIT
        &&& 0 <= self.speed <= GEOM_LIMIT
    }
}

/// Which side of the arena a paddle spawns at.
#[derive(Clone, Copy, Debug, PartialEq, Eq, Structural)]
pub enum PaddleLocation {
    Left,
    Right,
}

/// Centre a paddle spawns at: a fixed gap inside its side of the arena,
/// vertically centred.
pub open spec fn spec_paddle_position(location: PaddleLocation, a: ArenaConfig) -> Vec2 {
    match location {
        PaddleLocation::Left => Vec2 {
            x: (a.left + GAP_BETWEEN_PADDLE_AND_FLOOR + PADDLE_WIDTH / 2) as i64,
            y: 0,
        },
        PaddleLocation::Right => Vec2 {
            x: (a.right - GAP_BETWEEN_PADDLE_AND_FLOOR - PADDLE_WIDTH / 2) as i64,
            y: 0,
        },
    }
}

impl PaddleLocation {
    /// Centre a paddle spawns at for this side of the arena.
    pub fn position(&self, a: &ArenaConfig) -> (p: Vec2)
        requires
            a.wf(),
        ensures
            p == spec_paddle_position(*self, *a),
    {
        match self {
            PaddleLocation::Left => Vec2 {
                x: a.left + GAP_BETWEEN_PADDLE_AND_FLOOR + PADDLE_WIDTH / 2,
                y: 0,
            },
            PaddleLocation::Right => Vec2 {
                x: a.right - GAP_BETWEEN_PADDLE_AND_FLOOR - PADDLE_WIDTH / 2,
                y: 0,
            },
        }
    }
}

impl Paddle {
    /// Spawn a paddle at its side of the arena with the standard size
    /// and speed, driven by the given strategy. The `x` coordinate is
    /// fixed from here on; only the controller moves `y`.
    pub fn new(location: PaddleLocation, strategy: PaddleStrategy, a: &ArenaConfig) -> (p: Paddle)
        requires
            a.wf(),
        ensures
            p == (Paddle {
                position: spec_paddle_position(location, *a),
                half_size: Vec2 {
                    x: (PADDLE_WIDTH / 2) as i64,
                    y: (PADDLE_HEIGHT / 2) as i64,
                },
                speed: PADDLE_SPEED,
                strategy,
            }),
            p.wf(),
    {
        Paddle {
            position: location.position(a),
            half_size: Vec2 { x: PADDLE_WIDTH / 2, y: PADDLE_HEIGHT / 2 },
            speed: PADDLE_SPEED,
            strategy,
        }
    }
}

} // verus!
