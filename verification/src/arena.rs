//! Arena geometry: the boundary configuration and the wall rectangles
//! derived from it once at startup.

use vstd::prelude::*;
use crate::entities::{Vec2, GEOM_LIMIT};

verus! {

/// x coordinate of the left arena bound in the standard arena.
pub const LEFT_WALL: i64 = -450;
/// x coordinate of the right arena bound in the standard arena.
pub const RIGHT_WALL: i64 = 450;
/// y coordinate of the bottom arena bound in the standard arena.
pub const BOTTOM_WALL: i64 = -300;
/// y coordinate of the top arena bound in the standard arena.
pub const TOP_WALL: i64 = 300;
/// Thickness of the boundary walls in the standard arena.
pub const WALL_THICKNESS: i64 = 2;

/// Immutable boundary configuration, constructed once at startup and
/// passed by reference into every component.
#[derive(Clone, Copy, Debug, PartialEq, Eq, Structural)]
pub struct ArenaConfig {
    pub left: i64,
    pub right: i64,
    pub bottom: i64,
    pub top: i64,
    pub wall_thickness: i64,
}

impl ArenaConfig {
    /// Valid configuration: a non-degenerate rectangle with bounded
    /// coordinates and a non-negative wall thickness.
    pub open spec fn wf(self) -> bool {
        &&& -GEOM_LIMIT <= self.left <= GEOM_LIMIT
        &&& -GEOM_LIMIT <= self.right <= GEOM_LIMIT
        &&& -GEOM_LIMIT <= self.bottom <= GEOM_LIMIT
        &&& -GEOM_LIMIT <= self.top <= GEOM_LIMIT
        &&& 0 <= self.wall_thickness <= GEOM_LIMIT
        &&& self.left < self.right
        &&& self.bottom < self.top
    }

    /// The standard arena used by the reference setup.
    pub fn standard() -> (a: ArenaConfig)
        ensures
            a == (ArenaConfig {
                left: LEFT_WALL,
                right: RIGHT_WALL,
                bottom: BOTTOM_WALL,
                top: TOP_WALL,
                wall_thickness: WALL_THICKNESS,
            }),
            a.wf(),
    {
        ArenaConfig {
            left: LEFT_WALL,
            right: RIGHT_WALL,
            bottom: BOTTOM_WALL,
            top: TOP_WALL,
            wall_thickness: WALL_THICKNESS,
        }
    }
}

/// Which of the five walls a rectangle stands for. `Middle` is the
/// decorative net: it takes no part in collision.
#[derive(Clone, Copy, Debug, PartialEq, Eq, Structural)]
pub enum WallLocation {
    Left,
    Right,
    Bottom,
    Top,
    Middle,
}

/// Centre of a wall of the given location.
pub open spec fn spec_wall_position(location: WallLocation, a: ArenaConfig) -> Vec2 {
    match location {
        WallLocation::Left => Vec2 { x: a.left, y: 0 },
        WallLocation::Right => Vec2 { x: a.right, y: 0 },
        WallLocation::Bottom => Vec2 { x: 0, y: a.bottom },
        WallLocation::Top => Vec2 { x: 0, y: a.top },
        WallLocation::Middle => Vec2 { x: 0, y: 0 },
    }
}

/// Full extent of a wall of the given location: vertical walls span the
/// arena height plus the wall thickness, horizontal ones the width.
pub open spec fn spec_wall_size(location: WallLocation, a: ArenaConfig) -> Vec2 {
    match location {
        WallLocation::Left | WallLocation::Right | WallLocation::Middle => Vec2 {
            x: a.wall_thickness,
            y: (a.top - a.bottom + a.wall_thickness) as i64,
        },
        WallLocation::Bottom | WallLocation::Top => Vec2 {
            x: (a.right - a.left + a.wall_thickness) as i64,
            y: a.wall_thickness,
        },
    }
}

impl WallLocation {
    /// Centre of the wall at this location.
    pub fn position(&self, a: &ArenaConfig) -> (p: Vec2)
        ensures
            p == spec_wall_position(*self, *a),
    {
        match self {
            WallLocation::Left => Vec2 { x: a.left, y: 0 },
            WallLocation::Right => Vec2 { x: a.right, y: 0 },
            WallLocation::Bottom => Vec2 { x: 0, y: a.bottom },
            WallLocation::Top => Vec2 { x: 0, y: a.top },
            WallLocation::Middle => Vec2 { x: 0, y: 0 },
        }
    }

    /// Full extent of the wall at this location. A valid configuration
    /// guarantees the positive arena width and height the extents rest on.
    pub fn size(&self, a: &ArenaConfig) -> (s: Vec2)
        requires
            a.wf(),
        ensures
            s == spec_wall_size(*self, *a),
    {
        let arena_height = a.top - a.bottom;
        let arena_width = a.right - a.left;
        match self {
            WallLocation::Left | WallLocation::Right | WallLocation::Middle => Vec2 {
                x: a.wall_thickness,
                y: arena_height + a.wall_thickness,
            },
            WallLocation::Bottom | WallLocation::Top => Vec2 {
                x: arena_width + a.wall_thickness,
                y: a.wall_thickness,
            },
        }
    }
}

/// A wall rectangle: its role, its centre and its full extent.
#[derive(Clone, Copy, Debug, PartialEq, Eq, Structural)]
pub struct Wall {
    pub location: WallLocation,
    pub position: Vec2,
    pub size: Vec2,
}

/// The wall record derived for a location.
pub open spec fn spec_wall(location: WallLocation, a: ArenaConfig) -> Wall {
    Wall {
        location,
        position: spec_wall_position(location, a),
        size: spec_wall_size(location, a),
    }
}

impl Wall {
    /// Derive the wall rectangle for a location from the configuration.
    pub fn new(location: WallLocation, a: &ArenaConfig) -> (w: Wall)
        requires
            a.wf(),
        ensures
            w == spec_wall(location, *a),
    {
        Wall {
            location,
            position: location.position(a),
            size: location.size(a),
        }
    }
}

/// All five wall rectangles of an arena, derived once at startup, in the
/// order left, right, bottom, top, net.
pub fn arena_walls(a: &ArenaConfig) -> (walls: Vec<Wall>)
    requires
        a.wf(),
    ensures
        walls@.len() == 5,
        walls@[0] == spec_wall(WallLocation::Left, *a),
        walls@[1] == spec_wall(WallLocation::Right, *a),
        walls@[2] == spec_wall(WallLocation::Bottom, *a),
        walls@[3] == spec_wall(WallLocation::Top, *a),
        walls@[4] == spec_wall(WallLocation::Middle, *a),
{
    let mut walls: Vec<Wall> = Vec::new();
    walls.push(Wall::new(WallLocation::Left, a));
    walls.push(Wall::new(WallLocation::Right, a));
    walls.push(Wall::new(WallLocation::Bottom, a));
    walls.push(Wall::new(WallLocation::Top, a));
    walls.push(Wall::new(WallLocation::Middle, a));
    walls
}

} // verus!
