//! The playfield: fixed numeric bounds, the two horizontal walls, and the
//! ball and paddle components with their spawn placement.
//!
//! One world unit of the playfield is `SCALE` fixed-point units; the arena
//! spans 800 by 600 world units around the origin.

use vstd::prelude::*;
use crate::geometry::Aabb;
use crate::geometry::Vec2I;

verus! {

/// Fixed-point units per world unit.
pub const SCALE: i64 = 1_000;

/// Half the playfield width: the ball resets beyond `x = +-MAX_WIDTH`.
pub const MAX_WIDTH: i64 = 400_000;

/// Half the playfield height.
pub const MAX_HEIGHT: i64 = 300_000;

/// Vertical center of the bottom wall.
pub const BOTTOM_WALL: i64 = -300_000;

/// Vertical center of the top wall.
pub const TOP_WALL: i64 = 300_000;

/// Full thickness of each wall.
pub const WALL_THICKNESS: i64 = 20_000;

/// Horizontal gap between a paddle and its side of the playfield.
pub const PADDLE_WALL_GAP: i64 = 5_000;

/// Initial horizontal ball velocity (2.5 world units per tick).
pub const INITIAL_BALL_VELOCITY_X: i64 = 2_500;

/// Initial vertical ball velocity (1 world unit per tick).
pub const INITIAL_BALL_VELOCITY_Y: i64 = 1_000;

/// Ball radius (5 world units).
pub const BALL_RADIUS: i64 = 5_000;

/// Paddle width (10 world units).
pub const PADDLE_WIDTH: i64 = 10_000;

/// Paddle height (80 world units).
pub const PADDLE_HEIGHT: i64 = 80_000;

/// Paddle speed (3 world units per tick).
pub const PADDLE_SPEED: i64 = 3_000;

/// A paddle's center stays within `+-PADDLE_BOUND` before its own speed is
/// added: the playfield half-height minus twice the wall thickness.
pub const PADDLE_BOUND: i64 = 260_000;

/// The moving ball: its velocity and radius.  Its position lives in the
/// game state beside it.
#[derive(Clone, Copy, PartialEq, Eq, Structural, Debug)]
pub struct Ball {
    pub velocity: Vec2I,
    pub radius: i64,
}

/// A paddle's fixed dimensions and per-tick speed.
#[derive(Clone, Copy, PartialEq, Eq, Structural, Debug)]
pub struct Paddle {
    pub width: i64,
    pub height: i64,
    pub velocity: i64,
}

/// Which horizontal wall.
#[derive(Clone, Copy, PartialEq, Eq, Structural, Debug)]
pub enum WallLocation {
    Bottom,
    Top,
}

pub open spec fn wall_position_spec(loc: WallLocation) -> Vec2I {
    match loc {
        WallLocation::Bottom => Vec2I { x: 0, y: BOTTOM_WALL },
        WallLocation::Top => Vec2I { x: 0, y: TOP_WALL },
    }
}

pub open spec fn wall_size_spec(loc: WallLocation) -> Vec2I {
    Vec2I { x: (2 * MAX_WIDTH + WALL_THICKNESS) as i64, y: WALL_THICKNESS }
}

/// A wall's box: centered on its position, with half its size as extents.
pub open spec fn wall_aabb_spec(loc: WallLocation) -> Aabb {
    Aabb {
        center: wall_position_spec(loc),
        half: Vec2I {
            x: (MAX_WIDTH + WALL_THICKNESS / 2) as i64,
            y: (WALL_THICKNESS / 2) as i64,
        },
    }
}

impl WallLocation {
    /// Location of the center of the wall.
    pub fn position(&self) -> (p: Vec2I)
        ensures
            p == wall_position_spec(*self),
    {
        match self {
            WallLocation::Bottom => Vec2I { x: 0, y: BOTTOM_WALL },
            WallLocation::Top => Vec2I { x: 0, y: TOP_WALL },
        }
    }

    /// Full (x, y) dimensions of the wall: it overhangs the playfield by
    /// half its thickness on each side.
    pub fn size(&self) -> (s: Vec2I)
        ensures
            s == wall_size_spec(*self),
    {
        let arena_height: i64 = TOP_WALL - BOTTOM_WALL;
        let arena_width: i64 = MAX_WIDTH * 2;
        assert(arena_height > 0);
        assert(arena_width > 0);
        Vec2I { x: arena_width + WALL_THICKNESS, y: WALL_THICKNESS }
    }

    /// The wall's collision box.
    pub fn aabb(&self) -> (a: Aabb)
        ensures
            a == wall_aabb_spec(*self),
    {
        let size: Vec2I = self.size();
        Aabb {
            center: self.position(),
            half: Vec2I { x: half_nonneg(size.x), y: half_nonneg(size.y) },
        }
    }
}

pub open spec fn initial_ball_spec() -> Ball {
    Ball {
        velocity: Vec2I { x: INITIAL_BALL_VELOCITY_X, y: INITIAL_BALL_VELOCITY_Y },
        radius: BALL_RADIUS,
    }
}

pub open spec fn standard_paddle_spec() -> Paddle {
    Paddle { width: PADDLE_WIDTH, height: PADDLE_HEIGHT, velocity: PADDLE_SPEED }
}

/// Where the player's paddle spawns: near the right edge, vertically centered.
pub open spec fn player_spawn_spec(p: Paddle) -> Vec2I {
    Vec2I { x: (MAX_WIDTH - p.width - PADDLE_WALL_GAP) as i64, y: 0 }
}

/// Where the enemy's paddle spawns: near the left edge, vertically centered.
pub open spec fn enemy_spawn_spec(p: Paddle) -> Vec2I {
    Vec2I { x: (-MAX_WIDTH + p.width + PADDLE_WALL_GAP) as i64, y: 0 }
}

/// The ball as spawned: initial velocity, standard radius.
pub fn spawn_ball() -> (b: Ball)
    ensures
        b == initial_ball_spec(),
{
    Ball {
        velocity: Vec2I { x: INITIAL_BALL_VELOCITY_X, y: INITIAL_BALL_VELOCITY_Y },
        radius: BALL_RADIUS,
    }
}

/// The player's paddle as spawned, with its position.
pub fn spawn_player_paddle() -> (r: (Paddle, Vec2I))
    ensures
        r.0 == standard_paddle_spec(),
        r.1 == player_spawn_spec(r.0),
{
    let paddle = Paddle { width: PADDLE_WIDTH, height: PADDLE_HEIGHT, velocity: PADDLE_SPEED };
    let pos = Vec2I { x: MAX_WIDTH - paddle.width - PADDLE_WALL_GAP, y: 0 };
    (paddle, pos)
}

/// The enemy's paddle as spawned, with its position.
pub fn spawn_enemy_paddle() -> (r: (Paddle, Vec2I))
    ensures
        r.0 == standard_paddle_spec(),
        r.1 == enemy_spawn_spec(r.0),
{
    let paddle = Paddle { width: PADDLE_WIDTH, height: PADDLE_HEIGHT, velocity: PADDLE_SPEED };
    let pos = Vec2I { x: -MAX_WIDTH + paddle.width + PADDLE_WALL_GAP, y: 0 };
    (paddle, pos)
}

/// A paddle's collision box at a given center position.
pub open spec fn paddle_aabb_spec(p: Paddle, pos: Vec2I) -> Aabb {
    Aabb {
        center: pos,
        half: Vec2I { x: (p.width / 2) as i64, y: (p.height / 2) as i64 },
    }
}

/// Half of a nonnegative value, rounded down.
pub fn half_nonneg(v: i64) -> (r: i64)
    requires
        0 <= v,
    ensures
        r == (v as int) / 2,
{
    ((v as u64) / 2) as i64
}

impl Paddle {
    /// The paddle's collision box at `pos`.
    pub fn aabb(&self, pos: Vec2I) -> (a: Aabb)
        requires
            0 <= self.width,
            0 <= self.height,
        ensures
            a == paddle_aabb_spec(*self, pos),
    {
        Aabb { center: pos, half: Vec2I { x: half_nonneg(self.width), y: half_nonneg(self.height) } }
    }
}

} // verus!
