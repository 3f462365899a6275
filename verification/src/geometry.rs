//! Circle-vs-axis-aligned-box collision detection.
//!
//! A ball is a circle, every collider (wall or paddle) is an axis-aligned
//! box given by its center and half-extents.  A collision is detected when
//! the closest point of the box to the circle's center lies within the
//! circle's radius, and is classified by the side of the box the center
//! falls on: the horizontal axis wins ties.

use vstd::prelude::*;

verus! {

/// Every coordinate handled by the collision test stays within this bound,
/// so that squared distances fit in an `i64`.
pub const COORD_LIMIT: i64 = 500_000_000;

/// A 2D point or vector in fixed-point units.
#[derive(Clone, Copy, PartialEq, Eq, Structural, Debug)]
pub struct Vec2I {
    pub x: i64,
    pub y: i64,
}

/// An axis-aligned box: center plus half-extents.
#[derive(Clone, Copy, PartialEq, Eq, Structural, Debug)]
pub struct Aabb {
    pub center: Vec2I,
    pub half: Vec2I,
}

/// A circle: center plus radius.
#[derive(Clone, Copy, PartialEq, Eq, Structural, Debug)]
pub struct Circle {
    pub center: Vec2I,
    pub radius: i64,
}

/// The side of a box on which a collision happened, seen from the box:
/// `Left` means the circle's center is on the box's left side.
#[derive(Clone, Copy, PartialEq, Eq, Structural, Debug)]
pub enum Collision {
    Left,
    Right,
    Top,
    Bottom,
}

pub open spec fn in_coord_range(v: int) -> bool {
    -COORD_LIMIT <= v <= COORD_LIMIT
}

pub open spec fn wf_vec(v: Vec2I) -> bool {
    in_coord_range(v.x as int) && in_coord_range(v.y as int)
}

pub open spec fn wf_aabb(a: Aabb) -> bool {
    wf_vec(a.center) && 0 <= a.half.x <= COORD_LIMIT && 0 <= a.half.y <= COORD_LIMIT
}

pub open spec fn wf_circle(c: Circle) -> bool {
    wf_vec(c.center) && 0 <= c.radius <= COORD_LIMIT
}

pub open spec fn clamp_spec(v: int, lo: int, hi: int) -> int {
    if v < lo {
        lo
    } else if v > hi {
        hi
    } else {
        v
    }
}

pub open spec fn abs_spec(v: int) -> int {
    if v < 0 {
        -v
    } else {
        v
    }
}

/// The point of the box closest to `p`: `p` clamped into the box.
pub open spec fn closest_point_spec(a: Aabb, p: Vec2I) -> (int, int) {
    (
        clamp_spec(p.x as int, a.center.x - a.half.x, a.center.x + a.half.x),
        clamp_spec(p.y as int, a.center.y - a.half.y, a.center.y + a.half.y),
    )
}

/// Squared distance from the circle's center to the closest point of the box.
pub open spec fn dist2_to_closest(c: Circle, a: Aabb) -> int {
    let q = closest_point_spec(a, c.center);
    let dx = c.center.x - q.0;
    let dy = c.center.y - q.1;
    dx * dx + dy * dy
}

/// The circle touches the box when the closest point is within the radius.
pub open spec fn intersects_spec(c: Circle, a: Aabb) -> bool {
    dist2_to_closest(c, a) <= c.radius * c.radius
}

/// Side classification: compare the offset from the closest point back to the
/// circle's center; the larger axis wins, with the horizontal axis winning ties.
pub open spec fn side_spec(c: Circle, a: Aabb) -> Collision {
    let q = closest_point_spec(a, c.center);
    let ox = c.center.x - q.0;
    let oy = c.center.y - q.1;
    if abs_spec(ox) >= abs_spec(oy) {
        if ox < 0 {
            Collision::Left
        } else {
            Collision::Right
        }
    } else if oy > 0 {
        Collision::Top
    } else {
        Collision::Bottom
    }
}

/// Full collision test: the classified side when the circle touches the box.
pub open spec fn collide_spec(c: Circle, a: Aabb) -> Option<Collision> {
    if intersects_spec(c, a) {
        Some(side_spec(c, a))
    } else {
        None
    }
}

/// A circle whose center clears the box by more than its radius on some
/// axis does not touch it: no collision is reported.
pub proof fn lemma_clearance_no_collision(c: Circle, a: Aabb)
    requires
        0 <= a.half.x,
        0 <= a.half.y,
        0 <= c.radius,
        (c.center.x + c.radius < a.center.x - a.half.x) || (c.center.x - c.radius > a.center.x
            + a.half.x) || (c.center.y + c.radius < a.center.y - a.half.y) || (c.center.y
            - c.radius > a.center.y + a.half.y),
    ensures
        collide_spec(c, a) is None,
{
    let q = closest_point_spec(a, c.center);
    let dx = c.center.x - q.0;
    let dy = c.center.y - q.1;
    assert(dx * dx >= 0) by (nonlinear_arith);
    assert(dy * dy >= 0) by (nonlinear_arith);
    if c.center.x + c.radius < a.center.x - a.half.x {
        assert(dx * dx > c.radius * c.radius) by (nonlinear_arith)
            requires
                dx < -c.radius,
                0 <= c.radius,
        ;
    } else if c.center.x - c.radius > a.center.x + a.half.x {
        assert(dx * dx > c.radius * c.radius) by (nonlinear_arith)
            requires
                dx > c.radius,
                0 <= c.radius,
        ;
    } else if c.center.y + c.radius < a.center.y - a.half.y {
        assert(dy * dy > c.radius * c.radius) by (nonlinear_arith)
            requires
                dy < -c.radius,
                0 <= c.radius,
        ;
    } else {
        assert(dy * dy > c.radius * c.radius) by (nonlinear_arith)
            requires
                dy > c.radius,
                0 <= c.radius,
        ;
    }
}

/// Clamp `v` into `[lo, hi]`.
pub fn clamp_i64(v: i64, lo: i64, hi: i64) -> (r: i64)
    requires
        lo <= hi,
    ensures
        r == clamp_spec(v as int, lo as int, hi as int),
{
    if v < lo {
        lo
    } else if v > hi {
        hi
    } else {
        v
    }
}

/// Test the ball against one collider and classify the touched side.
pub fn collide_with_side(ball: Circle, collider: Aabb) -> (r: Option<Collision>)
    requires
        wf_circle(ball),
        wf_aabb(collider),
    ensures
        r == collide_spec(ball, collider),
{
    let qx: i64 = clamp_i64(
        ball.center.x,
        collider.center.x - collider.half.x,
        collider.center.x + collider.half.x,
    );
    let qy: i64 = clamp_i64(
        ball.center.y,
        collider.center.y - collider.half.y,
        collider.center.y + collider.half.y,
    );
    let dx: i64 = ball.center.x - qx;
    let dy: i64 = ball.center.y - qy;
    assert(0 <= dx * dx <= 2_250_000_000_000_000_000) by (nonlinear_arith)
        requires
            -1_500_000_000 <= dx <= 1_500_000_000,
    ;
    assert(0 <= dy * dy <= 2_250_000_000_000_000_000) by (nonlinear_arith)
        requires
            -1_500_000_000 <= dy <= 1_500_000_000,
    ;
    let d2: i64 = dx * dx + dy * dy;
    assert(0 <= ball.radius * ball.radius <= 250_000_000_000_000_000) by (nonlinear_arith)
        requires
            0 <= ball.radius <= 500_000_000,
    ;
    let r2: i64 = ball.radius * ball.radius;
    if d2 > r2 {
        return None;
    }
    let ax: i64 = if dx < 0 {
        -dx
    } else {
        dx
    };
    let ay: i64 = if dy < 0 {
        -dy
    } else {
        dy
    };
    let side: Collision = if ax >= ay {
        if dx < 0 {
            Collision::Left
        } else {
            Collision::Right
        }
    } else if dy > 0 {
        Collision::Top
    } else {
        Collision::Bottom
    };
    Some(side)
}

} // verus!
