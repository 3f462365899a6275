//! Collision response: when the ball touches a collider, the velocity axis
//! matching the touched side is reflected; a paddle hit first scales both
//! velocity components by a fixed factor, so the ball speeds up gradually.
//!
//! One tick tests the ball against every collider in order, threading the
//! velocity through each response.

use vstd::prelude::*;
use vstd::arithmetic::div_mod::lemma_div_is_ordered;
use vstd::arithmetic::div_mod::lemma_div_multiples_vanish;
use vstd::arithmetic::div_mod::lemma_div_pos_is_pos;
use crate::geometry::Aabb;
use crate::geometry::Circle;
use crate::geometry::Collision;
use crate::geometry::Vec2I;
use crate::geometry::collide_spec;
use crate::geometry::collide_with_side;
use crate::geometry::wf_aabb;
use crate::geometry::wf_circle;

verus! {

/// Numerator of the horizontal speed-up factor, over `SPEEDUP_DEN`: 1.1.
pub const SPEEDUP_NUM_X: i64 = 1_100;

/// Numerator of the vertical speed-up factor, over `SPEEDUP_DEN`: 1.115.
pub const SPEEDUP_NUM_Y: i64 = 1_115;

/// Denominator of both speed-up factors.
pub const SPEEDUP_DEN: i64 = 1_000;

/// Largest velocity magnitude a single scaling step accepts: multiplied by
/// the largest factor numerator it still fits in an `i64`.
pub const VEL_MUL_LIMIT: i64 = 4_000_000_000_000_000;

/// Largest velocity magnitude `handle_collision` accepts: it can at most
/// double per collider, for at most `MAX_COLLIDERS` colliders.
pub const VEL_IN_LIMIT: i64 = 10_000_000_000_000;

/// Largest number of colliders `handle_collision` accepts.
pub const MAX_COLLIDERS: usize = 8;

/// One collider as the collision pass sees it: its box, and whether it is
/// a paddle (which adds the speed-up) or a wall.
#[derive(Clone, Copy, PartialEq, Eq, Structural, Debug)]
pub struct ColliderInfo {
    pub rect: Aabb,
    pub is_paddle: bool,
}

/// Scale `v` by `num / SPEEDUP_DEN`, rounding toward zero.
pub open spec fn scale_toward_zero(v: int, num: int) -> int {
    if v >= 0 {
        (v * num) / (SPEEDUP_DEN as int)
    } else {
        -(((-v) * num) / (SPEEDUP_DEN as int))
    }
}

/// Scaling by a factor between 1 and 2 keeps the sign, never shrinks the
/// magnitude, and at most doubles any bound on it.
pub proof fn lemma_scale_bounds(v: int, num: int, b: int)
    requires
        SPEEDUP_DEN <= num <= 2 * SPEEDUP_DEN,
        0 <= b,
        -b <= v <= b,
    ensures
        -2 * b <= scale_toward_zero(v, num) <= 2 * b,
        v > 0 ==> v <= scale_toward_zero(v, num),
        v == 0 ==> scale_toward_zero(v, num) == 0,
        v < 0 ==> scale_toward_zero(v, num) <= v,
{
    let d = SPEEDUP_DEN as int;
    if v >= 0 {
        assert(d * v <= v * num <= d * (2 * b) && 0 <= v * num) by (nonlinear_arith)
            requires
                1_000 <= num <= 2_000,
                d == 1_000,
                0 <= v <= b,
        ;
        lemma_div_is_ordered(d * v, v * num, d);
        lemma_div_is_ordered(v * num, d * (2 * b), d);
        lemma_div_multiples_vanish(v, d);
        lemma_div_multiples_vanish(2 * b, d);
        lemma_div_pos_is_pos(v * num, d);
    } else {
        let m = -v;
        assert(d * m <= m * num <= d * (2 * b) && 0 <= m * num) by (nonlinear_arith)
            requires
                1_000 <= num <= 2_000,
                d == 1_000,
                0 <= m <= b,
        ;
        lemma_div_is_ordered(d * m, m * num, d);
        lemma_div_is_ordered(m * num, d * (2 * b), d);
        lemma_div_multiples_vanish(m, d);
        lemma_div_multiples_vanish(2 * b, d);
        lemma_div_pos_is_pos(m * num, d);
    }
}

/// Scale one velocity component by `num / SPEEDUP_DEN`, rounding toward zero.
pub fn scale_velocity(v: i64, num: i64) -> (r: i64)
    requires
        SPEEDUP_DEN <= num <= 2 * SPEEDUP_DEN,
        -VEL_MUL_LIMIT <= v <= VEL_MUL_LIMIT,
    ensures
        r == scale_toward_zero(v as int, num as int),
        -2 * VEL_MUL_LIMIT <= r <= 2 * VEL_MUL_LIMIT,
{
    proof {
        lemma_scale_bounds(v as int, num as int, VEL_MUL_LIMIT as int);
    }
    let m: u64 = if v >= 0 {
        v as u64
    } else {
        (-v) as u64
    };
    assert(m * (num as u64) <= 8_000_000_000_000_000_000) by (nonlinear_arith)
        requires
            m <= 4_000_000_000_000_000,
            (num as u64) <= 2_000,
    ;
    let p: u64 = m * (num as u64);
    proof {
        lemma_div_is_ordered(p as int, 8_000_000_000_000_000_000, SPEEDUP_DEN as int);
        lemma_div_multiples_vanish(8_000_000_000_000_000, SPEEDUP_DEN as int);
        lemma_div_pos_is_pos(p as int, SPEEDUP_DEN as int);
    }
    let s: u64 = p / (SPEEDUP_DEN as u64);
    if v >= 0 {
        s as i64
    } else {
        -(s as i64)
    }
}

/// What one detected collision does to the velocity: a paddle hit scales
/// both components, then the axis matching the touched side is negated.
pub open spec fn response_spec(vx: int, vy: int, side: Collision, is_paddle: bool) -> (int, int) {
    let sx = if is_paddle {
        scale_toward_zero(vx, SPEEDUP_NUM_X as int)
    } else {
        vx
    };
    let sy = if is_paddle {
        scale_toward_zero(vy, SPEEDUP_NUM_Y as int)
    } else {
        vy
    };
    match side {
        Collision::Left => (-sx, sy),
        Collision::Right => (-sx, sy),
        Collision::Top => (sx, -sy),
        Collision::Bottom => (sx, -sy),
    }
}

/// The response at most doubles any bound on the velocity components.
pub proof fn lemma_response_bounds(vx: int, vy: int, side: Collision, is_paddle: bool, b: int)
    requires
        0 <= b,
        -b <= vx <= b,
        -b <= vy <= b,
    ensures
        -2 * b <= response_spec(vx, vy, side, is_paddle).0 <= 2 * b,
        -2 * b <= response_spec(vx, vy, side, is_paddle).1 <= 2 * b,
{
    lemma_scale_bounds(vx, SPEEDUP_NUM_X as int, b);
    lemma_scale_bounds(vy, SPEEDUP_NUM_Y as int, b);
}

/// Apply one detected collision to the ball's velocity.
pub fn collision_response(vel: Vec2I, side: Collision, is_paddle: bool) -> (r: Vec2I)
    requires
        -VEL_MUL_LIMIT <= vel.x <= VEL_MUL_LIMIT,
        -VEL_MUL_LIMIT <= vel.y <= VEL_MUL_LIMIT,
    ensures
        r.x as int == response_spec(vel.x as int, vel.y as int, side, is_paddle).0,
        r.y as int == response_spec(vel.x as int, vel.y as int, side, is_paddle).1,
{
    let sx: i64 = if is_paddle {
        scale_velocity(vel.x, SPEEDUP_NUM_X)
    } else {
        vel.x
    };
    let sy: i64 = if is_paddle {
        scale_velocity(vel.y, SPEEDUP_NUM_Y)
    } else {
        vel.y
    };
    match side {
        Collision::Left => Vec2I { x: -sx, y: sy },
        Collision::Right => Vec2I { x: -sx, y: sy },
        Collision::Top => Vec2I { x: sx, y: -sy },
        Collision::Bottom => Vec2I { x: sx, y: -sy },
    }
}

/// One collider's effect on the velocity: the response if the ball touches
/// it, the velocity unchanged otherwise.
pub open spec fn step_collider_spec(vx: int, vy: int, ball: Circle, c: ColliderInfo) -> (
    int,
    int,
) {
    match collide_spec(ball, c.rect) {
        Some(side) => response_spec(vx, vy, side, c.is_paddle),
        None => (vx, vy),
    }
}

/// The velocity after testing the ball against every collider in order.
pub open spec fn vel_after_colliders(vx: int, vy: int, ball: Circle, cs: Seq<ColliderInfo>) -> (
    int,
    int,
)
    decreases cs.len(),
{
    if cs.len() == 0 {
        (vx, vy)
    } else {
        let s = step_collider_spec(vx, vy, ball, cs[0]);
        vel_after_colliders(s.0, s.1, ball, cs.subrange(1, cs.len() as int))
    }
}

/// A pass over colliders that all report no collision leaves the velocity
/// unchanged.
pub proof fn lemma_no_hits_identity(vx: int, vy: int, ball: Circle, cs: Seq<ColliderInfo>)
    requires
        forall|j: int| 0 <= j < cs.len() ==> collide_spec(ball, cs[j].rect) is None,
    ensures
        vel_after_colliders(vx, vy, ball, cs) == (vx, vy),
    decreases cs.len(),
{
    if cs.len() > 0 {
        let rest = cs.subrange(1, cs.len() as int);
        assert(forall|j: int| 0 <= j < rest.len() ==> rest[j] == cs[j + 1]);
        lemma_no_hits_identity(vx, vy, ball, rest);
    }
}

/// Velocity bound growth along the collision pass: doubles once per step.
pub open spec fn growth_cap(k: nat) -> int
    decreases k,
{
    if k == 0 {
        1
    } else {
        2 * growth_cap((k - 1) as nat)
    }
}

pub proof fn lemma_growth_cap_pos(k: nat)
    ensures
        1 <= growth_cap(k),
    decreases k,
{
    if k > 0 {
        lemma_growth_cap_pos((k - 1) as nat);
    }
}

pub proof fn lemma_growth_cap_monotone(j: nat, k: nat)
    requires
        j <= k,
    ensures
        growth_cap(j) <= growth_cap(k),
    decreases k,
{
    if j < k {
        lemma_growth_cap_monotone(j, (k - 1) as nat);
        lemma_growth_cap_pos((k - 1) as nat);
    }
}

/// For a pass of at most `MAX_COLLIDERS` steps the growth factor stays
/// between 1 and 256.
pub proof fn lemma_growth_cap_small(k: nat)
    requires
        k <= 8,
    ensures
        1 <= growth_cap(k) <= 256,
{
    lemma_growth_cap_pos(k);
    lemma_growth_cap_monotone(k, 8);
    assert(growth_cap(1) == 2 * growth_cap(0));
    assert(growth_cap(2) == 2 * growth_cap(1));
    assert(growth_cap(3) == 2 * growth_cap(2));
    assert(growth_cap(4) == 2 * growth_cap(3));
    assert(growth_cap(5) == 2 * growth_cap(4));
    assert(growth_cap(6) == 2 * growth_cap(5));
    assert(growth_cap(7) == 2 * growth_cap(6));
    assert(growth_cap(8) == 2 * growth_cap(7));
}

/// Test the ball against every collider in order and apply each response.
pub fn handle_collision(vel: Vec2I, ball: Circle, colliders: &Vec<ColliderInfo>) -> (r: Vec2I)
    requires
        wf_circle(ball),
        forall|j: int| 0 <= j < colliders@.len() ==> wf_aabb(colliders@[j].rect),
        colliders@.len() <= MAX_COLLIDERS,
        -VEL_IN_LIMIT <= vel.x <= VEL_IN_LIMIT,
        -VEL_IN_LIMIT <= vel.y <= VEL_IN_LIMIT,
    ensures
        r.x as int == vel_after_colliders(vel.x as int, vel.y as int, ball, colliders@).0,
        r.y as int == vel_after_colliders(vel.x as int, vel.y as int, ball, colliders@).1,
{
    let mut vx: i64 = vel.x;
    let mut vy: i64 = vel.y;
    let n: usize = colliders.len();
    let mut i: usize = 0;
    proof {
        assert(colliders@.subrange(0, n as int) =~= colliders@);
    }
    while i < n
        invariant
            n == colliders@.len(),
            i <= n,
            n <= MAX_COLLIDERS,
            wf_circle(ball),
            forall|j: int| 0 <= j < colliders@.len() ==> wf_aabb(colliders@[j].rect),
            -(VEL_IN_LIMIT * growth_cap(i as nat)) <= vx as int,
            vx as int <= VEL_IN_LIMIT * growth_cap(i as nat),
            -(VEL_IN_LIMIT * growth_cap(i as nat)) <= vy as int,
            vy as int <= VEL_IN_LIMIT * growth_cap(i as nat),
            vel_after_colliders(vel.x as int, vel.y as int, ball, colliders@)
                == vel_after_colliders(
                vx as int,
                vy as int,
                ball,
                colliders@.subrange(i as int, n as int),
            ),
        decreases n - i,
    {
        proof {
            lemma_growth_cap_small(i as nat);
        }
        let ghost old_vx: int = vx as int;
        let ghost old_vy: int = vy as int;
        let c: ColliderInfo = colliders[i];
        let hit: Option<Collision> = collide_with_side(ball, c.rect);
        match hit {
            Some(side) => {
                proof {
                    lemma_response_bounds(
                        vx as int,
                        vy as int,
                        side,
                        c.is_paddle,
                        VEL_IN_LIMIT * growth_cap(i as nat),
                    );
                }
                let nv: Vec2I = collision_response(Vec2I { x: vx, y: vy }, side, c.is_paddle);
                vx = nv.x;
                vy = nv.y;
            },
            None => {},
        }
        proof {
            lemma_growth_cap_pos(i as nat);
            assert(growth_cap((i + 1) as nat) == 2 * growth_cap(i as nat));
            assert(colliders@.subrange(i as int, n as int).subrange(1, (n - i) as int)
                =~= colliders@.subrange(i + 1, n as int));
            assert(step_collider_spec(old_vx, old_vy, ball, colliders@.subrange(i as int, n as int)[0])
                == (vx as int, vy as int));
        }
        i = i + 1;
    }
    Vec2I { x: vx, y: vy }
}

} // verus!
