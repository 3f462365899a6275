//! Game-level laws: what the collision and reset rules guarantee for the
//! standard collider set.

use vstd::prelude::*;
use crate::arena::BOTTOM_WALL;
use crate::arena::INITIAL_BALL_VELOCITY_X;
use crate::arena::INITIAL_BALL_VELOCITY_Y;
use crate::arena::MAX_WIDTH;
use crate::arena::TOP_WALL;
use crate::arena::WALL_THICKNESS;
use crate::collision::ColliderInfo;
use crate::collision::lemma_scale_bounds;
use crate::collision::response_spec;
use crate::collision::vel_after_colliders;
use crate::game::GameState;
use crate::game::colliders_spec;
use crate::game::tick_spec;
use crate::geometry::Circle;
use crate::geometry::Collision;
use crate::geometry::Vec2I;
use crate::geometry::abs_spec;
use crate::geometry::collide_spec;
use crate::geometry::intersects_spec;
use crate::geometry::lemma_clearance_no_collision;
use crate::motion::PaddleInput;

verus! {

/// A ball strictly inside the arena reports no collision: its circle stays
/// clear of both walls and of both paddle columns, so every collider of
/// the standard set answers `None`, wherever the paddles stand.
pub proof fn lemma_inside_arena_no_collision(s: GameState, c: Circle)
    requires
        s.wf(),
        0 <= c.radius,
        BOTTOM_WALL + WALL_THICKNESS / 2 < c.center.y - c.radius,
        c.center.y + c.radius < TOP_WALL - WALL_THICKNESS / 2,
        c.center.x + c.radius < s.player_pos.x - s.player.width / 2,
        s.enemy_pos.x + s.enemy.width / 2 < c.center.x - c.radius,
    ensures
        forall|j: int|
            0 <= j < colliders_spec(s).len() ==> collide_spec(c, colliders_spec(s)[j].rect)
                is None,
{
    let cs = colliders_spec(s);
    lemma_clearance_no_collision(c, cs[0].rect);
    lemma_clearance_no_collision(c, cs[1].rect);
    lemma_clearance_no_collision(c, cs[2].rect);
    lemma_clearance_no_collision(c, cs[3].rect);
    assert forall|j: int| 0 <= j < cs.len() implies collide_spec(c, cs[j].rect) is None by {
    }
}

/// A ball strictly inside the arena leaves the whole collision pass with
/// its velocity unchanged.
pub proof fn lemma_inside_arena_keeps_velocity(s: GameState, c: Circle, vx: int, vy: int)
    requires
        s.wf(),
        0 <= c.radius,
        BOTTOM_WALL + WALL_THICKNESS / 2 < c.center.y - c.radius,
        c.center.y + c.radius < TOP_WALL - WALL_THICKNESS / 2,
        c.center.x + c.radius < s.player_pos.x - s.player.width / 2,
        s.enemy_pos.x + s.enemy.width / 2 < c.center.x - c.radius,
    ensures
        vel_after_colliders(vx, vy, c, colliders_spec(s)) == (vx, vy),
{
    lemma_inside_arena_no_collision(s, c);
    crate::collision::lemma_no_hits_identity(vx, vy, c, colliders_spec(s));
}

/// A ball moving rightward that touches a collider from the left reverses
/// its horizontal velocity sign exactly once: the collision is classified
/// `Left`, one pass over that collider applies one response, the response
/// makes the horizontal velocity negative, and the vertical sign is kept.
pub proof fn lemma_rightward_touch_reverses_vx(c: Circle, ci: ColliderInfo, vx: int, vy: int)
    requires
        0 <= ci.rect.half.x,
        0 <= ci.rect.half.y,
        0 <= c.radius,
        c.center.x < ci.rect.center.x - ci.rect.half.x,
        ci.rect.center.y - ci.rect.half.y <= c.center.y <= ci.rect.center.y + ci.rect.half.y,
        intersects_spec(c, ci.rect),
        0 < vx,
    ensures
        collide_spec(c, ci.rect) == Some(Collision::Left),
        vel_after_colliders(vx, vy, c, seq![ci]) == response_spec(
            vx,
            vy,
            Collision::Left,
            ci.is_paddle,
        ),
        response_spec(vx, vy, Collision::Left, ci.is_paddle).0 < 0,
        vy > 0 ==> response_spec(vx, vy, Collision::Left, ci.is_paddle).1 > 0,
        vy < 0 ==> response_spec(vx, vy, Collision::Left, ci.is_paddle).1 < 0,
        vy == 0 ==> response_spec(vx, vy, Collision::Left, ci.is_paddle).1 == 0,
{
    lemma_scale_bounds(vx, crate::collision::SPEEDUP_NUM_X as int, vx);
    lemma_scale_bounds(vy, crate::collision::SPEEDUP_NUM_Y as int, abs_spec(vy));
    let cs1 = seq![ci];
    let st = crate::collision::step_collider_spec(vx, vy, c, ci);
    assert(st == response_spec(vx, vy, Collision::Left, ci.is_paddle));
    assert(cs1.subrange(1, 1).len() == 0);
    assert(vel_after_colliders(st.0, st.1, c, cs1.subrange(1, 1)) == (st.0, st.1));
    assert(vel_after_colliders(vx, vy, c, cs1) == vel_after_colliders(
        st.0,
        st.1,
        c,
        cs1.subrange(1, 1),
    ));
}

/// The game-level bounce: a rightward ball that touches the player's
/// paddle from the left — and nothing else — leaves the whole collision
/// pass over the standard collider set with its horizontal velocity sign
/// reversed exactly once, and its vertical sign kept.
pub proof fn lemma_rightward_ball_bounces_off_player(s: GameState, c: Circle, vx: int, vy: int)
    requires
        s.wf(),
        0 <= c.radius,
        BOTTOM_WALL + WALL_THICKNESS / 2 < c.center.y - c.radius,
        c.center.y + c.radius < TOP_WALL - WALL_THICKNESS / 2,
        s.enemy_pos.x + s.enemy.width / 2 < c.center.x - c.radius,
        c.center.x < s.player_pos.x - s.player.width / 2,
        s.player_pos.y - s.player.height / 2 <= c.center.y <= s.player_pos.y + s.player.height
            / 2,
        intersects_spec(c, crate::arena::paddle_aabb_spec(s.player, s.player_pos)),
        0 < vx,
    ensures
        vel_after_colliders(vx, vy, c, colliders_spec(s)) == response_spec(
            vx,
            vy,
            Collision::Left,
            true,
        ),
        vel_after_colliders(vx, vy, c, colliders_spec(s)).0 < 0,
        vy > 0 ==> vel_after_colliders(vx, vy, c, colliders_spec(s)).1 > 0,
        vy < 0 ==> vel_after_colliders(vx, vy, c, colliders_spec(s)).1 < 0,
        vy == 0 ==> vel_after_colliders(vx, vy, c, colliders_spec(s)).1 == 0,
{
    let cs = colliders_spec(s);
    lemma_clearance_no_collision(c, cs[0].rect);
    lemma_clearance_no_collision(c, cs[1].rect);
    lemma_clearance_no_collision(c, cs[3].rect);
    lemma_rightward_touch_reverses_vx(c, cs[2], vx, vy);
    let r = response_spec(vx, vy, Collision::Left, true);
    let cs1 = cs.subrange(1, 4);
    let cs2 = cs.subrange(2, 4);
    let cs3 = cs.subrange(3, 4);
    assert(cs1.subrange(1, 3) =~= cs2);
    assert(cs2.subrange(1, 2) =~= cs3);
    assert(cs3.subrange(1, 1).len() == 0);
    assert(cs3[0] == cs[3]);
    assert(vel_after_colliders(r.0, r.1, c, cs3.subrange(1, 1)) == (r.0, r.1));
    assert(vel_after_colliders(vx, vy, c, cs) == vel_after_colliders(vx, vy, c, cs1));
    assert(vel_after_colliders(vx, vy, c, cs1) == vel_after_colliders(vx, vy, c, cs2));
    assert(vel_after_colliders(vx, vy, c, cs2) == vel_after_colliders(r.0, r.1, c, cs3));
    assert(vel_after_colliders(r.0, r.1, c, cs3) == (r.0, r.1));
}

/// After a horizontal out-of-bounds event — the moved ball ends at or past
/// `+-MAX_WIDTH` — the tick leaves the ball at the center (0, 0) with its
/// initial velocity.
pub proof fn lemma_out_of_bounds_resets(s: GameState, input: PaddleInput)
    requires
        s.wf(),
        (s.ball_pos.x + s.ball.velocity.x >= MAX_WIDTH) || (s.ball_pos.x + s.ball.velocity.x
            <= -MAX_WIDTH),
    ensures
        tick_spec(s, input).ball_pos == (Vec2I { x: 0, y: 0 }),
        tick_spec(s, input).ball.velocity == (Vec2I {
            x: INITIAL_BALL_VELOCITY_X,
            y: INITIAL_BALL_VELOCITY_Y,
        }),
{
}

} // verus!
