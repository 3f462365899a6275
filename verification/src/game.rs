//! The whole game state and one fixed-timestep tick: movement, then
//! collision, then reset, in that order.

use vstd::prelude::*;
use crate::arena::Ball;
use crate::arena::INITIAL_BALL_VELOCITY_X;
use crate::arena::INITIAL_BALL_VELOCITY_Y;
use crate::arena::MAX_WIDTH;
use crate::arena::Paddle;
use crate::arena::WallLocation;
use crate::arena::paddle_aabb_spec;
use crate::arena::spawn_ball;
use crate::arena::spawn_enemy_paddle;
use crate::arena::spawn_player_paddle;
use crate::arena::wall_aabb_spec;
use crate::collision::ColliderInfo;
use crate::collision::handle_collision;
use crate::collision::vel_after_colliders;
use crate::geometry::Circle;
use crate::geometry::Vec2I;
use crate::motion::PaddleInput;
use crate::motion::enemy_step_spec;
use crate::motion::move_ball;
use crate::motion::move_ball_spec;
use crate::motion::move_enemy_paddle;
use crate::motion::move_player_paddle;
use crate::motion::player_step_spec;

verus! {

/// Largest ball position magnitude a well-formed state allows.
pub const POS_LIMIT: i64 = 400_000_000;

/// Largest ball velocity magnitude a well-formed state allows.
pub const STATE_VEL_LIMIT: i64 = 100_000_000;

/// Largest paddle dimension (and ball radius) a well-formed state allows.
pub const DIM_LIMIT: i64 = 1_000_000;

/// Largest paddle speed a well-formed state allows.
pub const SPEED_LIMIT: i64 = 100_000;

/// Everything one tick reads and writes: the single ball, and the player
/// and enemy paddles with their positions.
#[derive(Clone, Copy, PartialEq, Eq, Structural, Debug)]
pub struct GameState {
    pub ball: Ball,
    pub ball_pos: Vec2I,
    pub player: Paddle,
    pub player_pos: Vec2I,
    pub enemy: Paddle,
    pub enemy_pos: Vec2I,
}

impl GameState {
    /// Machine bounds on a state: every quantity is far below the range
    /// where the fixed-point arithmetic of a tick could overflow.
    pub open spec fn wf(self) -> bool {
        &&& 0 <= self.ball.radius <= DIM_LIMIT
        &&& -POS_LIMIT <= self.ball_pos.x <= POS_LIMIT
        &&& -POS_LIMIT <= self.ball_pos.y <= POS_LIMIT
        &&& -STATE_VEL_LIMIT <= self.ball.velocity.x <= STATE_VEL_LIMIT
        &&& -STATE_VEL_LIMIT <= self.ball.velocity.y <= STATE_VEL_LIMIT
        &&& 0 <= self.player.width <= DIM_LIMIT
        &&& 0 <= self.player.height <= DIM_LIMIT
        &&& 0 <= self.player.velocity <= SPEED_LIMIT
        &&& 0 <= self.enemy.width <= DIM_LIMIT
        &&& 0 <= self.enemy.height <= DIM_LIMIT
        &&& 0 <= self.enemy.velocity <= SPEED_LIMIT
        &&& -DIM_LIMIT <= self.player_pos.x <= DIM_LIMIT
        &&& -DIM_LIMIT <= self.player_pos.y <= DIM_LIMIT
        &&& -DIM_LIMIT <= self.enemy_pos.x <= DIM_LIMIT
        &&& -DIM_LIMIT <= self.enemy_pos.y <= DIM_LIMIT
    }

    /// Runtime test for `wf`, so an unverified caller can guard a `tick`.
    pub fn check_wf(&self) -> (b: bool)
        ensures
            b == self.wf(),
    {
        0 <= self.ball.radius && self.ball.radius <= DIM_LIMIT && -POS_LIMIT <= self.ball_pos.x
            && self.ball_pos.x <= POS_LIMIT && -POS_LIMIT <= self.ball_pos.y && self.ball_pos.y
            <= POS_LIMIT && -STATE_VEL_LIMIT <= self.ball.velocity.x && self.ball.velocity.x
            <= STATE_VEL_LIMIT && -STATE_VEL_LIMIT <= self.ball.velocity.y && self.ball.velocity.y
            <= STATE_VEL_LIMIT && 0 <= self.player.width && self.player.width <= DIM_LIMIT && 0
            <= self.player.height && self.player.height <= DIM_LIMIT && 0 <= self.player.velocity
            && self.player.velocity <= SPEED_LIMIT && 0 <= self.enemy.width && self.enemy.width
            <= DIM_LIMIT && 0 <= self.enemy.height && self.enemy.height <= DIM_LIMIT && 0
            <= self.enemy.velocity && self.enemy.velocity <= SPEED_LIMIT && -DIM_LIMIT
            <= self.player_pos.x && self.player_pos.x <= DIM_LIMIT && -DIM_LIMIT
            <= self.player_pos.y && self.player_pos.y <= DIM_LIMIT && -DIM_LIMIT
            <= self.enemy_pos.x && self.enemy_pos.x <= DIM_LIMIT && -DIM_LIMIT
            <= self.enemy_pos.y && self.enemy_pos.y <= DIM_LIMIT
    }
}

/// The collider set one tick tests the ball against: both walls, then the
/// player's paddle, then the enemy's paddle.
pub open spec fn colliders_spec(s: GameState) -> Seq<ColliderInfo> {
    seq![
        ColliderInfo { rect: wall_aabb_spec(WallLocation::Bottom), is_paddle: false },
        ColliderInfo { rect: wall_aabb_spec(WallLocation::Top), is_paddle: false },
        ColliderInfo { rect: paddle_aabb_spec(s.player, s.player_pos), is_paddle: true },
        ColliderInfo { rect: paddle_aabb_spec(s.enemy, s.enemy_pos), is_paddle: true },
    ]
}

/// Where the reset leaves the ball: out beyond `+-MAX_WIDTH` horizontally,
/// it is recentered with the initial velocity; otherwise it is untouched.
pub open spec fn reset_ball_spec(pos: Vec2I, vel: Vec2I) -> (Vec2I, Vec2I) {
    if pos.x >= MAX_WIDTH || pos.x <= -MAX_WIDTH {
        (
            Vec2I { x: 0, y: 0 },
            Vec2I { x: INITIAL_BALL_VELOCITY_X, y: INITIAL_BALL_VELOCITY_Y },
        )
    } else {
        (pos, vel)
    }
}

/// Recenter the ball and restore its initial velocity once it has left the
/// playfield horizontally; leave it alone otherwise.
pub fn reset_ball(pos: Vec2I, vel: Vec2I) -> (r: (Vec2I, Vec2I))
    ensures
        r == reset_ball_spec(pos, vel),
        (pos.x >= MAX_WIDTH || pos.x <= -MAX_WIDTH) ==> r.0 == (Vec2I { x: 0, y: 0 }) && r.1 == (
        Vec2I { x: INITIAL_BALL_VELOCITY_X, y: INITIAL_BALL_VELOCITY_Y }),
        (-MAX_WIDTH < pos.x < MAX_WIDTH) ==> r == (pos, vel),
{
    if pos.x >= MAX_WIDTH || pos.x <= -MAX_WIDTH {
        (
            Vec2I { x: 0, y: 0 },
            Vec2I { x: INITIAL_BALL_VELOCITY_X, y: INITIAL_BALL_VELOCITY_Y },
        )
    } else {
        (pos, vel)
    }
}

/// One whole tick: the ball and both paddles move, the ball's velocity is
/// rewritten by every collision, and finally the reset rule is applied to
/// the moved ball.
pub open spec fn tick_spec(s: GameState, input: PaddleInput) -> GameState {
    let pos1 = move_ball_spec(s.ball_pos, s.ball.velocity);
    let py = player_step_spec(s.player_pos.y as int, s.player.velocity as int, input) as i64;
    let ey = enemy_step_spec(s.enemy_pos.y as int, s.enemy.velocity as int, pos1.y as int) as i64;
    let moved = GameState {
        ball: s.ball,
        ball_pos: pos1,
        player: s.player,
        player_pos: Vec2I { x: s.player_pos.x, y: py },
        enemy: s.enemy,
        enemy_pos: Vec2I { x: s.enemy_pos.x, y: ey },
    };
    let v = vel_after_colliders(
        s.ball.velocity.x as int,
        s.ball.velocity.y as int,
        Circle { center: pos1, radius: s.ball.radius },
        colliders_spec(moved),
    );
    let rb = reset_ball_spec(pos1, Vec2I { x: v.0 as i64, y: v.1 as i64 });
    GameState {
        ball: Ball { velocity: rb.1, radius: s.ball.radius },
        ball_pos: rb.0,
        player: s.player,
        player_pos: moved.player_pos,
        enemy: s.enemy,
        enemy_pos: moved.enemy_pos,
    }
}

/// Run one tick on a well-formed state.
pub fn tick(s: &GameState, input: PaddleInput) -> (r: GameState)
    requires
        s.wf(),
    ensures
        r == tick_spec(*s, input),
{
    let pos1: Vec2I = move_ball(s.ball_pos, s.ball.velocity);
    let py: i64 = move_player_paddle(s.player_pos.y, s.player.velocity, input);
    let ey: i64 = move_enemy_paddle(s.enemy_pos.y, s.enemy.velocity, pos1.y);
    let player_pos: Vec2I = Vec2I { x: s.player_pos.x, y: py };
    let enemy_pos: Vec2I = Vec2I { x: s.enemy_pos.x, y: ey };
    let ghost moved = GameState {
        ball: s.ball,
        ball_pos: pos1,
        player: s.player,
        player_pos: player_pos,
        enemy: s.enemy,
        enemy_pos: enemy_pos,
    };
    let mut colliders: Vec<ColliderInfo> = Vec::new();
    colliders.push(ColliderInfo { rect: WallLocation::Bottom.aabb(), is_paddle: false });
    colliders.push(ColliderInfo { rect: WallLocation::Top.aabb(), is_paddle: false });
    colliders.push(ColliderInfo { rect: s.player.aabb(player_pos), is_paddle: true });
    colliders.push(ColliderInfo { rect: s.enemy.aabb(enemy_pos), is_paddle: true });
    proof {
        assert(colliders@ =~= colliders_spec(moved));
        assert forall|j: int| 0 <= j < colliders@.len() implies crate::geometry::wf_aabb(
            colliders@[j].rect,
        ) by {
        }
    }
    let ball_circle: Circle = Circle { center: pos1, radius: s.ball.radius };
    let nv: Vec2I = handle_collision(s.ball.velocity, ball_circle, &colliders);
    let rb: (Vec2I, Vec2I) = reset_ball(pos1, nv);
    GameState {
        ball: Ball { velocity: rb.1, radius: s.ball.radius },
        ball_pos: rb.0,
        player: s.player,
        player_pos: player_pos,
        enemy: s.enemy,
        enemy_pos: enemy_pos,
    }
}

/// The state the game starts from: ball at the center with its initial
/// velocity, paddles at their spawn positions.
pub open spec fn initial_state_spec() -> GameState {
    GameState {
        ball: crate::arena::initial_ball_spec(),
        ball_pos: Vec2I { x: 0, y: 0 },
        player: crate::arena::standard_paddle_spec(),
        player_pos: crate::arena::player_spawn_spec(crate::arena::standard_paddle_spec()),
        enemy: crate::arena::standard_paddle_spec(),
        enemy_pos: crate::arena::enemy_spawn_spec(crate::arena::standard_paddle_spec()),
    }
}

/// Build the starting state; it is well formed.
pub fn initial_state() -> (s: GameState)
    ensures
        s == initial_state_spec(),
        s.wf(),
{
    let ball: Ball = spawn_ball();
    let (player, player_pos) = spawn_player_paddle();
    let (enemy, enemy_pos) = spawn_enemy_paddle();
    GameState {
        ball: ball,
        ball_pos: Vec2I { x: 0, y: 0 },
        player: player,
        player_pos: player_pos,
        enemy: enemy,
        enemy_pos: enemy_pos,
    }
}

} // verus!
