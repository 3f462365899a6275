//! Per-tick movement: the ball advances by its velocity, the player's
//! paddle follows the held keys, and the enemy's paddle tracks the ball.
//!
//! Both paddles are kept inside the playfield: a paddle that has reached
//! `+-PADDLE_BOUND` no longer moves further out.

use vstd::prelude::*;
use crate::arena::MAX_HEIGHT;
use crate::arena::PADDLE_BOUND;
use crate::arena::WALL_THICKNESS;
use crate::geometry::Vec2I;
use crate::geometry::abs_spec;
use crate::geometry::clamp_i64;
use crate::geometry::clamp_spec;

verus! {

/// Which direction keys are held during one tick.
#[derive(Clone, Copy, PartialEq, Eq, Structural, Debug)]
pub struct PaddleInput {
    pub up: bool,
    pub down: bool,
}

pub open spec fn move_ball_spec(pos: Vec2I, vel: Vec2I) -> Vec2I {
    Vec2I { x: (pos.x + vel.x) as i64, y: (pos.y + vel.y) as i64 }
}

/// Advance the ball by its velocity.
pub fn move_ball(pos: Vec2I, vel: Vec2I) -> (r: Vec2I)
    requires
        i64::MIN <= pos.x + vel.x <= i64::MAX,
        i64::MIN <= pos.y + vel.y <= i64::MAX,
    ensures
        r == move_ball_spec(pos, vel),
        r.x == pos.x + vel.x,
        r.y == pos.y + vel.y,
{
    Vec2I { x: pos.x + vel.x, y: pos.y + vel.y }
}

pub open spec fn player_step_down(y: int, speed: int, down: bool) -> int {
    if down {
        if y <= -PADDLE_BOUND {
            y
        } else {
            y - speed
        }
    } else {
        y
    }
}

pub open spec fn player_step_up(y: int, speed: int, up: bool) -> int {
    if up {
        if y >= PADDLE_BOUND {
            y
        } else {
            y + speed
        }
    } else {
        y
    }
}

/// One tick of player movement: the down key is applied first, then the up
/// key; a key held at the boundary moves the paddle no further.
pub open spec fn player_step_spec(y: int, speed: int, input: PaddleInput) -> int {
    player_step_up(player_step_down(y, speed, input.down), speed, input.up)
}

/// Move the player's paddle center from `y` by the held keys.
pub fn move_player_paddle(y: i64, speed: i64, input: PaddleInput) -> (r: i64)
    requires
        0 <= speed,
        i64::MIN <= y - speed,
        y + speed <= i64::MAX,
    ensures
        r == player_step_spec(y as int, speed as int, input),
{
    let mut cur: i64 = y;
    if input.down {
        if cur > -PADDLE_BOUND {
            cur = cur - speed;
        }
    }
    if input.up {
        if cur < PADDLE_BOUND {
            cur = cur + speed;
        }
    }
    cur
}

pub open spec fn sign_spec(d: int) -> int {
    if d > 0 {
        1
    } else if d < 0 {
        -1
    } else {
        0
    }
}

/// One tick of enemy movement: step by `speed` toward the ball's vertical
/// position, then clamp into the playfield band.
pub open spec fn enemy_step_spec(y: int, speed: int, ball_y: int) -> int {
    clamp_spec(y + sign_spec(ball_y - y) * speed, -PADDLE_BOUND as int, PADDLE_BOUND as int)
}

/// Move the enemy's paddle center from `y` toward the ball at `ball_y`.
pub fn move_enemy_paddle(y: i64, speed: i64, ball_y: i64) -> (r: i64)
    requires
        0 <= speed,
        i64::MIN <= y - speed,
        y + speed <= i64::MAX,
    ensures
        r == enemy_step_spec(y as int, speed as int, ball_y as int),
{
    let moved: i64 = if ball_y > y {
        y + speed
    } else if ball_y < y {
        y - speed
    } else {
        y
    };
    clamp_i64(moved, -PADDLE_BOUND, PADDLE_BOUND)
}

/// The open band a player paddle's center can never leave: the boundary
/// check plus at most one step of overshoot.
pub open spec fn player_in_band(y: int, speed: int) -> bool {
    -PADDLE_BOUND - speed < y < PADDLE_BOUND + speed
}

/// One tick of player movement keeps the paddle inside its band, whatever
/// keys are held.
pub proof fn lemma_player_step_stays_in_band(y: int, speed: int, input: PaddleInput)
    requires
        0 <= speed,
        player_in_band(y, speed),
    ensures
        player_in_band(player_step_spec(y, speed, input), speed),
{
}

/// The player's paddle center after a whole run of held inputs, one tick each.
pub open spec fn player_after_inputs(y: int, speed: int, inputs: Seq<PaddleInput>) -> int
    decreases inputs.len(),
{
    if inputs.len() == 0 {
        y
    } else {
        player_after_inputs(
            player_step_spec(y, speed, inputs[0]),
            speed,
            inputs.subrange(1, inputs.len() as int),
        )
    }
}

/// The paddle never leaves its band, regardless of how long any combination
/// of keys is held.
pub proof fn lemma_player_never_leaves_band(y: int, speed: int, inputs: Seq<PaddleInput>)
    requires
        0 <= speed,
        player_in_band(y, speed),
    ensures
        player_in_band(player_after_inputs(y, speed, inputs), speed),
    decreases inputs.len(),
{
    if inputs.len() > 0 {
        lemma_player_step_stays_in_band(y, speed, inputs[0]);
        lemma_player_never_leaves_band(
            player_step_spec(y, speed, inputs[0]),
            speed,
            inputs.subrange(1, inputs.len() as int),
        );
    }
}

/// With the standard speeds (at most twice the wall thickness), the band is
/// strictly inside the playfield: the paddle center never reaches
/// `+-MAX_HEIGHT`, however long the keys are held.
pub proof fn lemma_player_never_exceeds_playfield(y: int, speed: int, inputs: Seq<PaddleInput>)
    requires
        0 <= speed <= 2 * WALL_THICKNESS,
        player_in_band(y, speed),
    ensures
        -MAX_HEIGHT < player_after_inputs(y, speed, inputs) < MAX_HEIGHT,
{
    lemma_player_never_leaves_band(y, speed, inputs);
}

/// One tick of enemy movement stays in the clamp band and strictly
/// approaches the ball: a paddle at least `speed` away moves exactly
/// `speed` closer, and one already within `speed` stays within `speed`.
pub proof fn lemma_enemy_step_approaches(y: int, speed: int, ball_y: int)
    requires
        0 < speed,
        -PADDLE_BOUND <= y <= PADDLE_BOUND,
        -PADDLE_BOUND <= ball_y <= PADDLE_BOUND,
    ensures
        -PADDLE_BOUND <= enemy_step_spec(y, speed, ball_y) <= PADDLE_BOUND,
        abs_spec(ball_y - y) >= speed ==> abs_spec(
            ball_y - enemy_step_spec(y, speed, ball_y),
        ) == abs_spec(ball_y - y) - speed,
        abs_spec(ball_y - y) < speed ==> abs_spec(ball_y - enemy_step_spec(y, speed, ball_y))
            < speed,
{
}

/// The enemy's paddle center after `k` ticks with the ball held at `ball_y`.
pub open spec fn enemy_after_ticks(y: int, speed: int, ball_y: int, k: nat) -> int
    decreases k,
{
    if k == 0 {
        y
    } else {
        enemy_after_ticks(enemy_step_spec(y, speed, ball_y), speed, ball_y, (k - 1) as nat)
    }
}

/// A paddle already within one step of the ball never drifts away again.
pub proof fn lemma_enemy_stays_close(y: int, speed: int, ball_y: int, k: nat)
    requires
        0 < speed,
        -PADDLE_BOUND <= y <= PADDLE_BOUND,
        -PADDLE_BOUND <= ball_y <= PADDLE_BOUND,
        abs_spec(ball_y - y) < speed,
    ensures
        -PADDLE_BOUND <= enemy_after_ticks(y, speed, ball_y, k) <= PADDLE_BOUND,
        abs_spec(ball_y - enemy_after_ticks(y, speed, ball_y, k)) < speed,
    decreases k,
{
    if k > 0 {
        lemma_enemy_step_approaches(y, speed, ball_y);
        lemma_enemy_stays_close(enemy_step_spec(y, speed, ball_y), speed, ball_y, (k - 1) as nat);
    }
}

/// Convergence of the enemy paddle: with the ball held at a reachable
/// vertical position, after enough ticks (`k * speed` covering the initial
/// distance) the paddle's center is within one step of the ball, and stays
/// there.
pub proof fn lemma_enemy_converges(y: int, speed: int, ball_y: int, k: nat)
    requires
        0 < speed,
        -PADDLE_BOUND <= y <= PADDLE_BOUND,
        -PADDLE_BOUND <= ball_y <= PADDLE_BOUND,
        abs_spec(ball_y - y) <= k * speed,
    ensures
        abs_spec(ball_y - enemy_after_ticks(y, speed, ball_y, k)) < speed,
    decreases k,
{
    if abs_spec(ball_y - y) < speed {
        lemma_enemy_stays_close(y, speed, ball_y, k);
    } else {
        lemma_enemy_step_approaches(y, speed, ball_y);
        let y1 = enemy_step_spec(y, speed, ball_y);
        assert(k > 0) by (nonlinear_arith)
            requires
                0 < speed,
                abs_spec(ball_y - y) >= speed,
                abs_spec(ball_y - y) <= k * speed,
        ;
        assert((k - 1) * speed == k * speed - speed) by (nonlinear_arith);
        lemma_enemy_converges(y1, speed, ball_y, (k - 1) as nat);
    }
}

} // verus!
