use pong::arena::WallLocation;
use pong::arena::spawn_ball;
use pong::arena::spawn_enemy_paddle;
use pong::arena::spawn_player_paddle;
use pong::collision::ColliderInfo;
use pong::collision::handle_collision;
use pong::collision::scale_velocity;
use pong::game::GameState;
use pong::game::initial_state;
use pong::game::reset_ball;
use pong::game::tick;
use pong::geometry::Aabb;
use pong::geometry::Circle;
use pong::geometry::Vec2I;
use pong::motion::PaddleInput;
use pong::motion::move_ball;
use pong::motion::move_enemy_paddle;
use pong::motion::move_player_paddle;

const NO_KEYS: PaddleInput = PaddleInput { up: false, down: false };

fn standard_colliders(player_y: i64, enemy_y: i64) -> Vec<ColliderInfo> {
    let (player, ppos) = spawn_player_paddle();
    let (enemy, epos) = spawn_enemy_paddle();
    vec![
        ColliderInfo { rect: WallLocation::Bottom.aabb(), is_paddle: false },
        ColliderInfo { rect: WallLocation::Top.aabb(), is_paddle: false },
        ColliderInfo {
            rect: player.aabb(Vec2I { x: ppos.x, y: player_y }),
            is_paddle: true,
        },
        ColliderInfo {
            rect: enemy.aabb(Vec2I { x: epos.x, y: enemy_y }),
            is_paddle: true,
        },
    ]
}

#[test]
fn wall_geometry() {
    assert_eq!(WallLocation::Top.position(), Vec2I { x: 0, y: 300_000 });
    assert_eq!(WallLocation::Bottom.position(), Vec2I { x: 0, y: -300_000 });
    assert_eq!(WallLocation::Top.size(), Vec2I { x: 820_000, y: 20_000 });
    let a = WallLocation::Bottom.aabb();
    assert_eq!(a.center, Vec2I { x: 0, y: -300_000 });
    assert_eq!(a.half, Vec2I { x: 410_000, y: 10_000 });
}

#[test]
fn spawn_values() {
    let ball = spawn_ball();
    assert_eq!(ball.velocity, Vec2I { x: 2_500, y: 1_000 });
    assert_eq!(ball.radius, 5_000);
    let (player, ppos) = spawn_player_paddle();
    assert_eq!((player.width, player.height, player.velocity), (10_000, 80_000, 3_000));
    assert_eq!(ppos, Vec2I { x: 385_000, y: 0 });
    let (_, epos) = spawn_enemy_paddle();
    assert_eq!(epos, Vec2I { x: -385_000, y: 0 });
}

#[test]
fn scale_velocity_exact_values() {
    assert_eq!(scale_velocity(2_500, 1_100), 2_750);
    assert_eq!(scale_velocity(1_000, 1_115), 1_115);
    assert_eq!(scale_velocity(-2_500, 1_100), -2_750);
    // Rounding is toward zero on both signs.
    assert_eq!(scale_velocity(999, 1_100), 1_098);
    assert_eq!(scale_velocity(-999, 1_115), -1_113);
    assert_eq!(scale_velocity(0, 1_115), 0);
}

#[test]
fn scale_velocity_at_its_limit() {
    assert_eq!(
        scale_velocity(4_000_000_000_000_000, 1_100),
        4_400_000_000_000_000
    );
    assert_eq!(
        scale_velocity(-4_000_000_000_000_000, 1_115),
        -4_460_000_000_000_000
    );
}

#[test]
fn move_ball_adds_velocity() {
    let p = move_ball(Vec2I { x: 10, y: -20 }, Vec2I { x: 2_500, y: 1_000 });
    assert_eq!(p, Vec2I { x: 2_510, y: 980 });
}

#[test]
fn player_paddle_moves_and_stops_at_bound() {
    let down = PaddleInput { up: false, down: true };
    let up = PaddleInput { up: true, down: false };
    let both = PaddleInput { up: true, down: true };
    assert_eq!(move_player_paddle(0, 3_000, down), -3_000);
    assert_eq!(move_player_paddle(0, 3_000, up), 3_000);
    assert_eq!(move_player_paddle(0, 3_000, NO_KEYS), 0);
    // Both keys cancel out away from the bounds.
    assert_eq!(move_player_paddle(7, 3_000, both), 7);
    // At the bound the outward key no longer moves the paddle.
    assert_eq!(move_player_paddle(260_000, 3_000, up), 260_000);
    assert_eq!(move_player_paddle(-260_000, 3_000, down), -260_000);
    // Just inside, it may overshoot by less than one step.
    assert_eq!(move_player_paddle(259_999, 3_000, up), 262_999);
}

#[test]
fn player_paddle_never_exceeds_playfield_however_long_held() {
    let up = PaddleInput { up: true, down: false };
    let mut y: i64 = 0;
    for _ in 0..1_000 {
        y = move_player_paddle(y, 3_000, up);
        assert!(y < 300_000);
    }
    assert_eq!(y, 261_000);

    let down = PaddleInput { up: false, down: true };
    for _ in 0..2_000 {
        y = move_player_paddle(y, 3_000, down);
        assert!(-300_000 < y);
    }
    assert_eq!(y, -261_000);
}

#[test]
fn enemy_paddle_steps_toward_ball() {
    assert_eq!(move_enemy_paddle(10_000, 3_000, 0), 7_000);
    assert_eq!(move_enemy_paddle(-10_000, 3_000, 0), -7_000);
    assert_eq!(move_enemy_paddle(5_000, 3_000, 5_000), 5_000);
    // It clamps at the playfield band.
    assert_eq!(move_enemy_paddle(259_000, 3_000, 270_000), 260_000);
    assert_eq!(move_enemy_paddle(-259_000, 3_000, -270_000), -260_000);
}

#[test]
fn enemy_paddle_converges_to_the_ball() {
    let ball_y: i64 = 100_000;
    let mut y: i64 = -200_000;
    let mut dist: i64 = (ball_y - y).abs();
    for _ in 0..100 {
        y = move_enemy_paddle(y, 3_000, ball_y);
        let new_dist = (ball_y - y).abs();
        assert!(new_dist <= dist.max(3_000));
        dist = new_dist;
    }
    assert!(dist < 3_000);
    assert_eq!(y, 100_000);
}

#[test]
fn reset_recenter_on_either_side() {
    let vel = Vec2I { x: -7_777, y: 3_333 };
    let (p, v) = reset_ball(Vec2I { x: 400_000, y: 123_456 }, vel);
    assert_eq!(p, Vec2I { x: 0, y: 0 });
    assert_eq!(v, Vec2I { x: 2_500, y: 1_000 });
    let (p2, v2) = reset_ball(Vec2I { x: -400_000, y: -1 }, vel);
    assert_eq!(p2, Vec2I { x: 0, y: 0 });
    assert_eq!(v2, Vec2I { x: 2_500, y: 1_000 });
}

#[test]
fn reset_leaves_inside_ball_alone() {
    let vel = Vec2I { x: -7_777, y: 3_333 };
    let (p, v) = reset_ball(Vec2I { x: 399_999, y: 123_456 }, vel);
    assert_eq!(p, Vec2I { x: 399_999, y: 123_456 });
    assert_eq!(v, vel);
}

#[test]
fn collision_pass_leaves_free_ball_alone() {
    let colliders = standard_colliders(0, 0);
    let ball = Circle { center: Vec2I { x: 0, y: 0 }, radius: 5_000 };
    let v = handle_collision(Vec2I { x: 2_500, y: 1_000 }, ball, &colliders);
    assert_eq!(v, Vec2I { x: 2_500, y: 1_000 });
}

#[test]
fn wall_hit_reflects_vertically_without_speedup() {
    let colliders = standard_colliders(0, 0);
    let ball = Circle { center: Vec2I { x: 0, y: 286_000 }, radius: 5_000 };
    let v = handle_collision(Vec2I { x: 2_500, y: 1_000 }, ball, &colliders);
    assert_eq!(v, Vec2I { x: 2_500, y: -1_000 });
}

#[test]
fn paddle_hit_reverses_horizontal_sign_once_and_speeds_up() {
    let colliders = standard_colliders(0, 0);
    // Rightward ball touching the player paddle's left face.
    let ball = Circle { center: Vec2I { x: 376_000, y: 0 }, radius: 5_000 };
    let v = handle_collision(Vec2I { x: 2_500, y: 1_000 }, ball, &colliders);
    assert_eq!(v, Vec2I { x: -2_750, y: 1_115 });
}

#[test]
fn overlapping_colliders_respond_in_order() {
    let (player, _) = spawn_player_paddle();
    let rect = player.aabb(Vec2I { x: 385_000, y: 0 });
    let twice = vec![
        ColliderInfo { rect, is_paddle: true },
        ColliderInfo { rect, is_paddle: true },
    ];
    let ball = Circle { center: Vec2I { x: 376_000, y: 0 }, radius: 5_000 };
    let v = handle_collision(Vec2I { x: 2_500, y: 1_000 }, ball, &twice);
    // First response: (-2750, 1115); second: scale then flip again.
    assert_eq!(v, Vec2I { x: 3_025, y: 1_243 });
}

#[test]
fn empty_collider_list_changes_nothing() {
    let none: Vec<ColliderInfo> = Vec::new();
    let ball = Circle { center: Vec2I { x: 0, y: 0 }, radius: 5_000 };
    let v = handle_collision(Vec2I { x: 42, y: -42 }, ball, &none);
    assert_eq!(v, Vec2I { x: 42, y: -42 });
}

#[test]
fn first_tick_from_the_initial_state() {
    let s = initial_state();
    assert!(s.check_wf());
    let t = tick(&s, NO_KEYS);
    // The ball moved by its velocity and touched nothing.
    assert_eq!(t.ball_pos, Vec2I { x: 2_500, y: 1_000 });
    assert_eq!(t.ball.velocity, Vec2I { x: 2_500, y: 1_000 });
    // No input: the player stayed; the enemy stepped toward the ball.
    assert_eq!(t.player_pos, Vec2I { x: 385_000, y: 0 });
    assert_eq!(t.enemy_pos, Vec2I { x: -385_000, y: 3_000 });
    assert!(t.check_wf());
}

#[test]
fn tick_resets_ball_that_left_the_playfield() {
    let mut s = initial_state();
    s.ball_pos = Vec2I { x: 399_000, y: 50_000 };
    let t = tick(&s, NO_KEYS);
    assert_eq!(t.ball_pos, Vec2I { x: 0, y: 0 });
    assert_eq!(t.ball.velocity, Vec2I { x: 2_500, y: 1_000 });
}

#[test]
fn check_wf_rejects_oversized_values() {
    let mut s = initial_state();
    assert!(s.check_wf());
    s.ball_pos = Vec2I { x: 500_000_000, y: 0 };
    assert!(!s.check_wf());
    let mut s2 = initial_state();
    s2.ball.radius = -1;
    assert!(!s2.check_wf());
}

#[test]
fn many_ticks_stay_well_formed() {
    let mut s = initial_state();
    let up = PaddleInput { up: true, down: false };
    for i in 0..600 {
        assert!(s.check_wf());
        let input = if i % 2 == 0 { up } else { NO_KEYS };
        s = tick(&s, input);
        assert!(s.player_pos.y.abs() < 300_000);
        assert!(s.enemy_pos.y.abs() <= 260_000);
    }
}

#[test]
fn states_compare_by_fields() {
    let a = initial_state();
    let b = initial_state();
    assert_eq!(a, b);
    let c = GameState { ball_pos: Vec2I { x: 1, y: 0 }, ..b };
    assert_ne!(a, c);
}
