use pong::geometry::Aabb;
use pong::geometry::Circle;
use pong::geometry::Collision;
use pong::geometry::Vec2I;
use pong::geometry::clamp_i64;
use pong::geometry::collide_with_side;

fn top_wall() -> Aabb {
    Aabb {
        center: Vec2I { x: 0, y: 300_000 },
        half: Vec2I { x: 410_000, y: 10_000 },
    }
}

fn bottom_wall() -> Aabb {
    Aabb {
        center: Vec2I { x: 0, y: -300_000 },
        half: Vec2I { x: 410_000, y: 10_000 },
    }
}

#[test]
fn clamp_basics() {
    assert_eq!(clamp_i64(5, 0, 10), 5);
    assert_eq!(clamp_i64(-5, 0, 10), 0);
    assert_eq!(clamp_i64(15, 0, 10), 10);
}

#[test]
fn ball_inside_arena_reports_no_collision() {
    let ball = Circle {
        center: Vec2I { x: 0, y: 0 },
        radius: 5_000,
    };
    assert_eq!(collide_with_side(ball, top_wall()), None);
    assert_eq!(collide_with_side(ball, bottom_wall()), None);
}

#[test]
fn ball_just_clear_of_wall_reports_no_collision() {
    // The circle's edge is one unit short of the top wall's lower face.
    let ball = Circle {
        center: Vec2I { x: 123_000, y: 284_999 },
        radius: 5_000,
    };
    assert_eq!(collide_with_side(ball, top_wall()), None);
}

#[test]
fn ball_touching_top_wall_hits_its_bottom_side() {
    let ball = Circle {
        center: Vec2I { x: 0, y: 286_000 },
        radius: 5_000,
    };
    assert_eq!(collide_with_side(ball, top_wall()), Some(Collision::Bottom));
}

#[test]
fn ball_touching_bottom_wall_hits_its_top_side() {
    let ball = Circle {
        center: Vec2I { x: -50_000, y: -286_000 },
        radius: 5_000,
    };
    assert_eq!(collide_with_side(ball, bottom_wall()), Some(Collision::Top));
}

#[test]
fn ball_left_of_box_hits_its_left_side() {
    let paddle_box = Aabb {
        center: Vec2I { x: 385_000, y: 0 },
        half: Vec2I { x: 5_000, y: 40_000 },
    };
    let ball = Circle {
        center: Vec2I { x: 376_000, y: 10_000 },
        radius: 5_000,
    };
    assert_eq!(collide_with_side(ball, paddle_box), Some(Collision::Left));
}

#[test]
fn ball_right_of_box_hits_its_right_side() {
    let paddle_box = Aabb {
        center: Vec2I { x: -385_000, y: 0 },
        half: Vec2I { x: 5_000, y: 40_000 },
    };
    let ball = Circle {
        center: Vec2I { x: -376_000, y: -10_000 },
        radius: 5_000,
    };
    assert_eq!(collide_with_side(ball, paddle_box), Some(Collision::Right));
}

#[test]
fn wall_overhang_still_collides_beyond_the_playfield() {
    // The walls overhang the playfield horizontally by half their
    // thickness, so a ball past x = 400_000 can still touch one.
    let ball = Circle {
        center: Vec2I { x: 408_000, y: 286_000 },
        radius: 5_000,
    };
    assert_eq!(collide_with_side(ball, top_wall()), Some(Collision::Bottom));
}

#[test]
fn corner_tie_is_won_by_the_horizontal_axis() {
    let square = Aabb {
        center: Vec2I { x: 0, y: 0 },
        half: Vec2I { x: 10_000, y: 10_000 },
    };
    // Offset from the corner is (4000, 4000): a tie, classified Right.
    let ball = Circle {
        center: Vec2I { x: 14_000, y: 14_000 },
        radius: 8_000,
    };
    assert_eq!(collide_with_side(ball, square), Some(Collision::Right));
}

#[test]
fn ball_centered_inside_box_counts_as_right() {
    // The closest point is the center itself: zero offset on both axes,
    // the horizontal axis wins the tie and the sign check picks Right.
    let square = Aabb {
        center: Vec2I { x: 0, y: 0 },
        half: Vec2I { x: 10_000, y: 10_000 },
    };
    let ball = Circle {
        center: Vec2I { x: 0, y: 0 },
        radius: 1_000,
    };
    assert_eq!(collide_with_side(ball, square), Some(Collision::Right));
}
