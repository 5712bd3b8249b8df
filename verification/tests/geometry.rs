use bevy::math::{Vec2, Vec3};
use pong_core::geometry::{collide, Collision, Rect, UNIT};

// (x, y, size x, size y), in whole units
fn rect(x: i64, y: i64, width: i64, height: i64) -> Rect {
    Rect { x: x * UNIT, y: y * UNIT, half_width: width * UNIT / 2, half_height: height * UNIT / 2 }
}

fn collide_two_rectangles(a: (i64, i64, i64, i64), b: (i64, i64, i64, i64)) -> Option<Collision> {
    collide(rect(a.0, a.1, a.2, a.3), rect(b.0, b.1, b.2, b.3))
}

fn engine_collide(a: (i64, i64, i64, i64), b: (i64, i64, i64, i64)) -> Option<Collision> {
    let hit = bevy::sprite::collide_aabb::collide(
        Vec3::new(a.0 as f32, a.1 as f32, 0.),
        Vec2::new(a.2 as f32, a.3 as f32),
        Vec3::new(b.0 as f32, b.1 as f32, 0.),
        Vec2::new(b.2 as f32, b.3 as f32),
    );
    match hit {
        None => None,
        Some(bevy::sprite::collide_aabb::Collision::Left) => Some(Collision::Left),
        Some(bevy::sprite::collide_aabb::Collision::Right) => Some(Collision::Right),
        Some(bevy::sprite::collide_aabb::Collision::Top) => Some(Collision::Top),
        Some(bevy::sprite::collide_aabb::Collision::Bottom) => Some(Collision::Bottom),
        Some(bevy::sprite::collide_aabb::Collision::Inside) => Some(Collision::Inside),
    }
}

#[test]
fn boxes_apart_do_not_collide() {
    assert_eq!(collide_two_rectangles((10, 0, 2, 2), (0, 0, 2, 2)), None);
    assert_eq!(collide_two_rectangles((0, 10, 2, 2), (0, 0, 2, 2)), None);
}

#[test]
fn boxes_that_touch_do_not_collide() {
    // a's left edge lies on b's right edge
    assert_eq!(collide_two_rectangles((2, 0, 2, 2), (0, 0, 2, 2)), None);
    // a's bottom edge lies on b's top edge
    assert_eq!(collide_two_rectangles((0, 2, 2, 2), (0, 0, 2, 2)), None);
}

#[test]
fn inside_collision() {
    // Identical
    assert_eq!(collide_two_rectangles((2, 2, 2, 2), (2, 2, 2, 2)), Some(Collision::Inside));
    // B inside A
    assert_eq!(collide_two_rectangles((2, 2, 4, 4), (2, 2, 2, 2)), Some(Collision::Inside));
    // A inside B
    assert_eq!(collide_two_rectangles((2, 2, 2, 2), (2, 2, 4, 4)), Some(Collision::Inside));
}

#[test]
fn collision_based_on_b() {
    // Right of B
    assert_eq!(collide_two_rectangles((3, 2, 2, 2), (2, 2, 2, 2)), Some(Collision::Right));
    // Left of B
    assert_eq!(collide_two_rectangles((1, 2, 2, 2), (2, 2, 2, 2)), Some(Collision::Left));
    // Top of B
    assert_eq!(collide_two_rectangles((2, 3, 2, 2), (2, 2, 2, 2)), Some(Collision::Top));
    // Bottom of B
    assert_eq!(collide_two_rectangles((2, 1, 2, 2), (2, 2, 2, 2)), Some(Collision::Bottom));
}

#[test]
fn prefer_x_collision() {
    // Bottom-left collision
    assert_eq!(collide_two_rectangles((1, 1, 2, 2), (2, 2, 2, 2)), Some(Collision::Left));
    // Top-left collision
    assert_eq!(collide_two_rectangles((1, 3, 2, 2), (2, 2, 2, 2)), Some(Collision::Left));
    // Bottom-right collision
    assert_eq!(collide_two_rectangles((3, 1, 2, 2), (2, 2, 2, 2)), Some(Collision::Right));
    // Top-right collision
    assert_eq!(collide_two_rectangles((3, 3, 2, 2), (2, 2, 2, 2)), Some(Collision::Right));
}

#[test]
fn collision_depth_wins() {
    // a reaches 2 into b along x and 1 along y
    assert_eq!(collide_two_rectangles((6, 6, 4, 4), (4, 3, 4, 4)), Some(Collision::Top));
    // a reaches 1 into b along x and 2 along y
    assert_eq!(collide_two_rectangles((6, 6, 4, 4), (3, 4, 4, 4)), Some(Collision::Right));
}

#[test]
fn ball_sized_box_against_paddle_sized_box() {
    // ball 30 x 30, paddle 20 x 80 centred at (260, 0)
    let paddle = (260, 0, 20, 80);
    assert_eq!(collide_two_rectangles((240, 0, 30, 30), paddle), Some(Collision::Left));
    assert_eq!(collide_two_rectangles((280, 0, 30, 30), paddle), Some(Collision::Right));
    assert_eq!(collide_two_rectangles((260, 50, 30, 30), paddle), Some(Collision::Top));
    assert_eq!(collide_two_rectangles((260, -50, 30, 30), paddle), Some(Collision::Bottom));
    assert_eq!(collide_two_rectangles((260, 0, 30, 30), paddle), Some(Collision::Inside));
    assert_eq!(collide_two_rectangles((235, 0, 30, 30), paddle), None);
}

#[test]
fn collide_agrees_with_the_engine_on_a_grid() {
    let sizes = [(2, 2), (4, 2), (2, 6), (6, 6)];
    let b = (0, 0, 4, 6);
    let mut compared = 0;
    for (width, height) in sizes {
        for x in -7..=7 {
            for y in -8..=8 {
                let a = (x, y, width, height);
                assert_eq!(collide_two_rectangles(a, b), engine_collide(a, b), "a = {:?}", a);
                compared += 1;
            }
        }
    }
    assert_eq!(compared, 4 * 15 * 17);
}

#[test]
fn collide_agrees_with_the_engine_around_a_paddle() {
    let paddle = (260, 120, 20, 80);
    for x in (220..=300).step_by(5) {
        for y in (50..=190).step_by(5) {
            let ball = (x, y, 30, 30);
            assert_eq!(
                collide_two_rectangles(ball, paddle),
                engine_collide(ball, paddle),
                "ball = {:?}",
                ball
            );
        }
    }
}
