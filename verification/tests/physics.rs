use platformer_core::fixed::{Fx, Vec2};
use platformer_core::hitbox::Hitbox;
use platformer_core::physics::{PhysicalBody, AIR_DRAG_RAW, GROUND_DRAG_RAW};
use platformer_core::utility::XDirection;

fn body_at(x: i32, y: i32) -> PhysicalBody {
    PhysicalBody::new(Fx { raw: 1024 }, Hitbox::new(x, y, 48, 64))
}

/// Gravity accumulates only while airborne: one tick from rest adds
/// exactly mass * gravity to the vertical speed.
#[test]
fn gravity_accumulates_in_the_air() {
    let mut body = body_at(0, 0);
    assert!(!body.grounded);
    body.accelerate(Vec2::zero());
    assert_eq!(body.physics.speed.x.raw, 0);
    assert_eq!(body.physics.speed.y.raw, 1024);

    let mut grounded = body_at(0, 0);
    grounded.grounded = true;
    grounded.accelerate(Vec2::zero());
    assert_eq!(grounded.physics.speed.y.raw, 0);
}

/// Drag takes a fixed fraction of current speed: airborne both axes lose
/// the air fraction, grounded the horizontal axis loses the ground
/// fraction on top.
#[test]
fn drag_is_a_fraction_of_current_speed() {
    let mut body = body_at(0, 0);
    body.grounded = true;
    body.physics.speed = Vec2 {
        x: Fx { raw: 10240 },
        y: Fx { raw: 0 },
    };
    body.accelerate(Vec2::zero());
    // 10240 * (46 + 102) / 1024 = 1480 drag.
    assert_eq!(AIR_DRAG_RAW + GROUND_DRAG_RAW, 148);
    assert_eq!(body.physics.speed.x.raw, 10240 - 1480);

    let mut airborne = body_at(0, 0);
    airborne.physics.speed = Vec2 {
        x: Fx { raw: 10240 },
        y: Fx { raw: 0 },
    };
    airborne.accelerate(Vec2::zero());
    // 10240 * 46 / 1024 = 460 drag, plus gravity on y.
    assert_eq!(airborne.physics.speed.x.raw, 10240 - 460);
    assert_eq!(airborne.physics.speed.y.raw, 1024);
}

/// External acceleration adds on top of gravity and drag.
#[test]
fn acceleration_adds_to_velocity() {
    let mut body = body_at(0, 0);
    body.accelerate(Vec2 {
        x: Fx { raw: 2048 },
        y: Fx { raw: -512 },
    });
    assert_eq!(body.physics.speed.x.raw, 2048);
    assert_eq!(body.physics.speed.y.raw, -512 + 1024);
}

#[test]
fn stops_zero_one_axis_only() {
    let mut body = body_at(0, 0);
    body.physics.speed = Vec2 {
        x: Fx { raw: 5 },
        y: Fx { raw: 7 },
    };
    body.stop_x();
    assert_eq!(body.physics.speed.x.raw, 0);
    assert_eq!(body.physics.speed.y.raw, 7);
    body.stop_y();
    assert_eq!(body.physics.speed.y.raw, 0);
}

#[test]
fn clear_speed_zeroes_only_below_threshold() {
    let mut body = body_at(0, 0);
    body.physics.speed = Vec2 {
        x: Fx { raw: 204 },
        y: Fx { raw: 205 },
    };
    body.clear_speed();
    assert_eq!(body.physics.speed.x.raw, 0);
    assert_eq!(body.physics.speed.y.raw, 205);
}

#[test]
fn stillness_is_below_one_pixel_per_tick() {
    let mut body = body_at(0, 0);
    body.physics.speed = Vec2 {
        x: Fx { raw: 1023 },
        y: Fx { raw: -1023 },
    };
    assert!(body.is_still_x());
    assert!(body.is_still_y());
    assert!(body.is_still());
    body.physics.speed.x = Fx { raw: 1024 };
    assert!(!body.is_still_x());
    assert!(!body.is_still());
}

#[test]
fn movement_helpers_translate_hitbox() {
    let mut body = body_at(100, 200);
    body.move_by((3, -4));
    assert_eq!(body.position(), (103, 196));
    body.move_by_vec((-3, 4));
    assert_eq!(body.position(), (100, 200));

    body.physics.speed = Vec2 {
        x: Fx { raw: 2560 },
        y: Fx { raw: -2560 },
    };
    body.apply_movement_unchecked();
    // 2560 rounds to 3 pixels, halves away from zero.
    assert_eq!(body.position(), (103, 197));
}

#[test]
fn out_of_bounds_only_outside_level() {
    let inside = body_at(100, 100);
    assert!(!inside.out_of_bounds());
    let outside = body_at(-1000, 100);
    assert!(outside.out_of_bounds());
    let below = body_at(100, 2000);
    assert!(below.out_of_bounds());
}

#[test]
fn new_body_faces_still() {
    let body = body_at(0, 0);
    assert_eq!(body.x_direction(), XDirection::Still);
    assert_eq!(body.speed().x.raw, 0);
    assert_eq!(body.speed_x().raw, 0);
    assert_eq!(body.speed_y().raw, 0);
}
