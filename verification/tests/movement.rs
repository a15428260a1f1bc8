use platformer_core::block::{Block, BlockType};
use platformer_core::fixed::{Fx, Vec2};
use platformer_core::hitbox::Hitbox;
use platformer_core::level::{Level, PlayableLevel};
use platformer_core::physics::PhysicalBody;

fn world_with_floor_block() -> PlayableLevel {
    // One solid tile occupying pixel rows [128, 192) in the body's column.
    let mut lvl = Level::new();
    lvl.set_block((0, 2), Block::new(BlockType::SolidBox, None));
    PlayableLevel::from_level(lvl)
}

fn falling_body(x: i32, y: i32, vx: i64, vy: i64) -> PhysicalBody {
    let mut body = PhysicalBody::new(Fx { raw: 1024 }, Hitbox::new(x, y, 64, 64));
    body.physics.speed = Vec2 {
        x: Fx { raw: vx },
        y: Fx { raw: vy },
    };
    body
}

/// A 64x64 body at (0, 0) with velocity (0, 20) over a floor tile at pixel
/// rows [128, 192) comes to rest exactly atop the floor, grounded, with no
/// vertical speed.
#[test]
fn body_settles_on_floor_tile() {
    let mut world = world_with_floor_block();
    let mut body = falling_body(0, 0, 0, 20 * 1024);

    // Three clear ticks of 20 pixels each, then the contact tick.
    for _ in 0..3 {
        body.apply_movement(&mut world, false);
        assert!(!body.grounded);
        assert_eq!(body.physics.speed.y.raw, 20 * 1024);
    }
    assert_eq!(body.hitbox.y, 60);

    body.apply_movement(&mut world, false);
    assert_eq!(body.hitbox.y, 64);
    assert_eq!(body.hitbox.x, 0);
    assert!(body.grounded);
    assert_eq!(body.physics.speed.y.raw, 0);
}

/// The resolved displacement of the contact tick lies between zero and the
/// desired velocity: the body never moves past its target, and never
/// upward when falling.
#[test]
fn resolved_displacement_within_desired_span() {
    let mut world = world_with_floor_block();
    let mut body = falling_body(0, 50, 0, 20 * 1024);

    let y0 = body.hitbox.y;
    body.apply_movement(&mut world, false);
    assert!(body.hitbox.y >= y0);
    assert!(body.hitbox.y <= y0 + 20);
    assert_eq!(body.hitbox.x, 0);
}

/// A body that starts clear of the floor stays clear of it, whatever the
/// tick count; in particular a fast body never ends up inside the tile.
#[test]
fn no_tunneling_into_floor_tile() {
    for vy in [1, 7, 20, 63, 64, 200, 1000] {
        let mut world = world_with_floor_block();
        let mut body = falling_body(0, 0, 0, vy * 1024);
        for _ in 0..6 {
            body.apply_movement(&mut world, false);
            let hb = body.hitbox;
            let tile = Hitbox::new(0, 128, 64, 64);
            assert!(
                !hb.collides(&tile),
                "vy={} left the body at y={} inside the tile",
                vy,
                hb.y
            );
        }
    }
}

/// Moving diagonally down-right along flat ground: the vertical axis is
/// blocked, so vertical speed stops and the body stays grounded, while the
/// horizontal movement completes in full.
#[test]
fn diagonal_movement_slides_along_floor() {
    let lvl = Level::new();
    let mut world = PlayableLevel::from_level(lvl);
    // Standing on the ground row (top of ground is 18 * 64 = 1152).
    let mut body = falling_body(300, 1088, 10 * 1024, 5 * 1024);

    body.apply_movement(&mut world, false);
    assert_eq!(body.hitbox.y, 1088);
    assert_eq!(body.hitbox.x, 310);
    assert!(body.grounded);
    assert_eq!(body.physics.speed.y.raw, 0);
    assert_eq!(body.physics.speed.x.raw, 10 * 1024);
}

/// Running into a wall: horizontal speed is stopped, the body does not
/// enter the wall.
#[test]
fn wall_stops_horizontal_movement() {
    let mut lvl = Level::new();
    // A wall column directly right of the body's resting spot.
    lvl.set_block((3, 17), Block::new(BlockType::SolidBox, None));
    let mut world = PlayableLevel::from_level(lvl);
    // Body resting on the ground, its right edge touching the wall at x = 192.
    let mut body = falling_body(128, 1088, 100 * 1024, 0);

    body.apply_movement(&mut world, false);
    assert_eq!(body.hitbox.x, 128);
    assert_eq!(body.hitbox.y, 1088);
    assert_eq!(body.physics.speed.x.raw, 0);
}

/// A still body on open ground just reports grounded without moving.
#[test]
fn grounded_detection_on_ground_row() {
    let lvl = Level::new();
    let mut world = PlayableLevel::from_level(lvl);
    let mut body = falling_body(500, 1088, 0, 0);

    body.apply_movement(&mut world, false);
    assert!(body.grounded);
    assert_eq!(body.hitbox.x, 500);
    assert_eq!(body.hitbox.y, 1088);
}

/// A body in mid-air reports not grounded.
#[test]
fn airborne_body_not_grounded() {
    let lvl = Level::new();
    let mut world = PlayableLevel::from_level(lvl);
    let mut body = falling_body(500, 500, 0, 0);

    body.apply_movement(&mut world, false);
    assert!(!body.grounded);
}

/// Sub-pixel speeds are cleared to zero after a tick.
#[test]
fn sub_pixel_jitter_cleared() {
    let lvl = Level::new();
    let mut world = PlayableLevel::from_level(lvl);
    let mut body = falling_body(500, 1088, 200, -100);

    body.apply_movement(&mut world, false);
    assert_eq!(body.physics.speed.x.raw, 0);
    assert_eq!(body.physics.speed.y.raw, 0);
}
