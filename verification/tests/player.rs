use platformer_core::controller::{Controller, InputEvent, Key};
use platformer_core::entity::{Entity, EntityType, Particle};
use platformer_core::fixed::Fx;
use platformer_core::level::{Level, PlayableLevel};
use platformer_core::player::{
    Player, PlayerVariant, BIG_PLAYER_HEIGHT, BIG_PLAYER_WIDTH, JUMP_ACCELERATION_RAW,
    PLAYER_HEIGHT, PLAYER_WIDTH,
};
use platformer_core::render::Camera;
use platformer_core::texture_id::TextureId;

#[test]
fn new_player_is_small_and_still() {
    let p = Player::new(10, 1024);
    assert_eq!(p.variant, PlayerVariant::Small);
    assert!(!p.is_big());
    assert_eq!(p.rect().width, PLAYER_WIDTH);
    assert_eq!(p.rect().height, PLAYER_HEIGHT);
    assert_eq!(p.position(), (10, 1024));
    assert_eq!(p.invincibility, 0);
}

#[test]
fn growing_extends_upward_and_around() {
    let mut p = Player::new(100, 1000);
    p.grow();
    assert!(p.is_big());
    assert_eq!(p.variant, PlayerVariant::Big);
    assert_eq!(p.rect().x, 100 - 8);
    assert_eq!(p.rect().y, 1000 - 64);
    assert_eq!(p.rect().width, BIG_PLAYER_WIDTH);
    assert_eq!(p.rect().height, BIG_PLAYER_HEIGHT);
}

#[test]
fn grounded_jump_presses_upward() {
    let mut p = Player::new(100, 1088);
    p.body.grounded = true;

    let mut c = Controller::new();
    c.update(&vec![InputEvent::KeyDown(Key::Up)]);

    p.accelerate(&c);
    // A fresh press from the ground is a full jump; no horizontal key is
    // held, so no horizontal acceleration and no speed-jump bonus.
    assert_eq!(p.body.physics.speed.y.raw, JUMP_ACCELERATION_RAW);
    assert_eq!(p.body.physics.speed.x.raw, 0);
}

#[test]
fn airborne_control_is_cut() {
    let mut c = Controller::new();
    c.update(&vec![InputEvent::KeyDown(Key::Right)]);

    let mut grounded = Player::new(100, 1088);
    grounded.body.grounded = true;
    grounded.accelerate(&c);
    // 922 raw units of base acceleration on the ground.
    assert_eq!(grounded.body.physics.speed.x.raw, 922);

    let mut airborne = Player::new(100, 500);
    airborne.accelerate(&c);
    // Cut to 0.3 of the base: 922 * 307 / 1024 = 276.
    assert_eq!(airborne.body.physics.speed.x.raw, 276);
}

#[test]
fn sprint_multiplies_horizontal_control() {
    let mut c = Controller::new();
    c.update(&vec![
        InputEvent::KeyDown(Key::Right),
        InputEvent::KeyDown(Key::Sprint),
    ]);

    let mut p = Player::new(100, 1088);
    p.body.grounded = true;
    p.accelerate(&c);
    // 922 * 1382 / 1024 = 1244.
    assert_eq!(p.body.physics.speed.x.raw, 1244);
}

#[test]
fn player_movement_resolves_against_grid() {
    let mut world = PlayableLevel::from_level(Level::new());
    let mut p = Player::new(100, 1088);
    p.body.physics.speed.y = Fx { raw: 10 * 1024 };

    p.apply_movement(&mut world);
    // The ground row is right beneath: the body stays put and grounds.
    assert_eq!(p.position(), (100, 1088));
    assert!(p.body.grounded);
    assert_eq!(p.body.physics.speed.y.raw, 0);
}

#[test]
fn camera_follows_player() {
    let p = Player::new(800, 600);
    let mut cam = Camera::new(0, 0);
    p.stick_camera(&mut cam);
    assert_eq!(cam.x, 800 - 640);
    assert_eq!(cam.y, 600 - 360);

    // Near the level's left edge the camera clamps.
    let p = Player::new(10, 10);
    p.stick_camera(&mut cam);
    assert_eq!((cam.x, cam.y), (0, 0));
}

#[test]
fn player_texture_follows_state() {
    let mut p = Player::new(0, 0);
    assert_eq!(p.texture_id(), TextureId::PlayerJumping);
    p.body.grounded = true;
    assert_eq!(p.texture_id(), TextureId::PlayerStanding);
    p.body.physics.speed.x = Fx { raw: 5000 };
    assert_eq!(p.texture_id(), TextureId::PlayerRunning);
    p.grow();
    assert_eq!(p.texture_id(), TextureId::BigPlayerRunning);
}

#[test]
fn spawned_coin_particle_flies_up() {
    let coin = Entity::spawn_coin((2, 2));
    match coin.kind {
        EntityType::Particle(Particle::Coin { lifetime }) => assert_eq!(lifetime, 25),
        ref other => panic!("spawn_coin made {:?}", other),
    }
    assert!(coin.body.physics.speed.y.raw < 0);
    assert!(!coin.is_dead());

    let dead = Entity::dead();
    assert!(dead.is_dead());
}

#[test]
fn entity_prototypes_give_extents() {
    let proto = platformer_core::entity::EntityPrototype::new(
        EntityType::Collectible(platformer_core::block::Collectible::Mushroom),
        (64, 128),
    );
    let hb = proto.hitbox();
    assert_eq!((hb.x, hb.y, hb.width, hb.height), (64, 128, 64, 64));
    assert_eq!(proto.mass().raw, 1024);

    let woken = Entity::from_prototype(proto);
    assert_eq!(woken.body.hitbox.x, 64);
    assert_eq!(woken.body.physics.speed.x.raw, 0);
}

/// A coin particle coasts under gravity and burns down its lifetime.
#[test]
fn particle_ages_and_falls() {
    let mut world = PlayableLevel::from_level(Level::new());
    let coin = Entity::spawn_coin((2, 2));
    world.entities.push(coin);
    let i = world.entities.len() - 1;
    let y0 = world.entities[i].body.hitbox.y;
    let vy0 = world.entities[i].body.physics.speed.y.raw;
    assert!(vy0 < 0);

    match world.entities[i].kind {
        EntityType::Particle(p) => p.update(i, &mut world),
        ref other => panic!("spawn_coin made {:?}", other),
    }

    match world.entities[i].kind {
        EntityType::Particle(Particle::Coin { lifetime }) => assert_eq!(lifetime, 24),
        ref other => panic!("aging made {:?}", other),
    }
    // Still rising, but gravity has eaten into the speed.
    assert!(world.entities[i].body.hitbox.y < y0);
    assert!(world.entities[i].body.physics.speed.y.raw > vy0);
}

/// Movement into a ceiling stays within the desired span: the body never
/// moves down while pushed up, and never past the ceiling.
#[test]
fn upward_movement_stays_within_span() {
    let mut lvl = Level::new();
    lvl.set_block((2, 10), platformer_core::block::Block::new(
        platformer_core::block::BlockType::SolidBox,
        None,
    ));
    let mut world = PlayableLevel::from_level(lvl);
    // Ceiling cell spans y 640..704; body starts below it.
    let mut body = platformer_core::physics::PhysicalBody::new(
        Fx { raw: 1024 },
        platformer_core::hitbox::Hitbox::new(130, 710, 64, 64),
    );
    body.physics.speed.y = Fx { raw: -20 * 1024 };

    let y0 = body.hitbox.y;
    body.apply_movement(&mut world, false);
    assert!(body.hitbox.y <= y0);
    assert!(body.hitbox.y >= y0 - 20);
    // It stopped right under the ceiling with vertical speed gone.
    assert_eq!(body.hitbox.y, 704);
    assert_eq!(body.physics.speed.y.raw, 0);
}
