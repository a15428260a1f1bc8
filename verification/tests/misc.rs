use platformer_core::background::BackgroundElement;
use platformer_core::block::{Block, BlockType, Collectible};
use platformer_core::editor::Selection;
use platformer_core::enemy::EnemyType;
use platformer_core::fixed::Fx;
use platformer_core::hitbox::{CollidableWith, Hitbox};
use platformer_core::keybindings::{default_key_bindings, KEYCODE_SPACE};
use platformer_core::level::LevelTheme;
use platformer_core::render::{Camera, CAMERA_MAX_X, CAMERA_MAX_Y};
use platformer_core::resource::{TextureAnimation, TextureInfo};
use platformer_core::state::ActivityResult;
use platformer_core::texture_id::TextureId;
use platformer_core::utility::Frequency;

#[test]
fn rounding_goes_half_away_from_zero() {
    assert_eq!(Fx { raw: 511 }.round_px(), 0);
    assert_eq!(Fx { raw: 512 }.round_px(), 1);
    assert_eq!(Fx { raw: -511 }.round_px(), 0);
    assert_eq!(Fx { raw: -512 }.round_px(), -1);
    assert_eq!(Fx { raw: 20 * 1024 }.round_px(), 20);
    assert_eq!(Fx::from_px(-7).round_px(), -7);
}

#[test]
fn scaling_is_a_truncated_fraction() {
    // 0.045 of ten pixels: 10240 * 46 / 1024 = 460.
    assert_eq!(Fx { raw: 10240 }.scale(Fx { raw: 46 }).raw, 460);
    assert_eq!(Fx { raw: -10240 }.scale(Fx { raw: 46 }).raw, -460);
    assert_eq!(Fx { raw: 1000 }.scale(Fx { raw: 1024 }).raw, 1000);
    assert_eq!(Fx { raw: 7 }.signum(), 1);
    assert_eq!(Fx { raw: -7 }.signum(), -1);
    assert_eq!(Fx { raw: 0 }.signum(), 0);
    assert_eq!(Fx { raw: 1025 }.half().raw, 512);
    assert_eq!(Fx { raw: -1025 }.half().raw, -512);
}

#[test]
fn hitbox_overlap_is_strict() {
    let a = Hitbox::new(0, 0, 64, 64);
    let touching = Hitbox::new(64, 0, 64, 64);
    let overlapping = Hitbox::new(63, 0, 64, 64);
    let apart = Hitbox::new(200, 200, 10, 10);
    assert!(!a.collides(&touching));
    assert!(a.collides(&overlapping));
    assert!(!a.collides(&apart));
    // Symmetry.
    assert!(overlapping.collides(&a));
}

#[test]
fn point_containment_is_half_open() {
    let h = Hitbox::new(10, 10, 5, 5);
    assert!(h.contains_point(10, 10));
    assert!(h.contains_point(14, 14));
    assert!(!h.contains_point(15, 10));
    assert!(!h.contains_point(10, 15));
    assert!(!h.contains_point(9, 10));
    // Through the trait, in both directions.
    assert!(CollidableWith::collides(&h, &(12, 12)));
    assert!(CollidableWith::collides(&(12, 12), &h));
}

#[test]
fn hitbox_offset_and_center() {
    let mut h = Hitbox::new(10, 20, 30, 40);
    h.offset(-5, 5);
    assert_eq!((h.x(), h.y(), h.width(), h.height()), (5, 25, 30, 40));
    assert_eq!(h.center(), (5 + 15, 25 + 20));
}

#[test]
fn camera_clamps_to_level() {
    let mut cam = Camera::new(0, 0);
    cam.shift((-100, -100));
    assert_eq!((cam.x, cam.y), (0, 0));
    cam.shift((1_000_000, 1_000_000));
    assert_eq!((cam.x, cam.y), (CAMERA_MAX_X, CAMERA_MAX_Y));
    cam.move_to((100, 50));
    assert_eq!((cam.x, cam.y), (100, 50));

    assert_eq!(cam.translate_coords((150, 60)), (50, 10));
    assert_eq!(cam.to_real_coords((50, 10)), (150, 60));
    assert!(cam.on_screen((0, 0)));
    assert!(cam.on_screen((1280, 720)));
    assert!(!cam.on_screen((1281, 0)));
    assert!(cam.in_view(Hitbox::new(100, 50, 10, 10)));
    assert!(!cam.in_view(Hitbox::new(5000, 50, 10, 10)));
}

#[test]
fn frequency_phases_cycle() {
    // Four phases, twice a second, at sixty ticks a second.
    let f = Frequency::new(4, 2);
    assert_eq!(f.phase(0), 0);
    assert_eq!(f.phase(30), 1);
    assert_eq!(f.phase(60), 2);
    assert_eq!(f.phase(120), 0);
}

#[test]
fn texture_info_picks_frames_and_variants() {
    let info = TextureInfo {
        path: String::from("blocks"),
        width: 16,
        height: 16,
        animation: TextureAnimation { frames: 3, speed: 1 },
        themed: true,
    };
    assert_eq!(info.frame_index(0), 0);
    assert_eq!(info.frame_index(60), 1);
    assert_eq!(info.variant_index(LevelTheme::Day), 0);
    assert_eq!(info.variant_index(LevelTheme::Underground), 1);
    assert_eq!(info.variant_index(LevelTheme::Night), 2);

    let flat = TextureInfo { themed: false, ..info };
    assert_eq!(flat.variant_index(LevelTheme::Night), 0);
}

#[test]
fn theme_cycling_wraps() {
    assert_eq!(LevelTheme::Day.next(), LevelTheme::Underground);
    assert_eq!(LevelTheme::Night.next(), LevelTheme::Day);
    assert_eq!(LevelTheme::Day.prev(), LevelTheme::Night);
    assert_eq!(LevelTheme::Underground.prev(), LevelTheme::Day);
}

#[test]
fn block_kind_cycling_skips_air() {
    let bricks = Block::default_visible();
    assert_eq!(bricks.kind, BlockType::Bricks);
    assert_eq!(bricks.next_kind().kind, BlockType::SolidBox);
    assert_eq!(bricks.prev_kind().kind, BlockType::TreeLeafsRight);
    // Cycling never reaches air.
    let mut b = Block::default_visible();
    for _ in 0..40 {
        b = b.next_kind();
        assert_ne!(b.kind, BlockType::Air);
    }
}

#[test]
fn background_cycling_skips_air() {
    assert_eq!(BackgroundElement::default_visible(), BackgroundElement::Water);
    assert_eq!(BackgroundElement::Water.next(), BackgroundElement::Fence);
    assert_eq!(BackgroundElement::Water.prev(), BackgroundElement::Castle);
    assert!(BackgroundElement::Castle.is_visible());
    assert!(!BackgroundElement::Air.is_visible());
    let mut e = BackgroundElement::Water;
    for _ in 0..15 {
        e = e.next();
        assert_ne!(e, BackgroundElement::Air);
    }
}

#[test]
fn collectible_cycling() {
    assert_eq!(Collectible::Coins(9).next(), Collectible::Mushroom);
    assert_eq!(Collectible::Mushroom.next(), Collectible::Star);
    assert_eq!(Collectible::Star.next(), Collectible::Coins(1));
    assert_eq!(Collectible::Star.prev(), Collectible::Mushroom);
    assert_eq!(Collectible::Coins(1).texture_id(), TextureId::CollectibleCoin);
    assert_eq!(Collectible::Star.texture_id(), TextureId::CollectibleStar);
}

#[test]
fn enemy_cycling_and_textures() {
    assert_eq!(EnemyType::Goomba.next(), EnemyType::Koopa);
    assert_eq!(EnemyType::Koopa.next(), EnemyType::Goomba);
    assert_eq!(EnemyType::Goomba.prev(), EnemyType::Koopa);
    assert_eq!(EnemyType::Goomba.texture_id(), TextureId::EnemyGoomba);
}

#[test]
fn selection_cycles_within_its_layer() {
    let mut sel = Selection::Block(Block::default_visible());
    sel.set_to_next();
    match sel {
        Selection::Block(b) => assert_eq!(b.kind, BlockType::SolidBox),
        ref other => panic!("layer changed to {:?}", other),
    }
    sel.switch_layer();
    match sel {
        Selection::Background(e) => assert_eq!(e, BackgroundElement::Water),
        ref other => panic!("expected background layer, got {:?}", other),
    }
    sel.switch_layer();
    match sel {
        Selection::Collectible(c) => assert_eq!(c, Collectible::Coins(1)),
        ref other => panic!("expected collectible layer, got {:?}", other),
    }
    sel.set_to_prev();
    match sel {
        Selection::Collectible(c) => assert_eq!(c, Collectible::Star),
        ref other => panic!("layer changed to {:?}", other),
    }
}

#[test]
fn activity_result_reports_exit() {
    assert!(ActivityResult::Exited.exited());
    assert!(!ActivityResult::Active.exited());
}

#[test]
fn default_bindings_start_with_space() {
    let kb = default_key_bindings();
    assert_eq!(kb.bindings.len(), 6);
    assert_eq!(kb.bindings[0], KEYCODE_SPACE);
    assert_eq!(kb.bindings[4], 27);
}
