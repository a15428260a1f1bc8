use platformer_core::background::BackgroundElement;
use platformer_core::block::{Block, BlockType, Collectible};
use platformer_core::enemy::EnemyType;
use platformer_core::entity::{EntityPrototype, EntityType};
use platformer_core::hitbox::Hitbox;
use platformer_core::level::{
    Level, LevelJSON, PlayableLevel, LEVEL_CELLS, LEVEL_HEIGHT, LEVEL_WIDTH,
};

#[test]
fn fresh_level_has_two_ground_rows() {
    let mut lvl = Level::new();
    assert_eq!(lvl.get_block((0, 18)).kind, BlockType::GroundLeft);
    assert_eq!(lvl.get_block((100, 18)).kind, BlockType::GroundMiddle);
    assert_eq!(lvl.get_block((LEVEL_WIDTH - 1, 18)).kind, BlockType::GroundRight);
    assert_eq!(lvl.get_block((0, 19)).kind, BlockType::GroundBottomLeft);
    assert_eq!(lvl.get_block((7, 19)).kind, BlockType::GroundBottomMiddle);
    assert_eq!(lvl.get_block((LEVEL_WIDTH - 1, 19)).kind, BlockType::GroundBottomRight);
    assert_eq!(lvl.get_block((0, 0)).kind, BlockType::Air);
    assert_eq!(lvl.get_block((100, 17)).kind, BlockType::Air);
    assert_eq!(lvl.get_bg((3, 3)), BackgroundElement::Air);
    assert_eq!(lvl.entities.len(), 1);
    assert_eq!(lvl.entities[0].position, (11840, 512));
}

#[test]
fn block_and_background_cells_roundtrip() {
    let mut lvl = Level::new();
    lvl.set_block((4, 5), Block::new(BlockType::Rock, None));
    assert_eq!(lvl.get_block((4, 5)).kind, BlockType::Rock);
    lvl.set_bg((4, 5), BackgroundElement::Fence);
    assert_eq!(lvl.get_bg((4, 5)), BackgroundElement::Fence);
    // Neighbours untouched.
    assert_eq!(lvl.get_block((5, 5)).kind, BlockType::Air);
    assert_eq!(lvl.get_bg((4, 6)), BackgroundElement::Air);
}

#[test]
fn fill_block_piles_coins() {
    let mut lvl = Level::new();
    lvl.set_block((2, 2), Block::new(BlockType::QuestionMark, None));
    lvl.fill_block((2, 2), Collectible::Coins(3));
    assert_eq!(lvl.get_block((2, 2)).contents, Some(Collectible::Coins(3)));
    lvl.fill_block((2, 2), Collectible::Coins(2));
    assert_eq!(lvl.get_block((2, 2)).contents, Some(Collectible::Coins(5)));
    lvl.fill_block((2, 2), Collectible::Star);
    assert_eq!(lvl.get_block((2, 2)).contents, Some(Collectible::Star));

    lvl.remove_block_contents((2, 2));
    assert_eq!(lvl.get_block((2, 2)).contents, None);
}

#[test]
fn coin_pile_saturates() {
    let mut lvl = Level::new();
    lvl.set_block((2, 2), Block::new(BlockType::QuestionMark, None));
    lvl.fill_block((2, 2), Collectible::Coins(200));
    lvl.fill_block((2, 2), Collectible::Coins(200));
    assert_eq!(lvl.get_block((2, 2)).contents, Some(Collectible::Coins(255)));
}

#[test]
fn entities_insert_remove_and_lookup() {
    let mut lvl = Level::new();
    let goomba = EntityPrototype::new(EntityType::Enemy(EnemyType::Koopa), (640, 320));
    lvl.insert_entity(goomba);
    assert_eq!(lvl.entities.len(), 2);

    assert_eq!(lvl.get_entity((640, 320)), EnemyType::Koopa);
    // No entity there: falls back to a goomba.
    assert_eq!(lvl.get_entity((1, 1)), EnemyType::Goomba);

    lvl.remove_entity((640, 320));
    assert_eq!(lvl.entities.len(), 1);
    assert_eq!(lvl.get_entity((640, 320)), EnemyType::Goomba);
}

#[test]
fn json_roundtrip_preserves_level() {
    let mut lvl = Level::new();
    lvl.set_block((9, 9), Block::new(BlockType::Bricks, Some(Collectible::Mushroom)));
    lvl.set_bg((8, 8), BackgroundElement::Castle);

    let json = LevelJSON::from_level(&lvl);
    assert_eq!(json.blocks.len(), LEVEL_CELLS);
    let mut back = Level::from_json(json);
    assert_eq!(back.get_block((9, 9)).kind, BlockType::Bricks);
    assert_eq!(back.get_block((9, 9)).contents, Some(Collectible::Mushroom));
    assert_eq!(back.background[8 * LEVEL_WIDTH + 8], BackgroundElement::Castle);
    assert_eq!(back.entities.len(), 1);
}

#[test]
fn playable_level_reflects_prototype() {
    let mut lvl = Level::new();
    lvl.set_block((3, 2), Block::new(BlockType::SolidBox, None));
    let world = PlayableLevel::from_level(lvl);

    assert_eq!(
        world.block_hitbox(3, 2),
        Some(Hitbox {
            x: 192,
            y: 128,
            width: 64,
            height: 64
        })
    );
    assert_eq!(world.block_hitbox(4, 2), None);
    // The end-of-level flag woke as an entity.
    assert_eq!(world.entities.len(), 1);
    assert_eq!(world.entities[0].body.hitbox.x, 11840);
}

#[test]
fn clouds_stay_in_the_sky() {
    let world = PlayableLevel::from_level(Level::new());
    for cloud in &world.clouds {
        assert!(cloud.position.0 >= 0 && cloud.position.0 < 14735);
        assert!(cloud.position.1 >= 0 && cloud.position.1 < 854);
    }
}

#[test]
fn level_dimensions() {
    assert_eq!(LEVEL_WIDTH, 220);
    assert_eq!(LEVEL_HEIGHT, 20);
    assert_eq!(LEVEL_CELLS, LEVEL_WIDTH * LEVEL_HEIGHT);
}

#[test]
fn short_background_padded_with_air() {
    let lvl = Level::new();
    let mut json = LevelJSON::from_level(&lvl);
    json.background.truncate(10);
    let back = Level::from_json(json);
    assert_eq!(back.background.len(), LEVEL_CELLS);
    assert_eq!(back.background[LEVEL_CELLS - 1], BackgroundElement::Air);
}
