use platformer_core::block::{Block, BlockState, BlockType, Collectible};
use platformer_core::fixed::{Fx, Vec2};
use platformer_core::game::{
    advance_block_states, handle_extractions, ExtractionEvent, Score, BUMP_FALLOFF, BUMP_FORCE,
};
use platformer_core::hitbox::Hitbox;
use platformer_core::level::{Level, PlayableLevel};
use platformer_core::physics::PhysicalBody;

fn world_with_cell(pos: (usize, usize), block: Block, state: BlockState) -> PlayableLevel {
    let mut lvl = Level::new();
    lvl.set_block(pos, block);
    let mut world = PlayableLevel::from_level(lvl);
    let idx = pos.1 * platformer_core::level::LEVEL_WIDTH + pos.0;
    world.blocks[idx].state = state;
    world
}

fn state_at(world: &PlayableLevel, pos: (usize, usize)) -> BlockState {
    world.blocks[pos.1 * platformer_core::level::LEVEL_WIDTH + pos.0].state
}

fn block_at(world: &PlayableLevel, pos: (usize, usize)) -> Block {
    world.blocks[pos.1 * platformer_core::level::LEVEL_WIDTH + pos.0].block
}

/// A cell set to Moving(BUMP_FORCE) counts down to Moving(0) in exactly
/// ceil(BUMP_FORCE / BUMP_FALLOFF) passes, never increasing, and collapses
/// to Static on the pass after that.
#[test]
fn moving_block_decays_deterministically() {
    let pos = (5, 5);
    let mut world = world_with_cell(
        pos,
        Block::new(BlockType::Bricks, None),
        BlockState::Moving(BUMP_FORCE),
    );

    let passes = (BUMP_FORCE as u32 + BUMP_FALLOFF as u32 - 1) / BUMP_FALLOFF as u32;
    assert_eq!(passes, 8);

    let mut last_remaining = BUMP_FORCE;
    for _ in 0..passes {
        advance_block_states(&mut world, false);
        match state_at(&world, pos) {
            BlockState::Moving(n) => {
                assert!(n <= last_remaining);
                last_remaining = n;
            }
            other => panic!("decay left state {:?} too early", other),
        }
    }
    assert_eq!(state_at(&world, pos), BlockState::Moving(0));

    advance_block_states(&mut world, false);
    assert_eq!(state_at(&world, pos), BlockState::Static);

    advance_block_states(&mut world, false);
    assert_eq!(state_at(&world, pos), BlockState::Static);
}

/// A falloff that does not divide the force still clamps at zero instead
/// of wrapping.
#[test]
fn decay_clamps_at_zero() {
    let pos = (4, 4);
    let mut world = world_with_cell(
        pos,
        Block::new(BlockType::Bricks, None),
        BlockState::Moving(2),
    );

    advance_block_states(&mut world, false);
    assert_eq!(state_at(&world, pos), BlockState::Moving(0));
    advance_block_states(&mut world, false);
    assert_eq!(state_at(&world, pos), BlockState::Static);
}

/// A bumped coin block yields exactly one coin event, keeps its kind while
/// coins remain, and starts the pop-back.
#[test]
fn bumped_coin_block_yields_one_coin() {
    let pos = (6, 6);
    let mut world = world_with_cell(
        pos,
        Block::new(BlockType::QuestionMark, Some(Collectible::Coins(2))),
        BlockState::Bumped,
    );

    let events = advance_block_states(&mut world, false);
    assert_eq!(events, vec![ExtractionEvent::Coin { cell: pos }]);
    assert_eq!(state_at(&world, pos), BlockState::Moving(BUMP_FORCE));
    let b = block_at(&world, pos);
    assert_eq!(b.kind, BlockType::QuestionMark);
    assert_eq!(b.contents, Some(Collectible::Coins(1)));
}

/// Taking the last coin out of a question mark block spends it.
#[test]
fn last_coin_spends_question_mark() {
    let pos = (6, 6);
    let mut world = world_with_cell(
        pos,
        Block::new(BlockType::QuestionMark, Some(Collectible::Coins(1))),
        BlockState::Bumped,
    );

    let events = advance_block_states(&mut world, false);
    assert_eq!(events, vec![ExtractionEvent::Coin { cell: pos }]);
    let b = block_at(&world, pos);
    assert_eq!(b.kind, BlockType::QuestionMarkEmpty);
    assert_eq!(b.contents, None);
}

/// A mushroom pops out as a spawn event and spends the block.
#[test]
fn bumped_mushroom_block_spawns() {
    let pos = (7, 3);
    let mut world = world_with_cell(
        pos,
        Block::new(BlockType::QuestionMark, Some(Collectible::Mushroom)),
        BlockState::Bumped,
    );

    let events = advance_block_states(&mut world, false);
    assert_eq!(
        events,
        vec![ExtractionEvent::Spawned {
            kind: Collectible::Mushroom,
            cell: pos
        }]
    );
    assert_eq!(block_at(&world, pos).kind, BlockType::QuestionMarkEmpty);
}

/// An empty breakable block shatters under a big player and turns to air;
/// under a small player it stays.
#[test]
fn empty_bricks_shatter_only_for_big_player() {
    let pos = (8, 8);
    let mut world = world_with_cell(pos, Block::new(BlockType::Bricks, None), BlockState::Bumped);
    let events = advance_block_states(&mut world, false);
    assert!(events.is_empty());
    assert_eq!(block_at(&world, pos).kind, BlockType::Bricks);
    assert_eq!(state_at(&world, pos), BlockState::Moving(BUMP_FORCE));

    let mut world = world_with_cell(pos, Block::new(BlockType::Bricks, None), BlockState::Bumped);
    let events = advance_block_states(&mut world, true);
    assert_eq!(
        events,
        vec![ExtractionEvent::Shattered {
            kind: BlockType::Bricks,
            cell: pos
        }]
    );
    assert_eq!(block_at(&world, pos).kind, BlockType::Air);
}

/// Events come out in row-major scan order.
#[test]
fn events_follow_row_major_order() {
    let mut lvl = Level::new();
    lvl.set_block((9, 2), Block::new(BlockType::QuestionMark, Some(Collectible::Coins(1))));
    lvl.set_block((1, 7), Block::new(BlockType::QuestionMark, Some(Collectible::Star)));
    let mut world = PlayableLevel::from_level(lvl);
    world.blocks[2 * platformer_core::level::LEVEL_WIDTH + 9].state = BlockState::Bumped;
    world.blocks[7 * platformer_core::level::LEVEL_WIDTH + 1].state = BlockState::Bumped;

    let events = advance_block_states(&mut world, false);
    assert_eq!(
        events,
        vec![
            ExtractionEvent::Coin { cell: (9, 2) },
            ExtractionEvent::Spawned {
                kind: Collectible::Star,
                cell: (1, 7)
            },
        ]
    );
}

/// Scoring: the hundredth coin converts into a life.
#[test]
fn hundredth_coin_becomes_a_life() {
    let mut score = Score::new();
    assert_eq!((score.lives, score.coins), (3, 0));
    for _ in 0..99 {
        score.add_coin();
    }
    assert_eq!((score.lives, score.coins), (3, 99));
    score.add_coin();
    assert_eq!((score.lives, score.coins), (4, 0));
}

/// Handling a coin event scores it and pops a coin particle out of the
/// cell above.
#[test]
fn coin_event_spawns_particle_above() {
    let lvl = Level::new();
    let mut world = PlayableLevel::from_level(lvl);
    let mut score = Score::new();
    let before = world.entities.len();

    let events = vec![ExtractionEvent::Coin { cell: (2, 3) }];
    handle_extractions(&mut world, &mut score, &events);

    assert_eq!(score.coins, 1);
    assert_eq!(world.entities.len(), before + 1);
    let coin = &world.entities[before];
    assert_eq!(coin.body.hitbox.x, 2 * 64);
    assert_eq!(coin.body.hitbox.y, 2 * 64);
    match coin.kind {
        platformer_core::entity::EntityType::Particle(
            platformer_core::entity::Particle::Coin { lifetime },
        ) => assert_eq!(lifetime, platformer_core::entity::COIN_LIFETIME),
        ref other => panic!("coin event spawned {:?}", other),
    }
}

/// A shattered block scatters four fragments in its own cell.
#[test]
fn shatter_event_spawns_four_fragments() {
    let lvl = Level::new();
    let mut world = PlayableLevel::from_level(lvl);
    let mut score = Score::new();
    let before = world.entities.len();

    let events = vec![ExtractionEvent::Shattered {
        kind: BlockType::Bricks,
        cell: (3, 3),
    }];
    handle_extractions(&mut world, &mut score, &events);

    assert_eq!(world.entities.len(), before + 4);
    for i in 0..4 {
        match world.entities[before + i].kind {
            platformer_core::entity::EntityType::Particle(
                platformer_core::entity::Particle::BlockFragment { kind, .. },
            ) => assert_eq!(kind, BlockType::Bricks),
            ref other => panic!("shatter spawned {:?}", other),
        }
    }
}

/// A player striking a bumpable block from below marks it Bumped; the
/// grid's own pass then sets it moving.
#[test]
fn player_bump_marks_block() {
    let pos = (2, 15);
    let mut lvl = Level::new();
    lvl.set_block(pos, Block::new(BlockType::Bricks, None));
    let mut world = PlayableLevel::from_level(lvl);

    // Jumping body right under the block (block spans y 960..1024).
    let mut body = PhysicalBody::new(Fx { raw: 1024 }, Hitbox::new(128, 1026, 64, 64));
    body.physics.speed = Vec2 {
        x: Fx { raw: 0 },
        y: Fx { raw: -4 * 1024 },
    };

    body.apply_movement(&mut world, true);
    assert_eq!(state_at(&world, pos), BlockState::Bumped);

    advance_block_states(&mut world, false);
    assert_eq!(state_at(&world, pos), BlockState::Moving(BUMP_FORCE));
}

/// A bump under a cell kills enemies standing on it and tosses loose
/// special collectibles upward; coins and others are left alone.
#[test]
fn bump_reaches_entities_above() {
    let lvl = Level::new();
    let mut world = PlayableLevel::from_level(lvl);

    // The cell above the struck block spans (128..192, 576..640).
    let mut enemy = platformer_core::entity::Entity::new(
        platformer_core::entity::EntityType::Collectible(Collectible::Star),
        (130, 580),
    );
    enemy.kind = platformer_core::entity::EntityType::Enemy(platformer_core::enemy::EnemyType::Goomba);
    world.entities.push(enemy);

    let mushroom = platformer_core::entity::Entity::new(
        platformer_core::entity::EntityType::Collectible(Collectible::Mushroom),
        (130, 580),
    );
    world.entities.push(mushroom);

    let far = platformer_core::entity::Entity::new(
        platformer_core::entity::EntityType::Collectible(Collectible::Mushroom),
        (700, 580),
    );
    world.entities.push(far);

    let n = world.entities.len();
    platformer_core::game::bump_entities(&mut world, (2, 10));

    assert_eq!(world.entities.len(), n);
    assert!(world.entities[n - 3].is_dead());
    // The mushroom was tossed: upward speed, same place.
    assert!(world.entities[n - 2].body.physics.speed.y.raw < 0);
    assert_eq!(world.entities[n - 2].body.hitbox.x, 130);
    // The far entity is untouched.
    assert_eq!(world.entities[n - 1].body.physics.speed.y.raw, 0);
}
