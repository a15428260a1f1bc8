//! The block-reaction pass and scorekeeping: once per tick, every cell's
//! reaction state advances one step, and cells observed `Bumped` yield
//! their contents exactly once as extraction events for the caller to turn
//! into spawned entities.

use vstd::prelude::*;

verus! {

use crate::block::{Block, BlockState, BlockType, Collectible, RealBlock};
use crate::level::{PlayableLevel, LEVEL_CELLS, LEVEL_WIDTH};

/// How many pixels of pop-back offset a moving block loses per tick.
pub const BUMP_FALLOFF: u8 = 3;

/// The pop-back offset a freshly bumped block starts with.
pub const BUMP_FORCE: u8 = BUMP_FALLOFF * 8;

/// Lives and coins collected.
#[derive(Clone, Copy, Debug, PartialEq, Eq, Structural)]
pub struct Score {
    pub lives: u8,
    pub coins: u8,
}

/// What a bumped cell yielded, for the caller to turn into spawned
/// entities; `cell` is the grid cell that was struck.
#[derive(Clone, Copy, Debug, PartialEq, Eq)]
pub enum ExtractionEvent {
    /// A coin was extracted; one coin scores and a coin particle pops out
    /// one cell above.
    Coin { cell: (usize, usize) },
    /// A special content spawns a collectible one cell above.
    Spawned { kind: Collectible, cell: (usize, usize) },
    /// An empty breakable block shattered into fragments.
    Shattered { kind: BlockType, cell: (usize, usize) },
}

impl Score {
    pub fn new() -> (r: Score)
        ensures
            r.lives == 3,
            r.coins == 0,
    {
        Score { lives: 3, coins: 0 }
    }

    /// Score one coin; every hundredth coin converts into a life.  Both
    /// counters saturate instead of wrapping.
    pub fn add_coin(&mut self)
        ensures
            final(self).coins == (if old(self).coins == u8::MAX {
                u8::MAX as int
            } else if old(self).coins + 1 == 100 {
                0int
            } else {
                old(self).coins + 1
            }),
            final(self).lives == (if old(self).coins + 1 == 100 && old(self).lives < u8::MAX {
                old(self).lives + 1
            } else {
                old(self).lives as int
            }),
    {
        if self.coins == u8::MAX {
            return;
        }
        self.coins = self.coins + 1;
        if self.coins == 100 {
            self.coins = 0;
            if self.lives < u8::MAX {
                self.lives = self.lives + 1;
            }
        }
    }
}

/// One step of the per-cell reaction state machine: a bump starts the
/// pop-back at `BUMP_FORCE`; a spent pop-back collapses to `Static`; a
/// running one decays by `BUMP_FALLOFF`, clamped at zero.
pub open spec fn block_state_step(s: BlockState) -> BlockState {
    match s {
        BlockState::Static => BlockState::Static,
        BlockState::Bumped => BlockState::Moving(BUMP_FORCE),
        BlockState::Moving(n) => if n == 0 {
            BlockState::Static
        } else if n >= BUMP_FALLOFF {
            BlockState::Moving((n - BUMP_FALLOFF) as u8)
        } else {
            BlockState::Moving(0)
        },
    }
}

/// What is left of a bumped cell's block: an empty breakable block
/// shatters to air under a big player; otherwise one unit of contents
/// leaves, and a block emptied this way becomes a spent question mark.
pub open spec fn bumped_block(b: Block, player_big: bool) -> Block {
    if b.contents is None {
        if player_big {
            Block { kind: BlockType::Air, contents: None }
        } else {
            b
        }
    } else {
        let left = match b.contents {
            Some(Collectible::Coins(n)) => if n > 1 {
                Some(Collectible::Coins((n - 1) as u8))
            } else {
                None
            },
            _ => None,
        };
        Block {
            kind: if left is None {
                BlockType::QuestionMarkEmpty
            } else {
                b.kind
            },
            contents: left,
        }
    }
}

/// The event a bumped cell yields, if any.
pub open spec fn event_of_cell(b: RealBlock, x: int, y: int, player_big: bool) -> Option<
    ExtractionEvent,
> {
    if b.state is Bumped {
        match b.block.contents {
            None => if player_big {
                Some(
                    ExtractionEvent::Shattered {
                        kind: b.block.kind,
                        cell: (x as usize, y as usize),
                    },
                )
            } else {
                None
            },
            Some(Collectible::Coins(_)) => Some(
                ExtractionEvent::Coin { cell: (x as usize, y as usize) },
            ),
            Some(Collectible::Mushroom) => Some(
                ExtractionEvent::Spawned {
                    kind: Collectible::Mushroom,
                    cell: (x as usize, y as usize),
                },
            ),
            Some(Collectible::Star) => Some(
                ExtractionEvent::Spawned {
                    kind: Collectible::Star,
                    cell: (x as usize, y as usize),
                },
            ),
            Some(Collectible::Flower) => None,
        }
    } else {
        None
    }
}

/// The events the cells before flat index `n` yield, in row-major scan
/// order.
pub open spec fn events_upto(blocks: Seq<RealBlock>, player_big: bool, n: int) -> Seq<
    ExtractionEvent,
>
    decreases n,
{
    if n <= 0 {
        Seq::empty()
    } else {
        let rest = events_upto(blocks, player_big, n - 1);
        match event_of_cell(
            blocks[n - 1],
            (n - 1) % (LEVEL_WIDTH as int),
            (n - 1) / (LEVEL_WIDTH as int),
            player_big,
        ) {
            Some(e) => rest.push(e),
            None => rest,
        }
    }
}

/// Advance every cell's reaction state by one step, in row-major scan
/// order, converting observed bumps into extraction events exactly once.
/// `player_big` decides whether empty breakable blocks shatter.
pub fn advance_block_states(world: &mut PlayableLevel, player_big: bool) -> (events: Vec<
    ExtractionEvent,
>)
    requires
        old(world).wf(),
    ensures
        final(world).wf(),
        final(world).prototype == old(world).prototype,
        final(world).entities == old(world).entities,
        final(world).clouds == old(world).clouds,
        forall|i: int|
            0 <= i < LEVEL_CELLS ==> #[trigger] final(world).blocks@[i].state == block_state_step(
                old(world).blocks@[i].state,
            ),
        forall|i: int|
            0 <= i < LEVEL_CELLS ==> #[trigger] final(world).blocks@[i].block == (if old(
                world,
            ).blocks@[i].state is Bumped {
                bumped_block(old(world).blocks@[i].block, player_big)
            } else {
                old(world).blocks@[i].block
            }),
        events@ == events_upto(old(world).blocks@, player_big, LEVEL_CELLS as int),
{
    let mut events: Vec<ExtractionEvent> = Vec::new();
    let ghost blocks0 = world.blocks@;
    let mut i: usize = 0;
    while i < LEVEL_CELLS
        invariant
            i <= LEVEL_CELLS,
            world.wf(),
            world.prototype == old(world).prototype,
            world.entities == old(world).entities,
            world.clouds == old(world).clouds,
            blocks0 == old(world).blocks@,
            forall|j: int|
                i <= j < LEVEL_CELLS ==> #[trigger] world.blocks@[j] == blocks0[j],
            forall|j: int|
                0 <= j < i ==> #[trigger] world.blocks@[j].state == block_state_step(
                    blocks0[j].state,
                ),
            forall|j: int|
                0 <= j < i ==> #[trigger] world.blocks@[j].block == (if blocks0[j].state
                    is Bumped {
                    bumped_block(blocks0[j].block, player_big)
                } else {
                    blocks0[j].block
                }),
            events@ == events_upto(blocks0, player_big, i as int),
        decreases LEVEL_CELLS - i,
    {
        let cell = world.blocks[i];
        let x = i % LEVEL_WIDTH;
        let y = i / LEVEL_WIDTH;
        let new_cell: RealBlock = match cell.state {
            BlockState::Bumped => {
                let mut block = cell.block;
                if block.is_empty() {
                    if player_big {
                        events.push(
                            ExtractionEvent::Shattered { kind: block.kind(), cell: (x, y) },
                        );
                        block = Block::new(BlockType::Air, None);
                    }
                } else {
                    match block.get_contents() {
                        Some(Collectible::Coins(_)) => {
                            events.push(ExtractionEvent::Coin { cell: (x, y) });
                        },
                        Some(Collectible::Mushroom) => {
                            events.push(
                                ExtractionEvent::Spawned {
                                    kind: Collectible::Mushroom,
                                    cell: (x, y),
                                },
                            );
                        },
                        Some(Collectible::Star) => {
                            events.push(
                                ExtractionEvent::Spawned {
                                    kind: Collectible::Star,
                                    cell: (x, y),
                                },
                            );
                        },
                        _ => {},
                    }
                    block.delete_item();
                    if block.is_empty() {
                        block.set_kind(BlockType::QuestionMarkEmpty);
                    }
                }
                RealBlock { block, state: BlockState::Moving(BUMP_FORCE) }
            },
            BlockState::Moving(n) => {
                if n == 0 {
                    RealBlock { block: cell.block, state: BlockState::Static }
                } else if n >= BUMP_FALLOFF {
                    RealBlock { block: cell.block, state: BlockState::Moving(n - BUMP_FALLOFF) }
                } else {
                    RealBlock { block: cell.block, state: BlockState::Moving(0) }
                }
            },
            BlockState::Static => cell,
        };
        world.blocks.set(i, new_cell);
        i = i + 1;
    }
    events
}

/// One coin applied to a score, as `Score::add_coin` does it.
pub open spec fn score_coins(s: Score) -> Score {
    Score {
        coins: (if s.coins == u8::MAX {
            u8::MAX
        } else if s.coins + 1 == 100 {
            0u8
        } else {
            (s.coins + 1) as u8
        }),
        lives: (if s.coins + 1 == 100 && s.lives < u8::MAX {
            (s.lives + 1) as u8
        } else {
            s.lives
        }),
    }
}

/// The score after the coins among `events` are counted, in order.
pub open spec fn score_after(s: Score, events: Seq<ExtractionEvent>) -> Score
    decreases events.len(),
{
    if events.len() == 0 {
        s
    } else {
        let prev = score_after(s, events.drop_last());
        match events.last() {
            ExtractionEvent::Coin { .. } => score_coins(prev),
            _ => prev,
        }
    }
}

/// The kinds and spawn positions of the entities one event gives rise to:
/// a coin particle or a collectible one cell above a struck cell, four
/// block fragments in the cell itself.
pub open spec fn entities_of_event(e: ExtractionEvent, theme: crate::level::LevelTheme) -> Seq<
    (crate::entity::EntityType, (int, int)),
> {
    match e {
        ExtractionEvent::Coin { cell } => seq![
            (
                crate::entity::EntityType::Particle(
                    crate::entity::Particle::Coin { lifetime: crate::entity::COIN_LIFETIME },
                ),
                (cell.0 * crate::block::BLOCK_SIZE, (cell.1 - 1) * crate::block::BLOCK_SIZE),
            ),
        ],
        ExtractionEvent::Spawned { kind, cell } => seq![
            (
                crate::entity::EntityType::Collectible(kind),
                (cell.0 * crate::block::BLOCK_SIZE, (cell.1 - 1) * crate::block::BLOCK_SIZE),
            ),
        ],
        ExtractionEvent::Shattered { kind, cell } => {
            let fragment = (
                crate::entity::EntityType::Particle(
                    crate::entity::Particle::BlockFragment { kind, theme },
                ),
                (cell.0 * crate::block::BLOCK_SIZE, cell.1 * crate::block::BLOCK_SIZE),
            );
            seq![fragment, fragment, fragment, fragment]
        },
    }
}

/// The kinds and spawn positions of everything `events` gives rise to.
pub open spec fn entities_of_events(
    events: Seq<ExtractionEvent>,
    theme: crate::level::LevelTheme,
) -> Seq<(crate::entity::EntityType, (int, int))>
    decreases events.len(),
{
    if events.len() == 0 {
        Seq::empty()
    } else {
        entities_of_events(events.drop_last(), theme) + entities_of_event(events.last(), theme)
    }
}

/// Turn extraction events into spawned entities and scored coins: each
/// coin event scores one coin and pops a coin particle out of the cell
/// above, each special content becomes a collectible there, and each
/// shattered block scatters four fragments in place.
pub fn handle_extractions(
    world: &mut PlayableLevel,
    score: &mut Score,
    events: &Vec<ExtractionEvent>,
)
    requires
        forall|i: int|
            0 <= i < events@.len() ==> match #[trigger] events@[i] {
                ExtractionEvent::Coin { cell } => 1 <= cell.1 < crate::level::LEVEL_HEIGHT
                    && cell.0 < LEVEL_WIDTH,
                ExtractionEvent::Spawned { cell, .. } => 1 <= cell.1 < crate::level::LEVEL_HEIGHT
                    && cell.0 < LEVEL_WIDTH,
                ExtractionEvent::Shattered { cell, .. } => cell.1 < crate::level::LEVEL_HEIGHT
                    && cell.0 < LEVEL_WIDTH,
            },
    ensures
        final(world).prototype == old(world).prototype,
        final(world).blocks == old(world).blocks,
        final(world).clouds == old(world).clouds,
        *final(score) == score_after(*old(score), events@),
        final(world).entities@.len() == old(world).entities@.len() + entities_of_events(
            events@,
            old(world).prototype.theme,
        ).len(),
        forall|j: int|
            0 <= j < old(world).entities@.len() ==> #[trigger] final(world).entities@[j] == old(
                world,
            ).entities@[j],
        forall|j: int|
            0 <= j < entities_of_events(events@, old(world).prototype.theme).len() ==> {
                let spawned = entities_of_events(events@, old(world).prototype.theme)[j];
                let e = #[trigger] final(world).entities@[old(world).entities@.len() + j];
                &&& e.kind == spawned.0
                &&& e.body.hitbox.x == spawned.1.0
                &&& e.body.hitbox.y == spawned.1.1
            },
{
    let ghost s0 = *score;
    let ghost ents0 = world.entities@;
    let ghost theme0 = world.prototype.theme;
    let n = events.len();
    let mut i: usize = 0;
    while i < n
        invariant
            i <= n,
            n == events@.len(),
            world.prototype == old(world).prototype,
            world.blocks == old(world).blocks,
            world.clouds == old(world).clouds,
            theme0 == world.prototype.theme,
            ents0 == old(world).entities@,
            s0 == *old(score),
            *score == score_after(s0, events@.subrange(0, i as int)),
            world.entities@.len() == ents0.len() + entities_of_events(
                events@.subrange(0, i as int),
                theme0,
            ).len(),
            forall|j: int| 0 <= j < ents0.len() ==> #[trigger] world.entities@[j] == ents0[j],
            forall|j: int|
                0 <= j < entities_of_events(events@.subrange(0, i as int), theme0).len() ==> {
                    let spawned = entities_of_events(events@.subrange(0, i as int), theme0)[j];
                    let e = #[trigger] world.entities@[ents0.len() + j];
                    &&& e.kind == spawned.0
                    &&& e.body.hitbox.x == spawned.1.0
                    &&& e.body.hitbox.y == spawned.1.1
                },
        decreases n - i,
    {
        proof {
            assert(events@.subrange(0, i + 1).drop_last() =~= events@.subrange(0, i as int));
            assert(events@.subrange(0, i + 1).last() == events@[i as int]);
        }
        let event = events[i];
        match event {
            ExtractionEvent::Coin { cell } => {
                score.add_coin();
                let coin = crate::entity::Entity::spawn_coin((cell.0, cell.1 - 1));
                world.entities.push(coin);
            },
            ExtractionEvent::Spawned { kind, cell } => {
                let entity = crate::entity::Entity::spawn(
                    crate::entity::EntityType::Collectible(kind),
                    (cell.0, cell.1 - 1),
                );
                world.entities.push(entity);
            },
            ExtractionEvent::Shattered { kind, cell } => {
                let shard_block = RealBlock {
                    block: Block::new(kind, None),
                    state: BlockState::Static,
                };
                let theme = world.prototype.theme;
                shard_block.spawn_particles(theme, cell, &mut world.entities);
            },
        }
        i = i + 1;
    }
    proof {
        assert(events@.subrange(0, n as int) =~= events@);
    }
}

/// How one live entity reacts to a block bumped beneath it, when its body
/// intersects the cell above the struck block: enemies die, loose special
/// collectibles are tossed upward, everything else is unmoved.
pub open spec fn bumped_entity(e: crate::entity::Entity, hit: bool) -> crate::entity::Entity {
    if hit {
        match e.kind {
            crate::entity::EntityType::Enemy(_) => crate::entity::Entity {
                kind: crate::entity::EntityType::Dead,
                body: crate::physics::PhysicalBody {
                    physics: crate::physics::Physics {
                        mass: crate::fixed::Fx { raw: crate::fixed::FX_ONE },
                        speed: crate::fixed::Vec2 {
                            x: crate::fixed::Fx { raw: 0 },
                            y: crate::fixed::Fx { raw: 0 },
                        },
                    },
                    hitbox: crate::hitbox::Hitbox { x: -100i32, y: -100i32, width: 1u32, height: 1u32 },
                    grounded: false,
                    direction: crate::utility::XDirection::Still,
                },
            },
            crate::entity::EntityType::Collectible(Collectible::Coins(_)) => e,
            crate::entity::EntityType::Collectible(_) => crate::entity::Entity {
                kind: e.kind,
                body: crate::physics::PhysicalBody {
                    physics: crate::physics::Physics {
                        mass: e.body.physics.mass,
                        speed: crate::fixed::Vec2 {
                            x: crate::fixed::Fx {
                                raw: crate::physics::accel_x_spec(
                                    e.body.physics.speed.x.raw as int,
                                    e.body.grounded,
                                    0,
                                ) as i64,
                            },
                            y: crate::fixed::Fx {
                                raw: crate::physics::accel_y_spec(
                                    e.body.physics.speed.y.raw as int,
                                    e.body.physics.mass.raw as int,
                                    e.body.grounded,
                                    -10240,
                                ) as i64,
                            },
                        },
                    },
                    hitbox: e.body.hitbox,
                    grounded: e.body.grounded,
                    direction: e.body.direction,
                },
            },
            _ => e,
        }
    } else {
        e
    }
}

/// React every live entity standing on a bumped cell: the cell above the
/// struck block is tested against each body; enemies die and loose special
/// collectibles are tossed upward.
pub fn bump_entities(world: &mut PlayableLevel, cell: (usize, usize))
    requires
        1 <= cell.1 < crate::level::LEVEL_HEIGHT,
        cell.0 < LEVEL_WIDTH,
        forall|i: int|
            0 <= i < old(world).entities@.len()
                ==> crate::entity::particle_body_in_range(#[trigger] old(world).entities@[i].body),
    ensures
        final(world).prototype == old(world).prototype,
        final(world).blocks == old(world).blocks,
        final(world).clouds == old(world).clouds,
        final(world).entities@.len() == old(world).entities@.len(),
        forall|i: int|
            0 <= i < old(world).entities@.len() ==> #[trigger] final(world).entities@[i]
                == bumped_entity(
                old(world).entities@[i],
                crate::hitbox::overlaps(
                    old(world).entities@[i].body.hitbox,
                    crate::level::cell_hitbox(cell.0 as int, cell.1 - 1),
                ),
            ),
{
    let (x, y) = cell;
    let px = (x as i32) * (crate::block::BLOCK_SIZE as i32);
    let py = ((y - 1) as i32) * (crate::block::BLOCK_SIZE as i32);
    let bump_hitbox = crate::hitbox::Hitbox::new(px, py, crate::block::BLOCK_SIZE,
        crate::block::BLOCK_SIZE);

    let n = world.entities.len();
    let mut i: usize = 0;
    while i < n
        invariant
            i <= n,
            n == world.entities@.len(),
            world.prototype == old(world).prototype,
            world.blocks == old(world).blocks,
            world.clouds == old(world).clouds,
            bump_hitbox == crate::level::cell_hitbox(cell.0 as int, cell.1 - 1),
            forall|j: int|
                i <= j < n ==> #[trigger] world.entities@[j] == old(world).entities@[j],
            forall|j: int|
                0 <= j < i ==> #[trigger] world.entities@[j] == bumped_entity(
                    old(world).entities@[j],
                    crate::hitbox::overlaps(
                        old(world).entities@[j].body.hitbox,
                        crate::level::cell_hitbox(cell.0 as int, cell.1 - 1),
                    ),
                ),
        decreases n - i,
    {
        let entity = world.entities[i];
        if entity.body.hitbox.collides(&bump_hitbox) {
            match entity.kind {
                crate::entity::EntityType::Enemy(_) => {
                    world.entities.set(i, crate::entity::Entity::dead());
                },
                crate::entity::EntityType::Collectible(Collectible::Coins(_)) => {},
                crate::entity::EntityType::Collectible(_) => {
                    let mut body = entity.body;
                    proof {
                        crate::fixed::lemma_scale_contract(
                            body.physics.speed.x.raw as int,
                            crate::physics::AIR_DRAG_RAW as int,
                        );
                        crate::fixed::lemma_scale_contract(
                            body.physics.speed.x.raw as int,
                            (crate::physics::AIR_DRAG_RAW + crate::physics::GROUND_DRAG_RAW) as int,
                        );
                        crate::fixed::lemma_scale_contract(
                            body.physics.speed.y.raw as int,
                            crate::physics::AIR_DRAG_RAW as int,
                        );
                        crate::fixed::lemma_scale_contract(
                            body.physics.mass.raw as int,
                            crate::physics::GRAVITY_RAW as int,
                        );
                    }
                    body.accelerate(
                        crate::fixed::Vec2 {
                            x: crate::fixed::Fx { raw: 0 },
                            y: crate::fixed::Fx { raw: -10240 },
                        },
                    );
                    world.entities.set(i, crate::entity::Entity { kind: entity.kind, body });
                },
                _ => {},
            }
        }
        i = i + 1;
    }
}

/// The reaction state after `k` passes.
pub open spec fn iterate_state(s: BlockState, k: nat) -> BlockState
    decreases k,
{
    if k == 0 {
        s
    } else {
        block_state_step(iterate_state(s, (k - 1) as nat))
    }
}

/// The pop-back offset a state draws, in pixels.
pub open spec fn remaining_of(s: BlockState) -> int {
    match s {
        BlockState::Moving(n) => n as int,
        _ => 0,
    }
}

/// Iterating one more pass is stepping the start first.
proof fn lemma_iterate_shift(s: BlockState, k: nat)
    requires
        k >= 1,
    ensures
        iterate_state(s, k) == iterate_state(block_state_step(s), (k - 1) as nat),
    decreases k,
{
    if k == 1 {
        assert(iterate_state(s, 1nat) == block_state_step(iterate_state(s, 0nat)));
        assert(iterate_state(block_state_step(s), 0nat) == block_state_step(s));
    } else {
        lemma_iterate_shift(s, (k - 1) as nat);
        assert(iterate_state(s, k) == block_state_step(iterate_state(s, (k - 1) as nat)));
        assert(iterate_state(block_state_step(s), (k - 1) as nat) == block_state_step(
            iterate_state(block_state_step(s), (k - 2) as nat),
        ));
    }
}

/// Block decay is deterministic and exact: a cell set to `Moving(n)`
/// reaches offset zero after exactly `ceil(n / BUMP_FALLOFF)` passes and
/// collapses to `Static` on the pass after that.
pub proof fn lemma_block_decay(n: u8)
    ensures
        iterate_state(BlockState::Moving(n), (((n + BUMP_FALLOFF - 1) as int / (
        BUMP_FALLOFF as int)) as nat)) == BlockState::Moving(0),
        iterate_state(BlockState::Moving(n), (((n + BUMP_FALLOFF - 1) as int / (
        BUMP_FALLOFF as int)) + 1) as nat) == BlockState::Static,
    decreases n,
{
    let ceil = (n + BUMP_FALLOFF - 1) as int / (BUMP_FALLOFF as int);
    if n == 0 {
        assert(ceil == 0);
        assert(iterate_state(BlockState::Moving(0), 1nat) == block_state_step(
            BlockState::Moving(0),
        ));
    } else {
        let m: u8 = if n >= BUMP_FALLOFF {
            (n - BUMP_FALLOFF) as u8
        } else {
            0
        };
        assert(block_state_step(BlockState::Moving(n)) == BlockState::Moving(m));
        lemma_block_decay(m);
        let ceil_m = (m + BUMP_FALLOFF - 1) as int / (BUMP_FALLOFF as int);
        assert(ceil == ceil_m + 1);
        lemma_iterate_shift(BlockState::Moving(n), ceil as nat);
        lemma_iterate_shift(BlockState::Moving(n), (ceil + 1) as nat);
    }
}

/// Along a decay, the remaining offset never increases and is never
/// negative: every iterate of `Moving(n)` is `Moving` of at most `n`, or
/// `Static`.
pub proof fn lemma_decay_monotone(n: u8, k: nat)
    ensures
        remaining_of(iterate_state(BlockState::Moving(n), (k + 1) as nat)) <= remaining_of(
            iterate_state(BlockState::Moving(n), k),
        ) <= n,
        0 <= remaining_of(iterate_state(BlockState::Moving(n), k)),
        iterate_state(BlockState::Moving(n), k) is Moving || iterate_state(
            BlockState::Moving(n),
            k,
        ) is Static,
    decreases k,
{
    if k == 0 {
        assert(iterate_state(BlockState::Moving(n), 1nat) == block_state_step(
            BlockState::Moving(n),
        ));
    } else {
        lemma_decay_monotone(n, (k - 1) as nat);
    }
}

} // verus!
