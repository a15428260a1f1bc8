//! The tile grid: a fixed-size arena of cells addressed by `(col, row)`,
//! stored row-major, together with the playable state built from it.

use vstd::prelude::*;

verus! {

use crate::background::BackgroundElement;
use crate::block::{Block, BlockState, BlockType, Collectible, RealBlock, BLOCK_SIZE};
use crate::enemy::EnemyType;
use crate::entity::{Entity, EntityPrototype, EntityType};
use crate::hitbox::Hitbox;

/// Grid height, in cells.
pub const LEVEL_HEIGHT: usize = 20;

/// Grid width, in cells.
pub const LEVEL_WIDTH: usize = 220;

/// Number of cells in a grid.
pub const LEVEL_CELLS: usize = 4400;

/// Flat row-major index of cell `(x, y)`.
pub open spec fn grid_idx(x: int, y: int) -> int {
    y * LEVEL_WIDTH + x
}

/// A level as edited and stored: terrain, decoration, and dormant entities,
/// all addressed row-major on a fixed `LEVEL_HEIGHT` x `LEVEL_WIDTH` grid.
#[derive(Clone)]
pub struct Level {
    pub theme: LevelTheme,
    pub blocks: Vec<Block>,
    pub background: Vec<BackgroundElement>,
    pub entities: Vec<EntityPrototype>,
}

/// The plain-data shape a level is persisted in.
pub struct LevelJSON {
    pub theme: LevelTheme,
    pub blocks: Vec<Block>,
    pub background: Vec<BackgroundElement>,
    pub entities: Vec<EntityPrototype>,
}

/// A level being played: the prototype it came from, live per-cell state,
/// live entities, and decorative clouds.
#[derive(Clone)]
pub struct PlayableLevel {
    pub prototype: Level,
    pub blocks: Vec<RealBlock>,
    pub entities: Vec<Entity>,
    pub clouds: Vec<Cloud>,
}

/// A decorative background cloud.
#[derive(Clone, Copy, Debug)]
pub struct Cloud {
    pub position: (i32, i32),
    pub is_small: bool,
}

/// The palette a level is drawn in.
#[derive(Clone, Copy, Debug, PartialEq, Eq, Structural)]
pub enum LevelTheme {
    Day,
    Underground,
    Night,
}

impl LevelTheme {
    /// The next theme in cycling order.
    pub fn next(self) -> (r: LevelTheme)
        ensures
            r == (match self {
                LevelTheme::Day => LevelTheme::Underground,
                LevelTheme::Underground => LevelTheme::Night,
                LevelTheme::Night => LevelTheme::Day,
            }),
    {
        match self {
            LevelTheme::Day => LevelTheme::Underground,
            LevelTheme::Underground => LevelTheme::Night,
            LevelTheme::Night => LevelTheme::Day,
        }
    }

    /// The previous theme in cycling order.
    pub fn prev(self) -> (r: LevelTheme)
        ensures
            r == (match self {
                LevelTheme::Day => LevelTheme::Night,
                LevelTheme::Underground => LevelTheme::Day,
                LevelTheme::Night => LevelTheme::Underground,
            }),
    {
        match self {
            LevelTheme::Day => LevelTheme::Night,
            LevelTheme::Underground => LevelTheme::Day,
            LevelTheme::Night => LevelTheme::Underground,
        }
    }
}

impl Level {
    /// A properly sized grid.
    pub open spec fn wf(self) -> bool {
        &&& self.blocks@.len() == LEVEL_CELLS
        &&& self.background@.len() == LEVEL_CELLS
    }

    /// Terrain of a fresh level: two ground rows along the bottom, air
    /// everywhere else.
    pub open spec fn initial_kind(x: int, y: int) -> BlockType {
        if y == LEVEL_HEIGHT - 2 {
            if x == 0 {
                BlockType::GroundLeft
            } else if x == LEVEL_WIDTH - 1 {
                BlockType::GroundRight
            } else {
                BlockType::GroundMiddle
            }
        } else if y == LEVEL_HEIGHT - 1 {
            if x == 0 {
                BlockType::GroundBottomLeft
            } else if x == LEVEL_WIDTH - 1 {
                BlockType::GroundBottomRight
            } else {
                BlockType::GroundBottomMiddle
            }
        } else {
            BlockType::Air
        }
    }

    /// A fresh level: flat ground, empty background, and the end-of-level
    /// flag far to the right.
    pub fn new() -> (r: Level)
        ensures
            r.wf(),
            r.theme == LevelTheme::Day,
            forall|x: int, y: int|
                0 <= x < LEVEL_WIDTH && 0 <= y < LEVEL_HEIGHT ==> r.blocks@[grid_idx(x, y)]
                    == (Block { kind: Level::initial_kind(x, y), contents: None }),
            forall|i: int| 0 <= i < LEVEL_CELLS ==> r.background@[i] == BackgroundElement::Air,
            r.entities@.len() == 1,
            r.entities@[0].kind is EndFlag,
            r.entities@[0].position == (11840i32, 512i32),
    {
        let blocks = Level::init_blocks();
        let background = Level::default_background();

        let flag_pole = EntityPrototype::new(EntityType::EndFlag, (11840, 512));
        let mut entities: Vec<EntityPrototype> = Vec::new();
        entities.push(flag_pole);

        Level { blocks, theme: LevelTheme::Day, background, entities }
    }

    /// A grid of air blocks.
    fn default_blocks() -> (r: Vec<Block>)
        ensures
            r@.len() == LEVEL_CELLS,
            forall|i: int|
                0 <= i < LEVEL_CELLS ==> r@[i] == (Block {
                    kind: BlockType::Air,
                    contents: None,
                }),
    {
        let mut blocks: Vec<Block> = Vec::new();
        let mut i: usize = 0;
        while i < LEVEL_CELLS
            invariant
                i <= LEVEL_CELLS,
                blocks@.len() == i,
                forall|j: int|
                    0 <= j < i ==> blocks@[j] == (Block { kind: BlockType::Air, contents: None }),
            decreases LEVEL_CELLS - i,
        {
            blocks.push(Block::new(BlockType::Air, None));
            i = i + 1;
        }
        blocks
    }

    /// An empty background grid.
    fn default_background() -> (r: Vec<BackgroundElement>)
        ensures
            r@.len() == LEVEL_CELLS,
            forall|i: int| 0 <= i < LEVEL_CELLS ==> r@[i] == BackgroundElement::Air,
    {
        let mut bg: Vec<BackgroundElement> = Vec::new();
        let mut i: usize = 0;
        while i < LEVEL_CELLS
            invariant
                i <= LEVEL_CELLS,
                bg@.len() == i,
                forall|j: int| 0 <= j < i ==> bg@[j] == BackgroundElement::Air,
            decreases LEVEL_CELLS - i,
        {
            bg.push(BackgroundElement::Air);
            i = i + 1;
        }
        bg
    }

    /// The terrain of a fresh level.
    fn init_blocks() -> (r: Vec<Block>)
        ensures
            r@.len() == LEVEL_CELLS,
            forall|x: int, y: int|
                0 <= x < LEVEL_WIDTH && 0 <= y < LEVEL_HEIGHT ==> #[trigger] r@[grid_idx(x, y)]
                    == (Block { kind: Level::initial_kind(x, y), contents: None }),
    {
        let mut blocks: Vec<Block> = Vec::new();
        let mut y: usize = 0;
        while y < LEVEL_HEIGHT
            invariant
                y <= LEVEL_HEIGHT,
                blocks@.len() == y * LEVEL_WIDTH,
                forall|x2: int, y2: int|
                    0 <= x2 < LEVEL_WIDTH && 0 <= y2 < y ==> #[trigger] blocks@[grid_idx(x2, y2)]
                        == (Block { kind: Level::initial_kind(x2, y2), contents: None }),
            decreases LEVEL_HEIGHT - y,
        {
            let mut x: usize = 0;
            while x < LEVEL_WIDTH
                invariant
                    x <= LEVEL_WIDTH,
                    y < LEVEL_HEIGHT,
                    blocks@.len() == y * LEVEL_WIDTH + x,
                    forall|x2: int, y2: int|
                        0 <= x2 < LEVEL_WIDTH && 0 <= y2 < y ==> #[trigger] blocks@[grid_idx(
                            x2,
                            y2,
                        )] == (Block { kind: Level::initial_kind(x2, y2), contents: None }),
                    forall|x2: int|
                        0 <= x2 < x ==> #[trigger] blocks@[grid_idx(x2, y as int)] == (Block {
                            kind: Level::initial_kind(x2, y as int),
                            contents: None,
                        }),
                decreases LEVEL_WIDTH - x,
            {
                let kind = if y == LEVEL_HEIGHT - 2 {
                    if x == 0 {
                        BlockType::GroundLeft
                    } else if x == LEVEL_WIDTH - 1 {
                        BlockType::GroundRight
                    } else {
                        BlockType::GroundMiddle
                    }
                } else if y == LEVEL_HEIGHT - 1 {
                    if x == 0 {
                        BlockType::GroundBottomLeft
                    } else if x == LEVEL_WIDTH - 1 {
                        BlockType::GroundBottomRight
                    } else {
                        BlockType::GroundBottomMiddle
                    }
                } else {
                    BlockType::Air
                };
                blocks.push(Block::new(kind, None));
                x = x + 1;
            }
            y = y + 1;
        }
        blocks
    }

    pub fn get_bg(&mut self, pos: (usize, usize)) -> (r: BackgroundElement)
        requires
            old(self).wf(),
            pos.0 < LEVEL_WIDTH,
            pos.1 < LEVEL_HEIGHT,
        ensures
            *final(self) == *old(self),
            r == old(self).background@[grid_idx(pos.0 as int, pos.1 as int)],
    {
        let (x, y) = pos;
        self.background[y * LEVEL_WIDTH + x]
    }

    pub fn set_bg(&mut self, pos: (usize, usize), bg: BackgroundElement)
        requires
            old(self).wf(),
            pos.0 < LEVEL_WIDTH,
            pos.1 < LEVEL_HEIGHT,
        ensures
            final(self).wf(),
            final(self).background@ == old(self).background@.update(
                grid_idx(pos.0 as int, pos.1 as int),
                bg,
            ),
            final(self).blocks == old(self).blocks,
            final(self).theme == old(self).theme,
            final(self).entities == old(self).entities,
    {
        let (x, y) = pos;
        self.background.set(y * LEVEL_WIDTH + x, bg);
    }

    pub fn get_block(&mut self, pos: (usize, usize)) -> (r: Block)
        requires
            old(self).wf(),
            pos.0 < LEVEL_WIDTH,
            pos.1 < LEVEL_HEIGHT,
        ensures
            *final(self) == *old(self),
            r == old(self).blocks@[grid_idx(pos.0 as int, pos.1 as int)],
    {
        let (x, y) = pos;
        self.blocks[y * LEVEL_WIDTH + x]
    }

    pub fn set_block(&mut self, pos: (usize, usize), block: Block)
        requires
            old(self).wf(),
            pos.0 < LEVEL_WIDTH,
            pos.1 < LEVEL_HEIGHT,
        ensures
            final(self).wf(),
            final(self).blocks@ == old(self).blocks@.update(
                grid_idx(pos.0 as int, pos.1 as int),
                block,
            ),
            final(self).background == old(self).background,
            final(self).theme == old(self).theme,
            final(self).entities == old(self).entities,
    {
        let (x, y) = pos;
        self.blocks.set(y * LEVEL_WIDTH + x, block);
    }

    /// Put a collectible into the block at `pos`; coins pile up on coins.
    pub fn fill_block(&mut self, pos: (usize, usize), item: Collectible)
        requires
            old(self).wf(),
            pos.0 < LEVEL_WIDTH,
            pos.1 < LEVEL_HEIGHT,
            item != Collectible::Coins(0),
        ensures
            final(self).wf(),
            final(self).blocks@.len() == LEVEL_CELLS,
            ({
                let idx = grid_idx(pos.0 as int, pos.1 as int);
                let b = old(self).blocks@[idx];
                final(self).blocks@ == old(self).blocks@.update(
                    idx,
                    Block {
                        kind: b.kind,
                        contents: match (b.contents, item) {
                            (
                                Some(Collectible::Coins(n)),
                                Collectible::Coins(m),
                            ) => if n + m > u8::MAX {
                                Some(Collectible::Coins(u8::MAX))
                            } else {
                                Some(Collectible::Coins((n + m) as u8))
                            },
                            _ => Some(item),
                        },
                    },
                )
            }),
            final(self).background == old(self).background,
            final(self).theme == old(self).theme,
            final(self).entities == old(self).entities,
    {
        let (x, y) = pos;
        let mut block = self.blocks[y * LEVEL_WIDTH + x];
        block.insert_item(item);
        self.blocks.set(y * LEVEL_WIDTH + x, block);
    }

    /// Take one unit out of the block at `pos`.
    pub fn remove_block_contents(&mut self, pos: (usize, usize))
        requires
            old(self).wf(),
            pos.0 < LEVEL_WIDTH,
            pos.1 < LEVEL_HEIGHT,
        ensures
            final(self).wf(),
            ({
                let idx = grid_idx(pos.0 as int, pos.1 as int);
                let b = old(self).blocks@[idx];
                final(self).blocks@ == old(self).blocks@.update(
                    idx,
                    Block {
                        kind: b.kind,
                        contents: match b.contents {
                            Some(Collectible::Coins(n)) => if n > 1 {
                                Some(Collectible::Coins((n - 1) as u8))
                            } else {
                                None
                            },
                            _ => None,
                        },
                    },
                )
            }),
            final(self).background == old(self).background,
            final(self).theme == old(self).theme,
            final(self).entities == old(self).entities,
    {
        let (x, y) = pos;
        let mut block = self.blocks[y * LEVEL_WIDTH + x];
        block.delete_item();
        self.blocks.set(y * LEVEL_WIDTH + x, block);
    }

    pub fn insert_entity(&mut self, entity: EntityPrototype)
        ensures
            final(self).entities@ == old(self).entities@.push(entity),
            final(self).blocks == old(self).blocks,
            final(self).background == old(self).background,
            final(self).theme == old(self).theme,
    {
        self.entities.push(entity);
    }

    /// Remove every dormant entity at exactly `pos`.
    pub fn remove_entity(&mut self, pos: (i32, i32))
        ensures
            final(self).entities@ == entities_without(old(self).entities@, pos),
            final(self).blocks == old(self).blocks,
            final(self).background == old(self).background,
            final(self).theme == old(self).theme,
    {
        let mut kept: Vec<EntityPrototype> = Vec::new();
        let mut i: usize = 0;
        let n = self.entities.len();
        while i < n
            invariant
                i <= n,
                n == self.entities@.len(),
                self.entities == old(self).entities,
                self.blocks == old(self).blocks,
                self.background == old(self).background,
                self.theme == old(self).theme,
                kept@ == entities_without(self.entities@.subrange(0, i as int), pos),
            decreases n - i,
        {
            let e = self.entities[i];
            proof {
                assert(self.entities@.subrange(0, i + 1).drop_last() =~= self.entities@.subrange(
                    0,
                    i as int,
                ));
                assert(self.entities@.subrange(0, i + 1).last() == self.entities@[i as int]);
            }
            if !(e.position.0 == pos.0 && e.position.1 == pos.1) {
                kept.push(e);
            }
            i = i + 1;
        }
        proof {
            assert(self.entities@.subrange(0, n as int) =~= self.entities@);
        }
        self.entities = kept;
    }

    /// The enemy of the first dormant entity at `pos`, a goomba if there is
    /// none or it is no enemy.
    pub fn get_entity(&mut self, pos: (i32, i32)) -> (r: EnemyType)
        ensures
            *final(self) == *old(self),
            r == (match first_entity_at(old(self).entities@, pos) {
                Some(e) => match e.kind {
                    EntityType::Enemy(enemy) => enemy,
                    _ => EnemyType::Goomba,
                },
                None => EnemyType::Goomba,
            }),
    {
        let n = self.entities.len();
        proof {
            assert(self.entities@.subrange(0, n as int) =~= self.entities@);
        }
        let mut i: usize = 0;
        while i < n
            invariant
                i <= n,
                n == self.entities@.len(),
                first_entity_at(self.entities@, pos) == first_entity_at(
                    self.entities@.subrange(i as int, n as int),
                    pos,
                ),
            decreases n - i,
        {
            let e = self.entities[i];
            proof {
                assert(self.entities@.subrange(i as int, n as int)[0] == self.entities@[i as int]);
            }
            if e.position.0 == pos.0 && e.position.1 == pos.1 {
                match e.kind {
                    EntityType::Enemy(enemy) => {
                        return enemy;
                    },
                    _ => {
                        return EnemyType::Goomba;
                    },
                }
            }
            proof {
                assert(self.entities@.subrange(i as int, n as int).drop_first()
                    =~= self.entities@.subrange(i + 1, n as int));
            }
            i = i + 1;
        }
        proof {
            assert(self.entities@.subrange(n as int, n as int).len() == 0);
        }
        EnemyType::Goomba
    }

    /// Rebuild a level from its persisted shape.  The terrain must be
    /// exactly one grid; a short background is padded with air.
    pub fn from_json(json: LevelJSON) -> (r: Level)
        requires
            json.blocks@.len() == LEVEL_CELLS,
            json.background@.len() <= LEVEL_CELLS,
        ensures
            r.wf(),
            r.theme == json.theme,
            r.blocks@ == json.blocks@,
            r.entities@ == json.entities@,
            forall|i: int|
                0 <= i < json.background@.len() ==> r.background@[i] == json.background@[i],
            forall|i: int|
                json.background@.len() <= i < LEVEL_CELLS ==> r.background@[i]
                    == BackgroundElement::Air,
    {
        let mut background = Level::default_background();
        let mut i: usize = 0;
        let n = json.background.len();
        while i < n
            invariant
                i <= n,
                n == json.background@.len(),
                n <= LEVEL_CELLS,
                background@.len() == LEVEL_CELLS,
                forall|j: int| 0 <= j < i ==> background@[j] == json.background@[j],
                forall|j: int| i <= j < LEVEL_CELLS ==> background@[j] == BackgroundElement::Air,
            decreases n - i,
        {
            background.set(i, json.background[i]);
            i = i + 1;
        }

        Level { theme: json.theme, blocks: json.blocks, background, entities: json.entities }
    }
}

impl LevelJSON {
    /// The persisted shape of a level.
    pub fn from_level(lvl: &Level) -> (r: LevelJSON)
        ensures
            r.theme == lvl.theme,
            r.blocks@ == lvl.blocks@,
            r.background@ == lvl.background@,
            r.entities@ == lvl.entities@,
    {
        LevelJSON {
            theme: lvl.theme,
            blocks: lvl.blocks.clone(),
            background: lvl.background.clone(),
            entities: lvl.entities.clone(),
        }
    }
}

/// `s` with every prototype at exactly `pos` removed, order kept.
pub open spec fn entities_without(s: Seq<EntityPrototype>, pos: (i32, i32)) -> Seq<EntityPrototype>
    decreases s.len(),
{
    if s.len() == 0 {
        Seq::empty()
    } else {
        let rest = entities_without(s.drop_last(), pos);
        if s.last().position != pos {
            rest.push(s.last())
        } else {
            rest
        }
    }
}

/// The first prototype in `s` at exactly `pos`.
pub open spec fn first_entity_at(s: Seq<EntityPrototype>, pos: (i32, i32)) -> Option<
    EntityPrototype,
>
    decreases s.len(),
{
    if s.len() == 0 {
        None
    } else if s[0].position == pos {
        Some(s[0])
    } else {
        first_entity_at(s.drop_first(), pos)
    }
}

/// The rectangle the solid block at cell `(x, y)` occupies.
pub open spec fn cell_hitbox(x: int, y: int) -> Hitbox {
    Hitbox {
        x: (x * BLOCK_SIZE) as i32,
        y: (y * BLOCK_SIZE) as i32,
        width: BLOCK_SIZE,
        height: BLOCK_SIZE,
    }
}

impl PlayableLevel {
    /// A properly sized grid.
    pub open spec fn wf(self) -> bool {
        self.blocks@.len() == LEVEL_CELLS
    }

    /// Whether the cell at `(x, y)` is solid.  A cell's solidity depends on
    /// its block's kind alone, never on its reaction state.
    pub open spec fn solid_at(self, x: int, y: int) -> bool {
        self.blocks@[grid_idx(x, y)].block.kind != BlockType::Air
    }

    /// The hitbox of the cell at `(x, y)`, if it is solid.
    pub fn block_hitbox(&self, x: usize, y: usize) -> (r: Option<Hitbox>)
        requires
            self.wf(),
            x < LEVEL_WIDTH,
            y < LEVEL_HEIGHT,
        ensures
            r == (if self.solid_at(x as int, y as int) {
                Some(cell_hitbox(x as int, y as int))
            } else {
                None::<Hitbox>
            }),
    {
        let block = self.blocks[y * LEVEL_WIDTH + x];
        if block.block.is_collidable() {
            Some(Block::hitbox(x, y))
        } else {
            None
        }
    }

    /// Start playing `lvl`: every cell gets a static reaction state, every
    /// dormant entity wakes, and a random scatter of clouds is drawn up.
    pub fn from_level(lvl: Level) -> (r: PlayableLevel)
        requires
            lvl.wf(),
            forall|i: int| 0 <= i < lvl.entities@.len() ==> !(lvl.entities@[i].kind is Enemy),
        ensures
            r.wf(),
            r.prototype == lvl,
            r.blocks@.len() == LEVEL_CELLS,
            forall|i: int|
                0 <= i < LEVEL_CELLS ==> r.blocks@[i] == (RealBlock {
                    block: lvl.blocks@[i],
                    state: BlockState::Static,
                }),
            r.entities@.len() == lvl.entities@.len(),
            forall|i: int|
                0 <= i < lvl.entities@.len() ==> {
                    &&& r.entities@[i].kind == lvl.entities@[i].kind
                    &&& r.entities@[i].body.hitbox == crate::entity::prototype_hitbox(
                        lvl.entities@[i],
                    )
                    &&& r.entities@[i].body.physics.speed.x.raw == 0
                    &&& r.entities@[i].body.physics.speed.y.raw == 0
                },
            forall|i: int|
                0 <= i < r.clouds@.len() ==> {
                    &&& 0 <= #[trigger] r.clouds@[i].position.0 < 14735
                    &&& 0 <= r.clouds@[i].position.1 < 854
                },
    {
        let mut blocks: Vec<RealBlock> = Vec::new();
        let mut i: usize = 0;
        while i < LEVEL_CELLS
            invariant
                i <= LEVEL_CELLS,
                lvl.blocks@.len() == LEVEL_CELLS,
                blocks@.len() == i,
                forall|j: int|
                    0 <= j < i ==> blocks@[j] == (RealBlock {
                        block: lvl.blocks@[j],
                        state: BlockState::Static,
                    }),
            decreases LEVEL_CELLS - i,
        {
            blocks.push(RealBlock::from(lvl.blocks[i]));
            i = i + 1;
        }

        let mut entities: Vec<Entity> = Vec::new();
        let mut k: usize = 0;
        let n = lvl.entities.len();
        while k < n
            invariant
                k <= n,
                n == lvl.entities@.len(),
                forall|j: int| 0 <= j < n ==> !(lvl.entities@[j].kind is Enemy),
                entities@.len() == k,
                forall|j: int|
                    0 <= j < k ==> {
                        &&& entities@[j].kind == lvl.entities@[j].kind
                        &&& entities@[j].body.hitbox == crate::entity::prototype_hitbox(
                            lvl.entities@[j],
                        )
                        &&& entities@[j].body.physics.speed.x.raw == 0
                        &&& entities@[j].body.physics.speed.y.raw == 0
                    },
            decreases n - k,
        {
            entities.push(Entity::from_prototype(lvl.entities[k]));
            k = k + 1;
        }

        let clouds = generate_clouds();

        PlayableLevel { blocks, prototype: lvl, entities, clouds }
    }
}

/// A random scatter of clouds across the level's sky.
fn generate_clouds() -> (r: Vec<Cloud>)
    ensures
        forall|i: int|
            0 <= i < r@.len() ==> {
                &&& 0 <= #[trigger] r@[i].position.0 < 14735
                &&& 0 <= r@[i].position.1 < 854
            },
{
    let step: i32 = 200;
    let level_px: i32 = (LEVEL_WIDTH as i32) * (BLOCK_SIZE as i32);
    let max_y: i64 = ((LEVEL_HEIGHT as i32) * (BLOCK_SIZE as i32) * 2 / 3) as i64;
    let mut x: i32 = 0;
    let mut clouds: Vec<Cloud> = Vec::new();

    while x < level_px
        invariant
            level_px == 14080,
            max_y == 853,
            0 <= x <= 14080 + 655,
            forall|i: int|
                0 <= i < clouds@.len() ==> {
                    &&& 0 <= #[trigger] clouds@[i].position.0 < 14735
                    &&& 0 <= clouds@[i].position.1 < 854
                },
        decreases level_px + 656 - x,
    {
        let jitter = crate::rng::gen_range_i64(0, 256) as i32;
        x = x + step + jitter;

        let y = crate::rng::gen_range_i64(0, max_y) as i32;
        let is_small: bool = crate::rng::random_bool();

        if !is_small {
            x = x + step;
        }

        let cloud = Cloud { position: (x, y), is_small };

        clouds.push(cloud);
    }
    clouds
}

} // verus!
