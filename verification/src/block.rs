//! Terrain blocks: their kinds, their optional contents, and the
//! per-cell reaction state driving the pop-back animation after a bump.

use vstd::prelude::*;

verus! {

use crate::hitbox::Hitbox;
use crate::level::LevelTheme;

/// Side length of a grid cell, in pixels.
pub const BLOCK_SIZE: u32 = 64;

/// A terrain block: its kind and whatever collectible it holds.
#[derive(Clone, Copy, Debug)]
pub struct Block {
    pub kind: BlockType,
    pub contents: Option<Collectible>,
}

/// A block as it exists during play: the block plus its reaction state.
#[derive(Clone, Copy, Debug)]
pub struct RealBlock {
    pub block: Block,
    pub state: BlockState,
}

/// Reaction state of a cell.  `Bumped` is transient: the grid update pass
/// that observes it converts it to `Moving` in the same pass.  `Moving(n)`
/// draws the block `n` pixels above its resting position; its collision
/// geometry never moves.
#[derive(Clone, Copy, Debug, PartialEq, Eq, Structural)]
pub enum BlockState {
    Static,
    Bumped,
    Moving(u8),
}

/// Every kind of terrain block.
#[derive(Clone, Copy, Debug, PartialEq, Eq, Hash, Structural)]
pub enum BlockType {
    Bricks,
    SolidBox,
    Rock,
    RockLeft,
    RockMiddle,
    RockRight,
    Ground,
    GroundLeft,
    GroundMiddle,
    GroundRight,
    GroundBottom,
    GroundBottomLeft,
    GroundBottomMiddle,
    GroundBottomRight,
    QuestionMarkEmpty,
    QuestionMark,
    PipeUpperLeft,
    PipeUpperRight,
    PipeLowerLeft,
    PipeLowerRight,
    PipeSidewaysLeftBottom,
    PipeSidewaysLeftUpper,
    PipeSidewaysRightBottom,
    PipeSidewaysRightUpper,
    PipeJunctionLower,
    PipeJunctionUpper,
    TreeLeafsLeft,
    TreeLeafsMiddle,
    TreeLeafsRight,
    Air,
}

/// A block together with the level theme it is drawn in.
pub struct ThemedBlock {
    pub block: Block,
    pub theme: LevelTheme,
}

/// What a block can hold and yield when bumped.
#[derive(Clone, Copy, Debug, PartialEq, Eq, Hash, Structural)]
pub enum Collectible {
    Coins(u8),
    Mushroom,
    Star,
    Flower,
}

/// Position of each kind in the editor's cycling order; `Air` is last and
/// is skipped when cycling.
pub open spec fn kind_index_of(t: BlockType) -> int {
    match t {
        BlockType::Bricks => 0,
        BlockType::SolidBox => 1,
        BlockType::Rock => 2,
        BlockType::RockLeft => 3,
        BlockType::RockMiddle => 4,
        BlockType::RockRight => 5,
        BlockType::Ground => 6,
        BlockType::GroundLeft => 7,
        BlockType::GroundMiddle => 8,
        BlockType::GroundRight => 9,
        BlockType::GroundBottom => 10,
        BlockType::GroundBottomLeft => 11,
        BlockType::GroundBottomMiddle => 12,
        BlockType::GroundBottomRight => 13,
        BlockType::QuestionMarkEmpty => 14,
        BlockType::QuestionMark => 15,
        BlockType::PipeUpperLeft => 16,
        BlockType::PipeUpperRight => 17,
        BlockType::PipeLowerLeft => 18,
        BlockType::PipeLowerRight => 19,
        BlockType::PipeSidewaysLeftBottom => 20,
        BlockType::PipeSidewaysLeftUpper => 21,
        BlockType::PipeSidewaysRightBottom => 22,
        BlockType::PipeSidewaysRightUpper => 23,
        BlockType::PipeJunctionLower => 24,
        BlockType::PipeJunctionUpper => 25,
        BlockType::TreeLeafsLeft => 26,
        BlockType::TreeLeafsMiddle => 27,
        BlockType::TreeLeafsRight => 28,
        BlockType::Air => 29,
    }
}

/// Number of kinds that take part in cycling (`Air` does not).
pub const MAX_BLOCK: u8 = 29;

impl Block {
    /// The rectangle a block at cell `(x, y)` occupies on the pixel grid.
    pub fn hitbox(x: usize, y: usize) -> (r: Hitbox)
        requires
            x * BLOCK_SIZE + BLOCK_SIZE <= i32::MAX,
            y * BLOCK_SIZE + BLOCK_SIZE <= i32::MAX,
        ensures
            r == (Hitbox {
                x: (x * BLOCK_SIZE) as i32,
                y: (y * BLOCK_SIZE) as i32,
                width: BLOCK_SIZE,
                height: BLOCK_SIZE,
            }),
    {
        let px = x as i32 * BLOCK_SIZE as i32;
        let py = y as i32 * BLOCK_SIZE as i32;
        Hitbox::new(px, py, BLOCK_SIZE, BLOCK_SIZE)
    }

    /// The kind the editor offers first when a cell is made visible.
    pub fn default_visible() -> (r: Self)
        ensures
            r.kind == BlockType::Bricks,
            r.contents is None,
    {
        Self::from(BlockType::Bricks)
    }

    pub fn new(kind: BlockType, contents: Option<Collectible>) -> (r: Self)
        ensures
            r.kind == kind,
            r.contents == contents,
    {
        Block { kind, contents }
    }

    /// Whether bodies collide with this block.
    pub fn is_collidable(self) -> (r: bool)
        ensures
            r == (self.kind != BlockType::Air),
    {
        self.kind.is_collidable()
    }

    /// Whether the block holds nothing.
    pub fn is_empty(self) -> (r: bool)
        ensures
            r == (self.contents is None),
    {
        self.contents.is_none()
    }

    /// Whether a bump from below sets this block in motion.
    pub fn is_bumpable(self) -> (r: bool)
        ensures
            r == (self.kind == BlockType::Bricks || self.kind == BlockType::QuestionMark),
    {
        self.kind().is_bumpable()
    }

    pub fn kind(self) -> (r: BlockType)
        ensures
            r == self.kind,
    {
        self.kind
    }

    pub fn set_kind(&mut self, kind: BlockType)
        ensures
            final(self).kind == kind,
            final(self).contents == old(self).contents,
    {
        self.kind = kind;
    }

    /// The block of the next kind in the editor's cycling order, emptied.
    pub fn next_kind(self) -> (r: Block)
        ensures
            kind_index_of(r.kind) == (kind_index_of(self.kind) + 1) % (MAX_BLOCK as int),
            r.contents is None,
    {
        Block::from(self.kind.next())
    }

    /// The block of the previous kind in the editor's cycling order, emptied.
    pub fn prev_kind(self) -> (r: Block)
        ensures
            kind_index_of(r.kind) == if kind_index_of(self.kind) == 0 {
                MAX_BLOCK as int - 1
            } else {
                kind_index_of(self.kind) - 1
            },
            r.contents is None,
    {
        Block::from(self.kind.prev())
    }

    /// Put a collectible into the block.  Coins pile up on coins, saturating
    /// at the counter's maximum; anything else replaces what was there.
    pub fn insert_item(&mut self, item: Collectible)
        requires
            item != Collectible::Coins(0),
        ensures
            final(self).kind == old(self).kind,
            final(self).contents == (match (old(self).contents, item) {
                (Some(Collectible::Coins(n)), Collectible::Coins(m)) => if n + m > u8::MAX {
                    Some(Collectible::Coins(u8::MAX))
                } else {
                    Some(Collectible::Coins((n + m) as u8))
                },
                _ => Some(item),
            }),
    {
        self.contents = match (self.contents, item) {
            (Some(Collectible::Coins(n)), Collectible::Coins(m)) => {
                if u8::MAX - n < m {
                    Some(Collectible::Coins(u8::MAX))
                } else {
                    Some(Collectible::Coins(n + m))
                }
            },
            (_, item) => Some(item),
        }
    }

    /// Take one unit out of the block: one coin off a pile of several,
    /// everything otherwise.
    pub fn delete_item(&mut self)
        ensures
            final(self).kind == old(self).kind,
            final(self).contents == (match old(self).contents {
                Some(Collectible::Coins(n)) => if n > 1 {
                    Some(Collectible::Coins((n - 1) as u8))
                } else {
                    None::<Collectible>
                },
                _ => None::<Collectible>,
            }),
    {
        self.contents = match self.contents {
            Some(Collectible::Coins(n)) if n > 1 => {
                Some(Collectible::Coins(n - 1))
            },
            _ => None,
        }
    }

    /// Whether anything is drawn for this block.
    pub fn is_visible(self) -> (r: bool)
        ensures
            r == (self.kind != BlockType::Air),
    {
        self.kind.is_visible()
    }

    pub fn get_contents(self) -> (r: Option<Collectible>)
        ensures
            r == self.contents,
    {
        self.contents
    }
}

impl From<Block> for RealBlock {
    fn from(block: Block) -> RealBlock {
        RealBlock { block, state: BlockState::Static }
    }
}

impl vstd::std_specs::convert::FromSpecImpl<Block> for RealBlock {
    open spec fn obeys_from_spec() -> bool {
        true
    }

    open spec fn from_spec(block: Block) -> RealBlock {
        RealBlock { block, state: BlockState::Static }
    }
}

impl From<BlockType> for Block {
    fn from(block_type: BlockType) -> Block {
        Block { kind: block_type, contents: None }
    }
}

impl vstd::std_specs::convert::FromSpecImpl<BlockType> for Block {
    open spec fn obeys_from_spec() -> bool {
        true
    }

    open spec fn from_spec(block_type: BlockType) -> Block {
        Block { kind: block_type, contents: None }
    }
}

impl Default for RealBlock {
    fn default() -> (r: Self)
        ensures
            r.block.kind == BlockType::Air,
            r.block.contents is None,
            r.state == BlockState::Static,
    {
        RealBlock { block: Block { kind: BlockType::Air, contents: None }, state: BlockState::Static }
    }
}

impl Default for Block {
    fn default() -> (r: Block)
        ensures
            r.kind == BlockType::Air,
            r.contents is None,
    {
        Block::from(BlockType::Air)
    }
}

impl Default for BlockType {
    fn default() -> (r: Self)
        ensures
            r == BlockType::Air,
    {
        BlockType::Air
    }
}

impl BlockType {
    fn index(self) -> (r: u8)
        ensures
            r as int == kind_index_of(self),
    {
        match self {
            BlockType::Bricks => 0,
            BlockType::SolidBox => 1,
            BlockType::Rock => 2,
            BlockType::RockLeft => 3,
            BlockType::RockMiddle => 4,
            BlockType::RockRight => 5,
            BlockType::Ground => 6,
            BlockType::GroundLeft => 7,
            BlockType::GroundMiddle => 8,
            BlockType::GroundRight => 9,
            BlockType::GroundBottom => 10,
            BlockType::GroundBottomLeft => 11,
            BlockType::GroundBottomMiddle => 12,
            BlockType::GroundBottomRight => 13,
            BlockType::QuestionMarkEmpty => 14,
            BlockType::QuestionMark => 15,
            BlockType::PipeUpperLeft => 16,
            BlockType::PipeUpperRight => 17,
            BlockType::PipeLowerLeft => 18,
            BlockType::PipeLowerRight => 19,
            BlockType::PipeSidewaysLeftBottom => 20,
            BlockType::PipeSidewaysLeftUpper => 21,
            BlockType::PipeSidewaysRightBottom => 22,
            BlockType::PipeSidewaysRightUpper => 23,
            BlockType::PipeJunctionLower => 24,
            BlockType::PipeJunctionUpper => 25,
            BlockType::TreeLeafsLeft => 26,
            BlockType::TreeLeafsMiddle => 27,
            BlockType::TreeLeafsRight => 28,
            BlockType::Air => 29,
        }
    }

    fn from_index(id: u8) -> (r: BlockType)
        requires
            id <= 29,
        ensures
            kind_index_of(r) == id as int,
    {
        match id {
            0 => BlockType::Bricks,
            1 => BlockType::SolidBox,
            2 => BlockType::Rock,
            3 => BlockType::RockLeft,
            4 => BlockType::RockMiddle,
            5 => BlockType::RockRight,
            6 => BlockType::Ground,
            7 => BlockType::GroundLeft,
            8 => BlockType::GroundMiddle,
            9 => BlockType::GroundRight,
            10 => BlockType::GroundBottom,
            11 => BlockType::GroundBottomLeft,
            12 => BlockType::GroundBottomMiddle,
            13 => BlockType::GroundBottomRight,
            14 => BlockType::QuestionMarkEmpty,
            15 => BlockType::QuestionMark,
            16 => BlockType::PipeUpperLeft,
            17 => BlockType::PipeUpperRight,
            18 => BlockType::PipeLowerLeft,
            19 => BlockType::PipeLowerRight,
            20 => BlockType::PipeSidewaysLeftBottom,
            21 => BlockType::PipeSidewaysLeftUpper,
            22 => BlockType::PipeSidewaysRightBottom,
            23 => BlockType::PipeSidewaysRightUpper,
            24 => BlockType::PipeJunctionLower,
            25 => BlockType::PipeJunctionUpper,
            26 => BlockType::TreeLeafsLeft,
            27 => BlockType::TreeLeafsMiddle,
            28 => BlockType::TreeLeafsRight,
            _ => BlockType::Air,
        }
    }

    /// The next kind in the editor's cycling order, skipping `Air`.
    fn next(self) -> (r: BlockType)
        ensures
            kind_index_of(r) == (kind_index_of(self) + 1) % (MAX_BLOCK as int),
    {
        let next_id = (self.index() + 1) % MAX_BLOCK;
        Self::from_index(next_id)
    }

    /// The previous kind in the editor's cycling order, skipping `Air`.
    fn prev(self) -> (r: BlockType)
        ensures
            kind_index_of(r) == if kind_index_of(self) == 0 {
                MAX_BLOCK as int - 1
            } else {
                kind_index_of(self) - 1
            },
    {
        let id = self.index();
        let prev_id = if id == 0 {
            MAX_BLOCK - 1
        } else {
            id - 1
        };
        Self::from_index(prev_id)
    }

    fn is_visible(self) -> (r: bool)
        ensures
            r == (self != BlockType::Air),
    {
        self != BlockType::Air
    }

    fn is_collidable(self) -> (r: bool)
        ensures
            r == (self != BlockType::Air),
    {
        self != BlockType::Air
    }

    fn is_bumpable(self) -> (r: bool)
        ensures
            r == (self == BlockType::Bricks || self == BlockType::QuestionMark),
    {
        match self {
            BlockType::Bricks | BlockType::QuestionMark => true,
            _ => false,
        }
    }
}

impl RealBlock {
    /// Scatter four block fragments of this block's kind at cell `pos`,
    /// each with a small random initial push.
    pub fn spawn_particles(
        self,
        theme: LevelTheme,
        pos: (usize, usize),
        entities: &mut Vec<crate::entity::Entity>,
    )
        requires
            pos.0 * BLOCK_SIZE <= i32::MAX,
            pos.1 * BLOCK_SIZE <= i32::MAX,
        ensures
            final(entities)@.len() == old(entities)@.len() + 4,
            forall|j: int|
                0 <= j < old(entities)@.len() ==> #[trigger] final(entities)@[j] == old(
                    entities,
                )@[j],
            forall|j: int|
                old(entities)@.len() <= j < old(entities)@.len() + 4
                    ==> (#[trigger] final(entities)@[j]).kind
                    == crate::entity::EntityType::Particle(
                    crate::entity::Particle::BlockFragment { kind: self.block.kind, theme },
                ) && final(entities)@[j].body.hitbox == crate::entity::prototype_hitbox(
                    crate::entity::EntityPrototype {
                        kind: crate::entity::EntityType::Particle(
                            crate::entity::Particle::BlockFragment {
                                kind: self.block.kind,
                                theme,
                            },
                        ),
                        position: (
                            (pos.0 * BLOCK_SIZE) as i32,
                            (pos.1 * BLOCK_SIZE) as i32,
                        ),
                    },
                ),
    {
        let particle = crate::entity::EntityType::Particle(
            crate::entity::Particle::new_fragment(self.block.kind(), theme),
        );

        let ghost n0 = entities@.len();
        let mut c: usize = 0;
        while c < 4
            invariant
                c <= 4,
                entities@.len() == n0 + c,
                forall|j: int| 0 <= j < n0 ==> #[trigger] entities@[j] == old(entities)@[j],
                forall|j: int|
                    n0 <= j < n0 + c ==> (#[trigger] entities@[j]).kind
                        == crate::entity::EntityType::Particle(
                        crate::entity::Particle::BlockFragment { kind: self.block.kind, theme },
                    ) && entities@[j].body.hitbox == crate::entity::prototype_hitbox(
                        crate::entity::EntityPrototype {
                            kind: crate::entity::EntityType::Particle(
                                crate::entity::Particle::BlockFragment {
                                    kind: self.block.kind,
                                    theme,
                                },
                            ),
                            position: (
                                (pos.0 * BLOCK_SIZE) as i32,
                                (pos.1 * BLOCK_SIZE) as i32,
                            ),
                        },
                    ),
            decreases 4 - c,
        {
            let mut entity = crate::entity::Entity::spawn(particle, pos);
            let push = crate::fixed::Vec2 {
                x: crate::fixed::Fx { raw: crate::rng::gen_range_i64(-3072, 3072) },
                y: crate::fixed::Fx { raw: crate::rng::gen_range_i64(-10240, -5120) },
            };
            entity.body.accelerate(push);
            entities.push(entity);
            c = c + 1;
        }
    }
}

impl Collectible {
    /// The next collectible in the editor's cycling order.
    pub fn next(self) -> (r: Self)
        ensures
            r == (match self {
                Collectible::Coins(_) => Collectible::Mushroom,
                Collectible::Mushroom => Collectible::Star,
                Collectible::Star => Collectible::Coins(1),
                Collectible::Flower => Collectible::Coins(1),
            }),
    {
        match self {
            Collectible::Coins(_) => Collectible::Mushroom,
            Collectible::Mushroom => Collectible::Star,
            Collectible::Star => Collectible::Coins(1),
            Collectible::Flower => Collectible::Coins(1),
        }
    }

    /// The previous collectible in the editor's cycling order.
    pub fn prev(self) -> (r: Self)
        ensures
            r == (match self {
                Collectible::Coins(_) => Collectible::Star,
                Collectible::Star => Collectible::Mushroom,
                Collectible::Mushroom => Collectible::Coins(1),
                Collectible::Flower => Collectible::Coins(1),
            }),
    {
        match self {
            Collectible::Coins(_) => Collectible::Star,
            Collectible::Star => Collectible::Mushroom,
            Collectible::Mushroom => Collectible::Coins(1),
            Collectible::Flower => Collectible::Coins(1),
        }
    }

    /// The texture this collectible is drawn with.
    pub fn texture_id(self) -> (r: crate::texture_id::TextureId)
        ensures
            r == (match self {
                Collectible::Coins(_) => crate::texture_id::TextureId::CollectibleCoin,
                Collectible::Star => crate::texture_id::TextureId::CollectibleStar,
                Collectible::Mushroom => crate::texture_id::TextureId::CollectibleMushroom,
                Collectible::Flower => crate::texture_id::TextureId::CollectibleFlower,
            }),
    {
        match self {
            Collectible::Coins(_) => crate::texture_id::TextureId::CollectibleCoin,
            Collectible::Star => crate::texture_id::TextureId::CollectibleStar,
            Collectible::Mushroom => crate::texture_id::TextureId::CollectibleMushroom,
            Collectible::Flower => crate::texture_id::TextureId::CollectibleFlower,
        }
    }
}

} // verus!
