//! Enemy kinds and their editor cycling order.

use vstd::prelude::*;

verus! {

use crate::texture_id::TextureId;

/// A kind of enemy that can occupy a level.
#[derive(Clone, Copy, Debug, PartialEq, Eq, Structural)]
pub enum EnemyType {
    Goomba,
    Koopa,
}

/// Upward speed given to the player on killing an enemy, in fixed-point
/// units.
pub const ENEMY_KILL_BOUNCE_RAW: i64 = -10240;

/// Walking acceleration of a goomba, in fixed-point units per tick.
pub const GOOMBA_ACCELERATION_RAW: i64 = 410;

/// Index of the last enemy kind the editor cycles through.
pub const MAX_EDITOR_SELECTION: u8 = 1;

impl EnemyType {
    fn index(self) -> (r: u8)
        ensures
            r == (match self {
                EnemyType::Goomba => 0u8,
                EnemyType::Koopa => 1u8,
            }),
    {
        match self {
            EnemyType::Goomba => 0,
            EnemyType::Koopa => 1,
        }
    }

    fn from_index(id: u8) -> (r: EnemyType)
        requires
            id <= MAX_EDITOR_SELECTION,
        ensures
            r == (if id == 0 {
                EnemyType::Goomba
            } else {
                EnemyType::Koopa
            }),
    {
        match id {
            0 => EnemyType::Goomba,
            _ => EnemyType::Koopa,
        }
    }

    /// The previous kind in the editor's cycling order.
    pub fn prev(self) -> (r: Self)
        ensures
            r == (match self {
                EnemyType::Goomba => EnemyType::Koopa,
                EnemyType::Koopa => EnemyType::Goomba,
            }),
    {
        let id = self.index();
        let prev_id = if id == 0 {
            MAX_EDITOR_SELECTION
        } else {
            id - 1
        };
        Self::from_index(prev_id)
    }

    /// The next kind in the editor's cycling order.
    pub fn next(self) -> (r: Self)
        ensures
            r == (match self {
                EnemyType::Goomba => EnemyType::Koopa,
                EnemyType::Koopa => EnemyType::Goomba,
            }),
    {
        let next_id = (self.index() + 1) % (MAX_EDITOR_SELECTION + 1);
        Self::from_index(next_id)
    }

    /// The texture this kind is drawn with.
    pub fn texture_id(self) -> (r: TextureId)
        ensures
            r == (match self {
                EnemyType::Goomba => TextureId::EnemyGoomba,
                EnemyType::Koopa => TextureId::EnemyKoopa,
            }),
    {
        match self {
            EnemyType::Goomba => TextureId::EnemyGoomba,
            EnemyType::Koopa => TextureId::EnemyKoopa,
        }
    }
}

} // verus!
