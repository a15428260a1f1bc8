//! Identifiers of the textures the rendering layer can be asked for.

use vstd::prelude::*;

verus! {

/// A texture the rendering layer knows how to load.
#[derive(Clone, Copy, Debug, PartialEq, Eq, Hash, Structural)]
pub enum TextureId {
    CollectibleCoin,
    CollectibleMushroom,
    CollectibleStar,
    CollectibleFlower,
    PlayerStanding,
    PlayerRunning,
    PlayerJumping,
    BigPlayerStanding,
    BigPlayerRunning,
    BigPlayerJumping,
    SmallCloud,
    BigCloud,
    EnemyGoomba,
    EnemyKoopa,
}

} // verus!
