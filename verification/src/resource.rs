//! Descriptions of textures: where they live, how big they are, and how
//! their animation frames and theme variants are picked.

use vstd::prelude::*;

verus! {

use crate::background::BackgroundElement;
use crate::block::BlockType;
use crate::level::LevelTheme;
use crate::render::FPS;
use crate::utility::Frequency;

/// Where a texture lives and how it is animated.
pub struct TextureInfo {
    pub path: String,
    pub width: u32,
    pub height: u32,
    pub animation: TextureAnimation,
    pub themed: bool,
}

/// An animation: `frames` sprite frames cycled `speed` times per second.
#[derive(Clone, Copy, Debug)]
pub struct TextureAnimation {
    pub frames: u32,
    pub speed: u32,
}

/// Texture descriptions for every block kind and background element.
pub struct TexturePaths {
    pub blocks: Vec<(BlockType, TextureInfo)>,
    pub background: Vec<(BackgroundElement, TextureInfo)>,
}

/// Something that can produce a `Resource` from a description of it.
pub trait ResourceLoader<Resource> {
    type Args;

    fn load(&self, state: &Self::Args) -> Result<Resource, String>;
}

/// A cache of loaded resources in front of a loader, keyed by what was
/// asked for.
#[verifier::reject_recursive_types(Key)]
pub struct ResourceCache<'a, Key, Resource, Loader> where Loader: ResourceLoader<
    Resource,
    Args = Key,
> {
    pub loader: &'a Loader,
    pub cache: Vec<(Key, Resource)>,
}

impl<'a, Key, Resource, Loader> ResourceCache<'a, Key, Resource, Loader> where Loader:
    ResourceLoader<Resource, Args = Key> {
    pub fn new(loader: &'a Loader) -> (r: Self)
        ensures
            r.cache@.len() == 0,
    {
        ResourceCache { cache: Vec::new(), loader }
    }
}

/// Textures are themed unless the description says otherwise.
pub fn default_themed() -> (r: bool)
    ensures
        r,
{
    true
}

/// Textures are one cell tall unless the description says otherwise.
pub fn default_height() -> (r: u32)
    ensures
        r == crate::block::BLOCK_SIZE,
{
    crate::block::BLOCK_SIZE
}

/// Textures are one cell wide unless the description says otherwise.
pub fn default_width() -> (r: u32)
    ensures
        r == crate::block::BLOCK_SIZE,
{
    crate::block::BLOCK_SIZE
}

/// Textures are unanimated unless the description says otherwise.
pub fn default_animation() -> (r: TextureAnimation)
    ensures
        r.frames == 1,
        r.speed == 1,
{
    TextureAnimation { frames: 1, speed: 1 }
}

/// Row of each theme in a themed texture's sprite sheet.
pub open spec fn theme_row_of(theme: LevelTheme) -> int {
    match theme {
        LevelTheme::Day => 0,
        LevelTheme::Underground => 1,
        LevelTheme::Night => 2,
    }
}

impl TextureInfo {
    /// Which animation frame is shown at frame `tick`.
    pub fn frame_index(&self, tick: u32) -> (r: u32)
        requires
            self.animation.frames > 0,
            tick * self.animation.speed <= u32::MAX,
        ensures
            r as int == (tick * self.animation.speed) as int / (FPS as int) % (
            self.animation.frames as int),
    {
        let frames = self.animation.frames;
        let speed = self.animation.speed;
        Frequency::new(frames, speed).phase(tick)
    }

    /// Which sprite-sheet row the given theme uses; unthemed textures have
    /// only one.
    pub fn variant_index(&self, theme: LevelTheme) -> (r: u32)
        ensures
            r as int == (if self.themed {
                theme_row_of(theme)
            } else {
                0int
            }),
    {
        if self.themed {
            match theme {
                LevelTheme::Day => 0,
                LevelTheme::Underground => 1,
                LevelTheme::Night => 2,
            }
        } else {
            0
        }
    }
}

} // verus!
