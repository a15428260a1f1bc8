//! Decorative background elements: one per grid cell, never collidable.

use vstd::prelude::*;

verus! {

use crate::level::LevelTheme;

/// A background decoration occupying one grid cell.
#[derive(Clone, Copy, Debug, PartialEq, Eq, Hash, Structural)]
pub enum BackgroundElement {
    Water,
    Fence,
    TreeTopSmall,
    TreeTopBig,
    TreeBottom,
    BigTreeTrunk,
    BigTreeTrunkTop,
    GrassLeft,
    GrassRight,
    GrassMiddle,
    Castle,
    Air,
}

/// A background element together with the level theme it is drawn in.
pub struct ThemedBackgroundElement {
    pub element: BackgroundElement,
    pub theme: LevelTheme,
}

/// Position of each element in the editor's cycling order; `Air` is last and
/// is skipped when cycling.
pub open spec fn bg_index_of(e: BackgroundElement) -> int {
    match e {
        BackgroundElement::Water => 0,
        BackgroundElement::Fence => 1,
        BackgroundElement::TreeTopSmall => 2,
        BackgroundElement::TreeTopBig => 3,
        BackgroundElement::TreeBottom => 4,
        BackgroundElement::BigTreeTrunk => 5,
        BackgroundElement::BigTreeTrunkTop => 6,
        BackgroundElement::GrassLeft => 7,
        BackgroundElement::GrassRight => 8,
        BackgroundElement::GrassMiddle => 9,
        BackgroundElement::Castle => 10,
        BackgroundElement::Air => 11,
    }
}

/// Number of elements that take part in cycling (`Air` does not).
pub const MAX_BG: u8 = 11;

impl BackgroundElement {
    fn index(self) -> (r: u8)
        ensures
            r as int == bg_index_of(self),
    {
        match self {
            BackgroundElement::Water => 0,
            BackgroundElement::Fence => 1,
            BackgroundElement::TreeTopSmall => 2,
            BackgroundElement::TreeTopBig => 3,
            BackgroundElement::TreeBottom => 4,
            BackgroundElement::BigTreeTrunk => 5,
            BackgroundElement::BigTreeTrunkTop => 6,
            BackgroundElement::GrassLeft => 7,
            BackgroundElement::GrassRight => 8,
            BackgroundElement::GrassMiddle => 9,
            BackgroundElement::Castle => 10,
            BackgroundElement::Air => 11,
        }
    }

    fn from_index(id: u8) -> (r: BackgroundElement)
        requires
            id <= 11,
        ensures
            bg_index_of(r) == id as int,
    {
        match id {
            0 => BackgroundElement::Water,
            1 => BackgroundElement::Fence,
            2 => BackgroundElement::TreeTopSmall,
            3 => BackgroundElement::TreeTopBig,
            4 => BackgroundElement::TreeBottom,
            5 => BackgroundElement::BigTreeTrunk,
            6 => BackgroundElement::BigTreeTrunkTop,
            7 => BackgroundElement::GrassLeft,
            8 => BackgroundElement::GrassRight,
            9 => BackgroundElement::GrassMiddle,
            10 => BackgroundElement::Castle,
            _ => BackgroundElement::Air,
        }
    }

    /// The element the editor offers first when a cell is made visible.
    pub fn default_visible() -> (r: Self)
        ensures
            r == BackgroundElement::Water,
    {
        Self::Water
    }

    /// Whether anything is drawn for this element.
    pub fn is_visible(self) -> (r: bool)
        ensures
            r == (self != BackgroundElement::Air),
    {
        self != BackgroundElement::Air
    }

    /// The next element in the editor's cycling order, skipping `Air`.
    pub fn next(self) -> (r: Self)
        ensures
            bg_index_of(r) == (bg_index_of(self) + 1) % (MAX_BG as int),
    {
        Self::from_index((self.index() + 1) % MAX_BG)
    }

    /// The previous element in the editor's cycling order, skipping `Air`.
    pub fn prev(self) -> (r: Self)
        ensures
            bg_index_of(r) == if bg_index_of(self) == 0 {
                MAX_BG as int - 1
            } else {
                bg_index_of(self) - 1
            },
    {
        let id = self.index();
        let prev_id = if id == 0 {
            MAX_BG - 1
        } else {
            id - 1
        };
        Self::from_index(prev_id)
    }
}

impl Default for BackgroundElement {
    fn default() -> (r: Self)
        ensures
            r == BackgroundElement::Air,
    {
        Self::Air
    }
}

} // verus!
