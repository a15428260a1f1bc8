//! The editor's palette selection: which block, background element or
//! collectible the next click paints, cycled with the scroll wheel.

use vstd::prelude::*;

verus! {

use crate::background::{bg_index_of, BackgroundElement, MAX_BG};
use crate::block::{kind_index_of, Block, BlockType, Collectible, MAX_BLOCK};

/// What the editor currently paints with.
#[derive(Clone, Copy, Debug)]
pub enum Selection {
    Block(Block),
    Background(BackgroundElement),
    Collectible(Collectible),
}

/// Whether `new` is `old` cycled one step forward within its layer.
pub open spec fn cycled_forward(old: Selection, new: Selection) -> bool {
    match (old, new) {
        (Selection::Block(b), Selection::Block(rb)) => {
            &&& kind_index_of(rb.kind) == (kind_index_of(b.kind) + 1) % (MAX_BLOCK as int)
            &&& rb.contents is None
        },
        (Selection::Background(bg), Selection::Background(rbg)) => bg_index_of(rbg) == (
        bg_index_of(bg) + 1) % (MAX_BG as int),
        (Selection::Collectible(c), Selection::Collectible(rc)) => rc == (match c {
            Collectible::Coins(_) => Collectible::Mushroom,
            Collectible::Mushroom => Collectible::Star,
            Collectible::Star => Collectible::Coins(1),
            Collectible::Flower => Collectible::Coins(1),
        }),
        _ => false,
    }
}

/// Whether `new` is `old` cycled one step backward within its layer.
pub open spec fn cycled_backward(old: Selection, new: Selection) -> bool {
    match (old, new) {
        (Selection::Block(b), Selection::Block(rb)) => {
            &&& kind_index_of(rb.kind) == (if kind_index_of(b.kind) == 0 {
                MAX_BLOCK as int - 1
            } else {
                kind_index_of(b.kind) - 1
            })
            &&& rb.contents is None
        },
        (Selection::Background(bg), Selection::Background(rbg)) => bg_index_of(rbg) == (
        if bg_index_of(bg) == 0 {
            MAX_BG as int - 1
        } else {
            bg_index_of(bg) - 1
        }),
        (Selection::Collectible(c), Selection::Collectible(rc)) => rc == (match c {
            Collectible::Coins(_) => Collectible::Star,
            Collectible::Star => Collectible::Mushroom,
            Collectible::Mushroom => Collectible::Coins(1),
            Collectible::Flower => Collectible::Coins(1),
        }),
        _ => false,
    }
}

impl Selection {
    /// Switch to the next editing layer, with that layer's first visible
    /// choice selected.
    pub fn switch_layer(&mut self)
        ensures
            *final(self) == (match *old(self) {
                Selection::Block(_) => Selection::Background(BackgroundElement::Water),
                Selection::Background(_) => Selection::Collectible(Collectible::Coins(1)),
                Selection::Collectible(_) => Selection::Block(
                    Block { kind: BlockType::Bricks, contents: None },
                ),
            }),
    {
        let new = match self {
            Selection::Block(_) => {
                Selection::Background(BackgroundElement::default_visible())
            },
            Selection::Background(_) => Selection::Collectible(Collectible::Coins(1)),
            Selection::Collectible(_) => Selection::Block(Block::default_visible()),
        };

        *self = new;
    }

    /// Replace the selection with the next choice of its layer.
    pub fn set_to_next(&mut self)
        ensures
            cycled_forward(*old(self), *final(self)),
    {
        *self = self.next();
    }

    /// Replace the selection with the previous choice of its layer.
    pub fn set_to_prev(&mut self)
        ensures
            cycled_backward(*old(self), *final(self)),
    {
        *self = self.prev();
    }

    /// The selection cycled forward within its layer.
    pub fn next(self) -> (r: Self)
        ensures
            cycled_forward(self, r),
    {
        match self {
            Selection::Block(block) => Selection::Block(block.next_kind()),
            Selection::Background(bg) => Selection::Background(bg.next()),
            Selection::Collectible(c) => Selection::Collectible(c.next()),
        }
    }

    /// The selection cycled backward within its layer.
    pub fn prev(self) -> (r: Self)
        ensures
            cycled_backward(self, r),
    {
        match self {
            Selection::Block(block) => Selection::Block(block.prev_kind()),
            Selection::Background(bg) => Selection::Background(bg.prev()),
            Selection::Collectible(c) => Selection::Collectible(c.prev()),
        }
    }
}

} // verus!
