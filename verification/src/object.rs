//! Kinds of placeable objects.

use vstd::prelude::*;

verus! {

use crate::block::BlockType;

/// What kind of thing a placed object is.
pub enum ObjectType {
    Block(BlockType),
}

} // verus!
