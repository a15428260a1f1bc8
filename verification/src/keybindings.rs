//! Configurable key bindings, stored as plain key codes.

use vstd::prelude::*;

verus! {

/// A full set of bindings, one entry per action in `Key`'s order.
#[derive(Debug)]
pub struct KeyBindings<A> {
    pub bindings: [A; KEYS_COUNT],
}

/// An action a key can be bound to.
pub enum Key {
    Jump,
    Crouch,
    Left,
    Right,
    Escape,
    Sprint,
}

/// Number of bindable actions.
pub const KEYS_COUNT: usize = 6;

/// Conventional code of the space key.
pub const KEYCODE_SPACE: i32 = 32;

/// Conventional code of the escape key.
pub const KEYCODE_ESCAPE: i32 = 27;

/// Conventional code of the left arrow key.
pub const KEYCODE_LEFT: i32 = 1073741904;

/// Conventional code of the right arrow key.
pub const KEYCODE_RIGHT: i32 = 1073741903;

/// Conventional code of the left control key.
pub const KEYCODE_LCTRL: i32 = 1073742048;

/// Conventional code of the left shift key.
pub const KEYCODE_LSHIFT: i32 = 1073742049;

/// The default bindings: space to jump, control to crouch, the arrows to
/// walk, escape to pause and shift to sprint.
pub fn default_key_bindings() -> (r: KeyBindings<i32>)
    ensures
        r.bindings@ == seq![
            KEYCODE_SPACE,
            KEYCODE_LCTRL,
            KEYCODE_LEFT,
            KEYCODE_RIGHT,
            KEYCODE_ESCAPE,
            KEYCODE_LSHIFT,
        ],
{
    let bindings: [i32; KEYS_COUNT] = [
        KEYCODE_SPACE,
        KEYCODE_LCTRL,
        KEYCODE_LEFT,
        KEYCODE_RIGHT,
        KEYCODE_ESCAPE,
        KEYCODE_LSHIFT,
    ];
    proof {
        assert(bindings@ =~= seq![
            KEYCODE_SPACE,
            KEYCODE_LCTRL,
            KEYCODE_LEFT,
            KEYCODE_RIGHT,
            KEYCODE_ESCAPE,
            KEYCODE_LSHIFT,
        ]);
    }
    KeyBindings { bindings }
}

} // verus!
