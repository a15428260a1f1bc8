//! The window and key configuration as read from disk, in plain values.

use vstd::prelude::*;

verus! {

use crate::keybindings::{default_key_bindings, KeyBindings};

/// The configuration file's shape: window size and key bindings, all as
/// plain numbers.
#[derive(Debug)]
pub struct RawConfig {
    pub window_height: u32,
    pub window_width: u32,
    pub key_bindings: KeyBindings<i32>,
}

/// Window height used when the configuration does not give one.
pub const DEFAULT_WINDOW_HEIGHT: u32 = 720;

/// Window width used when the configuration does not give one.
pub const DEFAULT_WINDOW_WIDTH: u32 = 1280;

/// The window height a configuration falls back to.
pub fn default_window_height() -> (r: u32)
    ensures
        r == DEFAULT_WINDOW_HEIGHT,
{
    DEFAULT_WINDOW_HEIGHT
}

/// The window width a configuration falls back to.
pub fn default_window_width() -> (r: u32)
    ensures
        r == DEFAULT_WINDOW_WIDTH,
{
    DEFAULT_WINDOW_WIDTH
}

impl RawConfig {
    pub fn new(window_height: u32, window_width: u32, key_bindings: KeyBindings<i32>) -> (r:
        RawConfig)
        ensures
            r.window_height == window_height,
            r.window_width == window_width,
            r.key_bindings.bindings@ == key_bindings.bindings@,
    {
        RawConfig { window_height, window_width, key_bindings }
    }

    pub fn window_height(&self) -> (r: u32)
        ensures
            r == self.window_height,
    {
        self.window_height
    }

    pub fn window_width(&self) -> (r: u32)
        ensures
            r == self.window_width,
    {
        self.window_width
    }
}

impl Default for RawConfig {
    fn default() -> (r: RawConfig)
        ensures
            r.window_height == DEFAULT_WINDOW_HEIGHT,
            r.window_width == DEFAULT_WINDOW_WIDTH,
    {
        RawConfig {
            window_height: default_window_height(),
            window_width: default_window_width(),
            key_bindings: default_key_bindings(),
        }
    }
}

} // verus!
