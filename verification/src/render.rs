//! The camera: a window onto the level that rendering positions are
//! translated through, clamped so it never leaves the level.

use vstd::prelude::*;

verus! {

use crate::block::BLOCK_SIZE;
use crate::hitbox::{overlaps, Hitbox};
use crate::level::{LEVEL_HEIGHT, LEVEL_WIDTH};

/// Simulation and rendering rate, in ticks per second.
pub const FPS: u32 = 60;

pub const SCREEN_WIDTH: u32 = 1280;

pub const SCREEN_HEIGHT: u32 = 720;

/// Top-left corner of the visible window, in level pixels.
#[derive(Clone, Copy, Debug, PartialEq, Eq, Structural)]
pub struct Camera {
    pub x: i32,
    pub y: i32,
}

/// How a piece of text is anchored to its position.
pub enum TextAlignment {
    Center,
    Left,
    Right,
    TotalCenter,
}

/// Largest camera x: the level width in pixels minus the screen width.
pub const CAMERA_MAX_X: i32 = 12800;

/// Largest camera y: the level height in pixels minus the screen height.
pub const CAMERA_MAX_Y: i32 = 560;

impl Default for Camera {
    fn default() -> (r: Camera)
        ensures
            r.x == 0,
            r.y == 0,
    {
        Camera::new(0, 0)
    }
}

impl Camera {
    pub fn new(x: i32, y: i32) -> (r: Camera)
        ensures
            r.x == x,
            r.y == y,
    {
        Camera { x, y }
    }

    /// Put the camera at `pos`, clamped to the level.
    pub fn move_to(&mut self, pos: (i32, i32))
        ensures
            final(self).x == (if pos.0 <= 0 {
                0int
            } else if pos.0 > CAMERA_MAX_X {
                CAMERA_MAX_X as int
            } else {
                pos.0 as int
            }),
            final(self).y == (if pos.1 <= 0 {
                0int
            } else if pos.1 > CAMERA_MAX_Y {
                CAMERA_MAX_Y as int
            } else {
                pos.1 as int
            }),
    {
        self.x = pos.0;
        self.y = pos.1;

        if self.x <= 0 {
            self.x = 0;
        } else if self.x > CAMERA_MAX_X {
            self.x = CAMERA_MAX_X;
        }

        if self.y <= 0 {
            self.y = 0;
        } else if self.y > CAMERA_MAX_Y {
            self.y = CAMERA_MAX_Y;
        }
    }

    /// Move the camera by `amount`, clamped to the level.
    pub fn shift(&mut self, amount: (i32, i32))
        requires
            i32::MIN <= old(self).x + amount.0 <= i32::MAX,
            i32::MIN <= old(self).y + amount.1 <= i32::MAX,
        ensures
            final(self).x == (if old(self).x + amount.0 <= 0 {
                0int
            } else if old(self).x + amount.0 > CAMERA_MAX_X {
                CAMERA_MAX_X as int
            } else {
                old(self).x + amount.0
            }),
            final(self).y == (if old(self).y + amount.1 <= 0 {
                0int
            } else if old(self).y + amount.1 > CAMERA_MAX_Y {
                CAMERA_MAX_Y as int
            } else {
                old(self).y + amount.1
            }),
    {
        proof {
            assert(LEVEL_WIDTH as int * BLOCK_SIZE as int - SCREEN_WIDTH as int
                == CAMERA_MAX_X as int);
            assert(LEVEL_HEIGHT as int * BLOCK_SIZE as int - SCREEN_HEIGHT as int
                == CAMERA_MAX_Y as int);
        }
        self.x = self.x + amount.0;
        self.y = self.y + amount.1;

        if self.x <= 0 {
            self.x = 0;
        } else if self.x > CAMERA_MAX_X {
            self.x = CAMERA_MAX_X;
        }

        if self.y <= 0 {
            self.y = 0;
        } else if self.y > CAMERA_MAX_Y {
            self.y = CAMERA_MAX_Y;
        }
    }

    /// Translate a rectangle from level coordinates to screen coordinates.
    pub fn move_rect(self, rect: &mut Hitbox)
        requires
            i32::MIN <= old(rect).x - self.x <= i32::MAX,
            i32::MIN <= old(rect).y - self.y <= i32::MAX,
            self.x > i32::MIN,
            self.y > i32::MIN,
        ensures
            final(rect).x == old(rect).x - self.x,
            final(rect).y == old(rect).y - self.y,
            final(rect).width == old(rect).width,
            final(rect).height == old(rect).height,
    {
        rect.offset(-self.x, -self.y);
    }

    /// Level coordinates to screen coordinates.
    pub fn translate_coords(self, coords: (i32, i32)) -> (r: (i32, i32))
        requires
            i32::MIN <= coords.0 - self.x <= i32::MAX,
            i32::MIN <= coords.1 - self.y <= i32::MAX,
        ensures
            r.0 == coords.0 - self.x,
            r.1 == coords.1 - self.y,
    {
        (coords.0 - self.x, coords.1 - self.y)
    }

    /// Screen coordinates back to level coordinates.
    pub fn to_real_coords(self, cam_coords: (i32, i32)) -> (r: (i32, i32))
        requires
            i32::MIN <= cam_coords.0 + self.x <= i32::MAX,
            i32::MIN <= cam_coords.1 + self.y <= i32::MAX,
        ensures
            r.0 == cam_coords.0 + self.x,
            r.1 == cam_coords.1 + self.y,
    {
        (cam_coords.0 + self.x, cam_coords.1 + self.y)
    }

    /// Whether a screen coordinate lies on the screen.
    pub fn on_screen(self, point: (i32, i32)) -> (r: bool)
        ensures
            r == (0 <= point.0 <= SCREEN_WIDTH && 0 <= point.1 <= SCREEN_HEIGHT),
    {
        let (x, y) = point;
        x >= 0 && x <= SCREEN_WIDTH as i32 && y >= 0 && y <= SCREEN_HEIGHT as i32
    }

    /// Whether any part of `rect` is visible, with a one-pixel margin.
    pub fn in_view(self, rect: Hitbox) -> (r: bool)
        requires
            self.x > i32::MIN,
            self.y > i32::MIN,
        ensures
            r == overlaps(
                Hitbox {
                    x: (self.x - 1) as i32,
                    y: (self.y - 1) as i32,
                    width: (SCREEN_WIDTH + 1) as u32,
                    height: (SCREEN_HEIGHT + 1) as u32,
                },
                rect,
            ),
    {
        let cam_rect = Hitbox::new(self.x - 1, self.y - 1, SCREEN_WIDTH + 1, SCREEN_HEIGHT + 1);
        cam_rect.collides(&rect)
    }
}

} // verus!
