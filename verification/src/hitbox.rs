//! Axis-aligned integer rectangles: the extents of moving bodies and of
//! solid grid cells.  Overlap is strict — rectangles that merely touch along
//! an edge do not collide — and point containment is half-open.

use vstd::prelude::*;

verus! {

/// Magnitude bound on coordinates under which the collision tests and
/// translations here are free of overflow.
pub const COORD_LIMIT: i32 = 0x0400_0000;

/// An axis-aligned rectangle on the pixel grid; `width` and `height` are
/// positive.
#[derive(Clone, Copy, Debug, PartialEq, Eq, Structural)]
pub struct Hitbox {
    pub x: i32,
    pub y: i32,
    pub width: u32,
    pub height: u32,
}

/// Things that can be tested for collision against a `T`.
pub trait CollidableWith<T> {
    fn collides(&self, other: &T) -> bool;
}

/// Whether `a`, translated by `(dx, dy)` pixels, strictly overlaps `b`.
pub open spec fn overlaps_shifted(a: Hitbox, dx: int, dy: int, b: Hitbox) -> bool {
    &&& a.x + dx < b.x + b.width
    &&& b.x < a.x + dx + a.width
    &&& a.y + dy < b.y + b.height
    &&& b.y < a.y + dy + a.height
}

/// Whether `a` strictly overlaps `b`.
pub open spec fn overlaps(a: Hitbox, b: Hitbox) -> bool {
    overlaps_shifted(a, 0, 0, b)
}

/// Whether the point `(px, py)` lies in `h`; the left and top edges are
/// included, the right and bottom edges are not.
pub open spec fn contains_point_spec(h: Hitbox, px: int, py: int) -> bool {
    &&& h.x <= px < h.x + h.width
    &&& h.y <= py < h.y + h.height
}

impl Hitbox {
    /// Positive extents.
    pub open spec fn wf(self) -> bool {
        self.width > 0 && self.height > 0
    }

    /// Coordinates and extents small enough that translating by another
    /// in-range amount cannot overflow.
    pub open spec fn in_bounds(self) -> bool {
        &&& -COORD_LIMIT <= self.x <= COORD_LIMIT
        &&& -COORD_LIMIT <= self.y <= COORD_LIMIT
        &&& self.width <= COORD_LIMIT as u32
        &&& self.height <= COORD_LIMIT as u32
    }

    pub fn new(x: i32, y: i32, width: u32, height: u32) -> (r: Hitbox)
        requires
            0 < width,
            0 < height,
        ensures
            r == (Hitbox { x, y, width, height }),
            r.wf(),
    {
        Hitbox { x, y, width, height }
    }

    pub fn x(&self) -> (r: i32)
        ensures
            r == self.x,
    {
        self.x
    }

    pub fn y(&self) -> (r: i32)
        ensures
            r == self.y,
    {
        self.y
    }

    pub fn width(&self) -> (r: u32)
        ensures
            r == self.width,
    {
        self.width
    }

    pub fn height(&self) -> (r: u32)
        ensures
            r == self.height,
    {
        self.height
    }

    /// Translate by whole pixels.
    pub fn offset(&mut self, dx: i32, dy: i32)
        requires
            i32::MIN <= old(self).x + dx <= i32::MAX,
            i32::MIN <= old(self).y + dy <= i32::MAX,
        ensures
            final(self).x == old(self).x + dx,
            final(self).y == old(self).y + dy,
            final(self).width == old(self).width,
            final(self).height == old(self).height,
    {
        self.x = self.x + dx;
        self.y = self.y + dy;
    }

    /// The pixel at the middle of the rectangle.
    pub fn center(&self) -> (r: (i32, i32))
        requires
            i32::MIN <= self.x + self.width / 2 <= i32::MAX,
            i32::MIN <= self.y + self.height / 2 <= i32::MAX,
        ensures
            r.0 == self.x + self.width as int / 2,
            r.1 == self.y + self.height as int / 2,
    {
        (self.x + (self.width / 2) as i32, self.y + (self.height / 2) as i32)
    }

    /// Whether the two rectangles strictly overlap.
    pub fn collides(&self, other: &Hitbox) -> (r: bool)
        ensures
            r == overlaps(*self, *other),
    {
        (self.x as i64) < (other.x as i64) + (other.width as i64)
            && (other.x as i64) < (self.x as i64) + (self.width as i64)
            && (self.y as i64) < (other.y as i64) + (other.height as i64)
            && (other.y as i64) < (self.y as i64) + (self.height as i64)
    }

    /// Whether the point lies in the rectangle (half-open on the far edges).
    pub fn contains_point(&self, px: i32, py: i32) -> (r: bool)
        ensures
            r == contains_point_spec(*self, px as int, py as int),
    {
        (self.x as i64) <= (px as i64)
            && (px as i64) < (self.x as i64) + (self.width as i64)
            && (self.y as i64) <= (py as i64)
            && (py as i64) < (self.y as i64) + (self.height as i64)
    }
}

impl CollidableWith<(i32, i32)> for Hitbox {
    fn collides(&self, other: &(i32, i32)) -> bool {
        self.contains_point(other.0, other.1)
    }
}

impl CollidableWith<Hitbox> for (i32, i32) {
    fn collides(&self, hitbox: &Hitbox) -> bool {
        hitbox.contains_point(self.0, self.1)
    }
}

impl CollidableWith<Hitbox> for Hitbox {
    fn collides(&self, other: &Hitbox) -> bool {
        Hitbox::collides(self, other)
    }
}

} // verus!
