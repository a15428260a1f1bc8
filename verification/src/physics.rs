//! Velocity accumulation: gravity, drag and external acceleration, plus the
//! body state the collision resolver advances each tick.

use vstd::prelude::*;

verus! {

use crate::block::BLOCK_SIZE;
use crate::fixed::{scale_spec, Fx, Vec2, FX_LIMIT, FX_ONE};
use crate::hitbox::{overlaps, Hitbox};
use crate::level::{LEVEL_HEIGHT, LEVEL_WIDTH};
use crate::utility::XDirection;

/// Pure numeric physics state of one body.
#[derive(Clone, Copy, Debug)]
pub struct Physics {
    pub mass: Fx,
    pub speed: Vec2,
}

/// A body the resolver moves: physics state, current extents, whether it
/// rests on ground, and which way it faces.
#[derive(Clone, Copy, Debug)]
pub struct PhysicalBody {
    pub physics: Physics,
    pub hitbox: Hitbox,
    pub grounded: bool,
    pub direction: XDirection,
}

/// Downward acceleration per unit of mass, in fixed-point units per pixel.
pub const GRAVITY_RAW: i64 = 1024;

/// Fraction of current speed lost to the air each tick, on both axes.
pub const AIR_DRAG_RAW: i64 = 46;

/// Extra fraction of current horizontal speed lost while grounded.
pub const GROUND_DRAG_RAW: i64 = 102;

/// Speeds below this many fixed-point units are cleared to zero after each
/// tick, to suppress sub-pixel jitter.
pub const CLEAR_THRESHOLD_RAW: i64 = 205;

/// The drag coefficient applied to the horizontal axis.
pub open spec fn drag_x_coef(ground: bool) -> int {
    if ground {
        AIR_DRAG_RAW + GROUND_DRAG_RAW
    } else {
        AIR_DRAG_RAW as int
    }
}

/// The horizontal speed `accelerate` leaves behind.
pub open spec fn accel_x_spec(speed_x: int, ground: bool, ax: int) -> int {
    speed_x + ax - scale_spec(speed_x, drag_x_coef(ground))
}

/// The vertical speed `accelerate` leaves behind.
pub open spec fn accel_y_spec(speed_y: int, mass: int, ground: bool, ay: int) -> int {
    let grav = if ground {
        0int
    } else {
        scale_spec(mass, GRAVITY_RAW as int)
    };
    speed_y + ay + grav - scale_spec(speed_y, AIR_DRAG_RAW as int)
}

/// Bounds under which one tick of accumulation cannot overflow.
pub open spec fn accel_in_range(p: Physics, accel: Vec2) -> bool {
    &&& -FX_LIMIT <= p.speed.x.raw <= FX_LIMIT
    &&& -FX_LIMIT <= p.speed.y.raw <= FX_LIMIT
    &&& -FX_LIMIT <= accel.x.raw <= FX_LIMIT
    &&& -FX_LIMIT <= accel.y.raw <= FX_LIMIT
    &&& 0 <= p.mass.raw <= FX_LIMIT
}

impl Physics {
    pub fn new(mass: Fx) -> (r: Physics)
        ensures
            r.mass == mass,
            r.speed.x.raw == 0,
            r.speed.y.raw == 0,
    {
        Physics { mass, speed: Vec2::zero() }
    }

    /// One tick of accumulation: add `accel`, add gravity while airborne,
    /// and take away a fixed fraction of the current speed as drag (with an
    /// extra horizontal fraction while grounded).
    pub fn accelerate(&mut self, ground: bool, accel: Vec2)
        requires
            accel_in_range(*old(self), accel),
        ensures
            final(self).mass == old(self).mass,
            final(self).speed.x.raw as int == accel_x_spec(
                old(self).speed.x.raw as int,
                ground,
                accel.x.raw as int,
            ),
            final(self).speed.y.raw as int == accel_y_spec(
                old(self).speed.y.raw as int,
                old(self).mass.raw as int,
                ground,
                accel.y.raw as int,
            ),
    {
        let grav_y: Fx = if ground {
            Fx::zero()
        } else {
            self.mass.scale(Fx { raw: GRAVITY_RAW })
        };

        let drag_coef_x: Fx = if ground {
            Fx { raw: AIR_DRAG_RAW + GROUND_DRAG_RAW }
        } else {
            Fx { raw: AIR_DRAG_RAW }
        };

        let drag_x = self.speed.x.scale(drag_coef_x);
        let drag_y = self.speed.y.scale(Fx { raw: AIR_DRAG_RAW });

        let new_x = self.speed.x.add(accel.x).sub(drag_x);
        let new_y = self.speed.y.add(accel.y).add(grav_y).sub(drag_y);
        self.speed = Vec2 { x: new_x, y: new_y };
    }
}

impl PhysicalBody {
    pub fn new(mass: Fx, hitbox: Hitbox) -> (r: Self)
        ensures
            r.physics.mass == mass,
            r.physics.speed.x.raw == 0,
            r.physics.speed.y.raw == 0,
            r.hitbox == hitbox,
            !r.grounded,
            r.direction == XDirection::Still,
    {
        PhysicalBody {
            physics: Physics::new(mass),
            hitbox,
            grounded: false,
            direction: XDirection::Still,
        }
    }

    /// Whether the body's extents have left the level entirely.
    pub fn out_of_bounds(&self) -> (r: bool)
        ensures
            r == !overlaps(
                self.hitbox,
                Hitbox {
                    x: 0,
                    y: 0,
                    width: (LEVEL_WIDTH * BLOCK_SIZE as usize) as u32,
                    height: (LEVEL_HEIGHT * BLOCK_SIZE as usize) as u32,
                },
            ),
    {
        let world = Hitbox::new(
            0,
            0,
            LEVEL_WIDTH as u32 * BLOCK_SIZE,
            LEVEL_HEIGHT as u32 * BLOCK_SIZE,
        );
        !self.hitbox.collides(&world)
    }

    /// Whether horizontal speed is below one pixel per tick.
    pub fn is_still_x(&self) -> (r: bool)
        requires
            self.physics.speed.x.raw > i64::MIN,
        ensures
            r == (-FX_ONE < self.physics.speed.x.raw < FX_ONE),
    {
        self.physics.speed.x.abs_below(FX_ONE)
    }

    /// Whether vertical speed is below one pixel per tick.
    pub fn is_still_y(&self) -> (r: bool)
        requires
            self.physics.speed.y.raw > i64::MIN,
        ensures
            r == (-FX_ONE < self.physics.speed.y.raw < FX_ONE),
    {
        self.physics.speed.y.abs_below(FX_ONE)
    }

    /// Whether the body is (nearly) at rest.
    pub fn is_still(&self) -> (r: bool)
        requires
            self.physics.speed.x.raw > i64::MIN,
            self.physics.speed.y.raw > i64::MIN,
        ensures
            r == (-FX_ONE < self.physics.speed.x.raw < FX_ONE
                && -FX_ONE < self.physics.speed.y.raw < FX_ONE),
    {
        self.is_still_x() && self.is_still_y()
    }

    pub fn x_direction(&self) -> (r: XDirection)
        ensures
            r == self.direction,
    {
        self.direction
    }

    /// One tick of accumulation for this body; gravity and ground drag
    /// follow its own grounded flag.
    pub fn accelerate(&mut self, accel: Vec2)
        requires
            accel_in_range(old(self).physics, accel),
        ensures
            final(self).hitbox == old(self).hitbox,
            final(self).grounded == old(self).grounded,
            final(self).direction == old(self).direction,
            final(self).physics.mass == old(self).physics.mass,
            final(self).physics.speed.x.raw as int == accel_x_spec(
                old(self).physics.speed.x.raw as int,
                old(self).grounded,
                accel.x.raw as int,
            ),
            final(self).physics.speed.y.raw as int == accel_y_spec(
                old(self).physics.speed.y.raw as int,
                old(self).physics.mass.raw as int,
                old(self).grounded,
                accel.y.raw as int,
            ),
    {
        let grounded = self.grounded;
        self.physics.accelerate(grounded, accel);
    }

    /// Translate the body by whole pixels.
    pub fn move_by_vec(&mut self, vec: (i32, i32))
        requires
            i32::MIN <= old(self).hitbox.x + vec.0 <= i32::MAX,
            i32::MIN <= old(self).hitbox.y + vec.1 <= i32::MAX,
        ensures
            final(self).hitbox.x == old(self).hitbox.x + vec.0,
            final(self).hitbox.y == old(self).hitbox.y + vec.1,
            final(self).hitbox.width == old(self).hitbox.width,
            final(self).hitbox.height == old(self).hitbox.height,
            final(self).physics == old(self).physics,
            final(self).grounded == old(self).grounded,
            final(self).direction == old(self).direction,
    {
        self.hitbox.offset(vec.0, vec.1);
    }

    /// Translate the body by whole pixels.
    pub fn move_by(&mut self, delta: (i32, i32))
        requires
            i32::MIN <= old(self).hitbox.x + delta.0 <= i32::MAX,
            i32::MIN <= old(self).hitbox.y + delta.1 <= i32::MAX,
        ensures
            final(self).hitbox.x == old(self).hitbox.x + delta.0,
            final(self).hitbox.y == old(self).hitbox.y + delta.1,
            final(self).hitbox.width == old(self).hitbox.width,
            final(self).hitbox.height == old(self).hitbox.height,
            final(self).physics == old(self).physics,
            final(self).grounded == old(self).grounded,
            final(self).direction == old(self).direction,
    {
        let (x, y) = delta;
        self.hitbox.offset(x, y);
    }

    pub fn speed(&self) -> (r: Vec2)
        ensures
            r == self.physics.speed,
    {
        self.physics.speed
    }

    pub fn speed_y(&self) -> (r: Fx)
        ensures
            r == self.physics.speed.y,
    {
        self.physics.speed.y
    }

    pub fn speed_x(&self) -> (r: Fx)
        ensures
            r == self.physics.speed.x,
    {
        self.physics.speed.x
    }

    pub fn position(&self) -> (r: (i32, i32))
        ensures
            r.0 == self.hitbox.x,
            r.1 == self.hitbox.y,
    {
        (self.hitbox.x(), self.hitbox.y())
    }

    /// Stop all horizontal motion.
    pub fn stop_x(&mut self)
        ensures
            final(self).physics.speed.x.raw == 0,
            final(self).physics.speed.y == old(self).physics.speed.y,
            final(self).physics.mass == old(self).physics.mass,
            final(self).hitbox == old(self).hitbox,
            final(self).grounded == old(self).grounded,
            final(self).direction == old(self).direction,
    {
        self.physics.speed.x = Fx::zero();
    }

    /// Stop all vertical motion.
    pub fn stop_y(&mut self)
        ensures
            final(self).physics.speed.y.raw == 0,
            final(self).physics.speed.x == old(self).physics.speed.x,
            final(self).physics.mass == old(self).physics.mass,
            final(self).hitbox == old(self).hitbox,
            final(self).grounded == old(self).grounded,
            final(self).direction == old(self).direction,
    {
        self.physics.speed.y = Fx::zero();
    }

    /// Zero any speed component below the clearing threshold.
    pub fn clear_speed(&mut self)
        requires
            old(self).physics.speed.x.raw > i64::MIN,
            old(self).physics.speed.y.raw > i64::MIN,
        ensures
            final(self).physics.speed.x.raw == (
            if -CLEAR_THRESHOLD_RAW < old(self).physics.speed.x.raw < CLEAR_THRESHOLD_RAW {
                0int
            } else {
                old(self).physics.speed.x.raw as int
            }),
            final(self).physics.speed.y.raw == (
            if -CLEAR_THRESHOLD_RAW < old(self).physics.speed.y.raw < CLEAR_THRESHOLD_RAW {
                0int
            } else {
                old(self).physics.speed.y.raw as int
            }),
            final(self).physics.mass == old(self).physics.mass,
            final(self).hitbox == old(self).hitbox,
            final(self).grounded == old(self).grounded,
            final(self).direction == old(self).direction,
    {
        let x = self.physics.speed.x;
        let y = self.physics.speed.y;
        let new_x = if x.abs_below(CLEAR_THRESHOLD_RAW) {
            Fx::zero()
        } else {
            x
        };
        let new_y = if y.abs_below(CLEAR_THRESHOLD_RAW) {
            Fx::zero()
        } else {
            y
        };
        self.physics.speed = Vec2 { x: new_x, y: new_y };
    }

    /// Move by the rounded current speed without consulting the grid.
    pub fn apply_movement_unchecked(&mut self)
        requires
            -FX_LIMIT <= old(self).physics.speed.x.raw <= FX_LIMIT,
            -FX_LIMIT <= old(self).physics.speed.y.raw <= FX_LIMIT,
            i32::MIN <= old(self).hitbox.x + crate::fixed::round_spec(
                old(self).physics.speed.x.raw as int,
            ) <= i32::MAX,
            i32::MIN <= old(self).hitbox.y + crate::fixed::round_spec(
                old(self).physics.speed.y.raw as int,
            ) <= i32::MAX,
        ensures
            final(self).hitbox.x == old(self).hitbox.x + crate::fixed::round_spec(
                old(self).physics.speed.x.raw as int,
            ),
            final(self).hitbox.y == old(self).hitbox.y + crate::fixed::round_spec(
                old(self).physics.speed.y.raw as int,
            ),
            final(self).hitbox.width == old(self).hitbox.width,
            final(self).hitbox.height == old(self).hitbox.height,
            final(self).physics == old(self).physics,
            final(self).grounded == old(self).grounded,
            final(self).direction == old(self).direction,
    {
        let (dx, dy) = self.physics.speed.round();
        self.hitbox.offset(dx, dy);
    }
}

} // verus!
