//! The player: their body, growth variant, invincibility clock, and how
//! held keys become acceleration.

use vstd::prelude::*;

verus! {

use crate::controller::{key_index_of, ButtonState, Controller, Key};
use crate::fixed::{scale_spec, Fx, Vec2, FX_LIMIT, FX_ONE};
use crate::hitbox::Hitbox;
use crate::level::PlayableLevel;
use crate::physics::{accel_in_range, accel_x_spec, accel_y_spec, PhysicalBody};
use crate::render::{Camera, SCREEN_HEIGHT, SCREEN_WIDTH, CAMERA_MAX_X, CAMERA_MAX_Y, FPS};
use crate::texture_id::TextureId;

/// The player-controlled entity.
pub struct Player {
    pub body: PhysicalBody,
    pub variant: PlayerVariant,
    pub invincibility: u16,
}

/// Mass of the player's body, in fixed-point units.
pub const PLAYER_MASS_RAW: i64 = 850;

/// Ticks of invincibility granted by a star.
pub const INVINCIBILITY_TIME: u16 = 240;

pub const PLAYER_WIDTH: u32 = 48;

pub const PLAYER_HEIGHT: u32 = 64;

pub const BIG_PLAYER_WIDTH: u32 = 64;

pub const BIG_PLAYER_HEIGHT: u32 = 128;

/// How grown the player is.
#[derive(Clone, Copy, Debug, PartialEq, Eq, Structural)]
pub enum PlayerVariant {
    Small,
    Big,
    CanShoot,
}

/// Base horizontal acceleration per held arrow key, in fixed-point units.
pub const HORIZONTAL_ACCELERATION_RAW: i64 = 922;

/// Fraction of horizontal control kept while airborne.
pub const AIRBORNE_HANDICAP_RAW: i64 = 307;

/// Upward acceleration of a fresh jump, in fixed-point units.
pub const JUMP_ACCELERATION_RAW: i64 = -13824;

/// Fraction of current upward speed added back while the jump key is held.
pub const LONG_JUMP_MULT_RAW: i64 = 92;

/// Horizontal control multiplier while sprinting.
pub const SPRINT_MULT_RAW: i64 = 1382;

/// Fraction of jump boost per unit of horizontal acceleration.
pub const SPEED_JUMP_BONUS_RAW: i64 = 20;

/// The horizontal acceleration the held keys ask for: arrow direction
/// times the base acceleration, cut while airborne, boosted while
/// sprinting.
pub open spec fn player_x_accel(c: Controller, grounded: bool) -> int {
    let dir: int = if c.keys@[key_index_of(Key::Left)] != ButtonState::Inactive {
        -FX_ONE as int
    } else if c.keys@[key_index_of(Key::Right)] != ButtonState::Inactive {
        FX_ONE as int
    } else {
        0
    };
    let base = scale_spec(HORIZONTAL_ACCELERATION_RAW as int, dir);
    let cut = if grounded {
        base
    } else {
        scale_spec(base, AIRBORNE_HANDICAP_RAW as int)
    };
    if c.keys@[key_index_of(Key::Sprint)] != ButtonState::Inactive {
        scale_spec(cut, SPRINT_MULT_RAW as int)
    } else {
        cut
    }
}

/// The vertical acceleration the held keys ask for: a sustained fraction
/// of upward speed while the jump key is held mid-rise, a full jump from
/// the ground on a fresh enough press, nothing otherwise.
pub open spec fn player_y_accel(c: Controller, body: PhysicalBody) -> int {
    let holding_jump = c.keys@[key_index_of(Key::Up)] != ButtonState::Inactive;
    let jumped = match c.keys@[key_index_of(Key::Up)] {
        ButtonState::Active(t) => t <= 10,
        _ => false,
    };
    if holding_jump && body.physics.speed.y.raw < 0 {
        scale_spec(body.physics.speed.y.raw as int, LONG_JUMP_MULT_RAW as int)
    } else if body.grounded && jumped {
        JUMP_ACCELERATION_RAW as int
    } else {
        0
    }
}

/// The vertical acceleration after the speed-jump bonus: a small fraction
/// more per unit of horizontal acceleration.
pub open spec fn player_y_accel_boosted(c: Controller, body: PhysicalBody) -> int {
    let y = player_y_accel(c, body);
    let x = player_x_accel(c, body.grounded);
    let ax = if x >= 0 {
        x
    } else {
        -x
    };
    y + scale_spec(y, scale_spec(ax, SPEED_JUMP_BONUS_RAW as int))
}

impl Player {
    pub fn new(x: i32, y: i32) -> (r: Player)
        ensures
            r.body.hitbox == (Hitbox { x, y, width: PLAYER_WIDTH, height: PLAYER_HEIGHT }),
            r.body.physics.mass.raw == PLAYER_MASS_RAW,
            r.body.physics.speed.x.raw == 0,
            r.body.physics.speed.y.raw == 0,
            !r.body.grounded,
            r.variant == PlayerVariant::Small,
            r.invincibility == 0,
    {
        let hitbox = Hitbox::new(x, y, PLAYER_WIDTH, PLAYER_HEIGHT);
        let mass = Fx { raw: PLAYER_MASS_RAW };

        Player { body: PhysicalBody::new(mass, hitbox), variant: PlayerVariant::Small, invincibility: 0 }
    }

    /// Grow a small player into a big one, extending the hitbox upward and
    /// around its middle.
    pub fn grow(&mut self)
        requires
            old(self).variant == PlayerVariant::Small,
            i32::MIN + 8 <= old(self).body.hitbox.x,
            i32::MIN + 64 <= old(self).body.hitbox.y,
        ensures
            final(self).variant == PlayerVariant::Big,
            final(self).body.hitbox == (Hitbox {
                x: (old(self).body.hitbox.x - 8) as i32,
                y: (old(self).body.hitbox.y - 64) as i32,
                width: BIG_PLAYER_WIDTH,
                height: BIG_PLAYER_HEIGHT,
            }),
            final(self).body.physics == old(self).body.physics,
            final(self).body.grounded == old(self).body.grounded,
            final(self).body.direction == old(self).body.direction,
            final(self).invincibility == old(self).invincibility,
    {
        let height_diff: u32 = BIG_PLAYER_HEIGHT - PLAYER_HEIGHT;
        let width_diff: u32 = (BIG_PLAYER_WIDTH - PLAYER_WIDTH) / 2;

        let old_hitbox = self.body.hitbox;

        let new_hitbox = Hitbox::new(
            old_hitbox.x() - width_diff as i32,
            old_hitbox.y() - height_diff as i32,
            BIG_PLAYER_WIDTH,
            BIG_PLAYER_HEIGHT,
        );

        self.body.hitbox = new_hitbox;
        self.variant = PlayerVariant::Big;
    }

    /// Whether the player has grown past small.
    pub fn is_big(&self) -> (r: bool)
        ensures
            r == (self.variant != PlayerVariant::Small),
    {
        self.variant != PlayerVariant::Small
    }

    /// Turn the held keys into one tick of acceleration on the body.
    pub fn accelerate(&mut self, controller: &Controller)
        requires
            controller.wf(),
            -FX_LIMIT / 2 <= old(self).body.physics.speed.x.raw <= FX_LIMIT / 2,
            -FX_LIMIT / 2 <= old(self).body.physics.speed.y.raw <= FX_LIMIT / 2,
            0 <= old(self).body.physics.mass.raw <= FX_LIMIT / 2,
        ensures
            final(self).variant == old(self).variant,
            final(self).invincibility == old(self).invincibility,
            final(self).body.hitbox == old(self).body.hitbox,
            final(self).body.grounded == old(self).body.grounded,
            final(self).body.direction == old(self).body.direction,
            final(self).body.physics.mass == old(self).body.physics.mass,
            final(self).body.physics.speed.x.raw as int == accel_x_spec(
                old(self).body.physics.speed.x.raw as int,
                old(self).body.grounded,
                player_x_accel(*controller, old(self).body.grounded),
            ),
            final(self).body.physics.speed.y.raw as int == accel_y_spec(
                old(self).body.physics.speed.y.raw as int,
                old(self).body.physics.mass.raw as int,
                old(self).body.grounded,
                player_y_accel_boosted(*controller, old(self).body),
            ),
    {
        let sprinting = controller.is_key_active(Key::Sprint);

        let dir: Fx = if controller.is_key_active(Key::Left) {
            Fx { raw: -FX_ONE }
        } else if controller.is_key_active(Key::Right) {
            Fx { raw: FX_ONE }
        } else {
            Fx { raw: 0 }
        };

        let mut x_accel = Fx { raw: HORIZONTAL_ACCELERATION_RAW }.scale(dir);
        if !self.body.grounded {
            x_accel = x_accel.scale(Fx { raw: AIRBORNE_HANDICAP_RAW });
        }

        if sprinting {
            x_accel = x_accel.scale(Fx { raw: SPRINT_MULT_RAW });
        }

        let jumped = controller.is_key_active_time_limited(Key::Up, 10);
        let holding_jump = controller.is_key_active(Key::Up);

        let speed_y = self.body.speed_y();
        let y_accel: Fx = if holding_jump && speed_y.raw < 0 {
            speed_y.scale(Fx { raw: LONG_JUMP_MULT_RAW })
        } else if self.body.grounded && jumped {
            Fx { raw: JUMP_ACCELERATION_RAW }
        } else {
            Fx { raw: 0 }
        };

        let bonus = x_accel.abs().scale(Fx { raw: SPEED_JUMP_BONUS_RAW });
        let boosted_y_accel = y_accel.add(y_accel.scale(bonus));
        let accel = Vec2 { x: x_accel, y: boosted_y_accel };
        self.body.accelerate(accel);
    }

    /// The player's current extents.
    pub fn rect(&self) -> (r: Hitbox)
        ensures
            r == self.body.hitbox,
    {
        self.body.hitbox
    }

    /// One tick of movement resolution, as the player-controlled body.
    pub fn apply_movement(&mut self, world: &mut PlayableLevel)
        requires
            old(world).wf(),
            crate::movement::resolver_in_range(old(self).body),
        ensures
            final(world).wf(),
            final(world).prototype == old(world).prototype,
            final(world).entities == old(world).entities,
            final(world).clouds == old(world).clouds,
            final(self).variant == old(self).variant,
            final(self).invincibility == old(self).invincibility,
            !crate::movement::overlaps_window(
                *final(world),
                old(self).body.hitbox,
                crate::movement::window_of(old(self).body.hitbox),
            ) ==> !crate::movement::overlaps_window(
                *final(world),
                final(self).body.hitbox,
                crate::movement::window_of(old(self).body.hitbox),
            ),
            final(self).body.grounded ==> final(self).body.physics.speed.y.raw == 0,
            exists|rx: int, ry: int|
                {
                    &&& #[trigger] crate::movement::resolve_ok(
                        *final(world),
                        old(self).body,
                        crate::movement::window_of(old(self).body.hitbox),
                        rx,
                        ry,
                    )
                    &&& final(self).body == crate::movement::post_body(
                        *final(world),
                        old(self).body,
                        crate::movement::window_of(old(self).body.hitbox),
                        rx,
                        ry,
                    )
                },
            forall|x: int, y: int|
                0 <= x < crate::level::LEVEL_WIDTH && 0 <= y < crate::level::LEVEL_HEIGHT
                    ==> #[trigger] final(world).blocks@[crate::level::grid_idx(x, y)] == (
                if crate::movement::bump_marks(
                    *old(world),
                    old(self).body,
                    crate::movement::window_of(old(self).body.hitbox),
                    x,
                    y,
                ) {
                    crate::block::RealBlock {
                        block: old(world).blocks@[crate::level::grid_idx(x, y)].block,
                        state: crate::block::BlockState::Bumped,
                    }
                } else {
                    old(world).blocks@[crate::level::grid_idx(x, y)]
                }),
    {
        self.body.apply_movement(world, true);
    }

    /// Keep the camera centered on the player.
    pub fn stick_camera(&self, cam: &mut Camera)
        requires
            i32::MIN + SCREEN_WIDTH <= self.body.hitbox.x,
            i32::MIN + SCREEN_HEIGHT <= self.body.hitbox.y,
        ensures
            final(cam).x == (if self.body.hitbox.x - SCREEN_WIDTH / 2 <= 0 {
                0int
            } else if self.body.hitbox.x - SCREEN_WIDTH / 2 > CAMERA_MAX_X {
                CAMERA_MAX_X as int
            } else {
                self.body.hitbox.x - SCREEN_WIDTH / 2
            }),
            final(cam).y == (if self.body.hitbox.y - SCREEN_HEIGHT / 2 <= 0 {
                0int
            } else if self.body.hitbox.y - SCREEN_HEIGHT / 2 > CAMERA_MAX_Y {
                CAMERA_MAX_Y as int
            } else {
                self.body.hitbox.y - SCREEN_HEIGHT / 2
            }),
    {
        let x = self.body.hitbox.x() - (SCREEN_WIDTH / 2) as i32;
        let y = self.body.hitbox.y() - (SCREEN_HEIGHT / 2) as i32;
        cam.move_to((x, y));
    }

    /// The player's top-left corner.
    pub fn position(&self) -> (r: (i32, i32))
        ensures
            r.0 == self.body.hitbox.x,
            r.1 == self.body.hitbox.y,
    {
        (self.body.hitbox.x(), self.body.hitbox.y())
    }

    /// The texture the player is drawn with: jumping while airborne,
    /// standing while at rest, running otherwise.
    pub fn texture_id(&self) -> (r: TextureId)
        requires
            self.variant != PlayerVariant::CanShoot,
            self.body.physics.speed.x.raw > i64::MIN,
            self.body.physics.speed.y.raw > i64::MIN,
        ensures
            r == (if !self.body.grounded {
                if self.variant == PlayerVariant::Small {
                    TextureId::PlayerJumping
                } else {
                    TextureId::BigPlayerJumping
                }
            } else if -FX_ONE < self.body.physics.speed.x.raw < FX_ONE && -FX_ONE
                < self.body.physics.speed.y.raw < FX_ONE {
                if self.variant == PlayerVariant::Small {
                    TextureId::PlayerStanding
                } else {
                    TextureId::BigPlayerStanding
                }
            } else {
                if self.variant == PlayerVariant::Small {
                    TextureId::PlayerRunning
                } else {
                    TextureId::BigPlayerRunning
                }
            }),
    {
        if !self.body.grounded {
            match self.variant {
                PlayerVariant::Small => TextureId::PlayerJumping,
                _ => TextureId::BigPlayerJumping,
            }
        } else if self.body.is_still() {
            match self.variant {
                PlayerVariant::Small => TextureId::PlayerStanding,
                _ => TextureId::BigPlayerStanding,
            }
        } else {
            match self.variant {
                PlayerVariant::Small => TextureId::PlayerRunning,
                _ => TextureId::BigPlayerRunning,
            }
        }
    }
}

impl Default for Player {
    fn default() -> (r: Player)
        ensures
            r.body.hitbox == (Hitbox {
                x: 10,
                y: 1024,
                width: PLAYER_WIDTH,
                height: PLAYER_HEIGHT,
            }),
            r.variant == PlayerVariant::Small,
            r.invincibility == 0,
    {
        Player::new(10, 1024)
    }
}

} // verus!
