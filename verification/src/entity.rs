//! Entities: everything that moves or can be collected, from enemies to
//! short-lived particles, together with the prototypes levels are built of.

use vstd::prelude::*;

verus! {

use crate::block::{BlockType, Collectible, BLOCK_SIZE};
use crate::fixed::{round_spec, Fx, Vec2, FX_LIMIT, FX_ONE};
use crate::hitbox::Hitbox;
use crate::level::{LevelTheme, PlayableLevel};
use crate::physics::{accel_x_spec, accel_y_spec, PhysicalBody};

/// A live entity: its kind and its moving body.
#[derive(Clone, Copy, Debug)]
pub struct Entity {
    pub kind: EntityType,
    pub body: PhysicalBody,
}

/// A dormant entity as stored in a level: kind and spawn position.
#[derive(Clone, Copy, Debug)]
pub struct EntityPrototype {
    pub kind: EntityType,
    pub position: (i32, i32),
}

/// Every kind of entity.
#[derive(Clone, Copy, Debug)]
pub enum EntityType {
    Collectible(Collectible),
    Enemy(crate::enemy::EnemyType),
    Particle(Particle),
    EndFlag,
    Dead,
}

/// A short-lived decorative entity.
#[derive(Clone, Copy, Debug, PartialEq, Eq, Structural)]
pub enum Particle {
    Coin { lifetime: u8 },
    BlockFragment { kind: BlockType, theme: LevelTheme },
}

/// Horizontal acceleration of a loose mushroom, in fixed-point units.
pub const MUSHROOM_ACCEL_RAW: i64 = 717;

/// Height of the end-of-level flag pole, in pixels.
pub const FLAG_HEIGHT: u32 = 640;

/// Ticks a coin particle stays alive.
pub const COIN_LIFETIME: u8 = 25;

impl Particle {
    pub fn new_coin() -> (r: Self)
        ensures
            r == (Particle::Coin { lifetime: COIN_LIFETIME }),
    {
        Particle::Coin { lifetime: COIN_LIFETIME }
    }

    pub fn new_fragment(kind: BlockType, theme: LevelTheme) -> (r: Self)
        ensures
            r == (Particle::BlockFragment { kind, theme }),
    {
        Particle::BlockFragment { kind, theme }
    }

    /// The particle one tick later: coins burn down their lifetime,
    /// fragments stay as they are.
    pub open spec fn step_spec(self) -> Particle {
        match self {
            Particle::Coin { lifetime } => if lifetime > 0 {
                Particle::Coin { lifetime: (lifetime - 1) as u8 }
            } else {
                self
            },
            _ => self,
        }
    }

    /// Advance entity `i`: let its body coast one tick (gravity and drag
    /// only, no collision) and age the particle.
    pub fn update(self, i: usize, world: &mut PlayableLevel)
        requires
            i < old(world).entities@.len(),
            particle_body_in_range(old(world).entities@[i as int].body),
        ensures
            final(world).prototype == old(world).prototype,
            final(world).blocks == old(world).blocks,
            final(world).clouds == old(world).clouds,
            final(world).entities@.len() == old(world).entities@.len(),
            forall|j: int|
                0 <= j < old(world).entities@.len() && j != i ==> final(world).entities@[j]
                    == old(world).entities@[j],
            final(world).entities@[i as int].kind == EntityType::Particle(self.step_spec()),
            final(world).entities@[i as int].body == coasted_body(
                old(world).entities@[i as int].body,
            ),
    {
        let mut body = world.entities[i].body;
        proof {
            crate::fixed::lemma_scale_contract(
                body.physics.speed.x.raw as int,
                crate::physics::AIR_DRAG_RAW as int,
            );
            crate::fixed::lemma_scale_contract(
                body.physics.speed.x.raw as int,
                (crate::physics::AIR_DRAG_RAW + crate::physics::GROUND_DRAG_RAW) as int,
            );
            crate::fixed::lemma_scale_contract(
                body.physics.speed.y.raw as int,
                crate::physics::AIR_DRAG_RAW as int,
            );
            crate::fixed::lemma_scale_contract(
                body.physics.mass.raw as int,
                crate::physics::GRAVITY_RAW as int,
            );
        }
        body.accelerate(Vec2::zero());
        proof {
            crate::fixed::lemma_round_close(body.physics.speed.x.raw as int);
            crate::fixed::lemma_round_close(body.physics.speed.y.raw as int);
        }
        body.apply_movement_unchecked();
        let entity = Entity { kind: EntityType::Particle(self.step()), body };
        world.entities.set(i, entity);
    }

    /// Exec twin of `step_spec`.
    fn step(self) -> (r: Particle)
        ensures
            r == self.step_spec(),
    {
        match self {
            Particle::Coin { lifetime } => {
                if lifetime > 0 {
                    Particle::Coin { lifetime: lifetime - 1 }
                } else {
                    self
                }
            },
            particle => particle,
        }
    }
}

/// Bounds under which a particle body can coast one tick without overflow.
pub open spec fn particle_body_in_range(b: PhysicalBody) -> bool {
    &&& -FX_LIMIT / 2 <= b.physics.speed.x.raw <= FX_LIMIT / 2
    &&& -FX_LIMIT / 2 <= b.physics.speed.y.raw <= FX_LIMIT / 2
    &&& 0 <= b.physics.mass.raw <= FX_LIMIT / 2
    &&& b.hitbox.in_bounds()
}

/// The body after one tick of coasting: speeds accumulated with no external
/// acceleration, then the hitbox moved by the rounded new speed.
pub open spec fn coasted_body(b: PhysicalBody) -> PhysicalBody {
    let sx = accel_x_spec(b.physics.speed.x.raw as int, b.grounded, 0);
    let sy = accel_y_spec(b.physics.speed.y.raw as int, b.physics.mass.raw as int, b.grounded, 0);
    PhysicalBody {
        physics: crate::physics::Physics {
            mass: b.physics.mass,
            speed: Vec2 { x: Fx { raw: sx as i64 }, y: Fx { raw: sy as i64 } },
        },
        hitbox: Hitbox {
            x: (b.hitbox.x + round_spec(sx)) as i32,
            y: (b.hitbox.y + round_spec(sy)) as i32,
            ..b.hitbox
        },
        grounded: b.grounded,
        direction: b.direction,
    }
}

impl EntityPrototype {
    pub fn new(kind: EntityType, pos: (i32, i32)) -> (r: EntityPrototype)
        ensures
            r.kind == kind,
            r.position == pos,
    {
        EntityPrototype { kind, position: pos }
    }

    /// The extents an entity of this prototype spawns with.  Enemies get
    /// their extents from the entity layer, not from here.
    pub fn hitbox(self) -> (r: Hitbox)
        requires
            !(self.kind is Enemy),
        ensures
            r == prototype_hitbox(self),
    {
        let (x, y) = self.position;
        match self.kind {
            EntityType::Collectible(_) => Hitbox::new(x, y, BLOCK_SIZE, BLOCK_SIZE),
            EntityType::Enemy(_) => Hitbox::new(x, y, 1, 1),
            EntityType::Particle(_) => Hitbox::new(x, y, 1, 1),
            EntityType::EndFlag => Hitbox::new(x, y, BLOCK_SIZE, FLAG_HEIGHT),
            EntityType::Dead => Hitbox::new(-100, -100, 1, 1),
        }
    }

    /// All bodies spawn with unit mass.
    pub fn mass(self) -> (r: Fx)
        ensures
            r.raw == FX_ONE,
    {
        Fx { raw: FX_ONE }
    }
}

/// The extents an entity of prototype `p` spawns with.
pub open spec fn prototype_hitbox(p: EntityPrototype) -> Hitbox {
    match p.kind {
        EntityType::Collectible(_) => Hitbox {
            x: p.position.0,
            y: p.position.1,
            width: BLOCK_SIZE,
            height: BLOCK_SIZE,
        },
        EntityType::EndFlag => Hitbox {
            x: p.position.0,
            y: p.position.1,
            width: BLOCK_SIZE,
            height: FLAG_HEIGHT,
        },
        EntityType::Dead => Hitbox { x: -100i32, y: -100i32, width: 1u32, height: 1u32 },
        _ => Hitbox { x: p.position.0, y: p.position.1, width: 1, height: 1 },
    }
}

impl Entity {
    /// Wake a prototype into a live entity with a fresh body.
    pub fn from_prototype(prototype: EntityPrototype) -> (r: Entity)
        requires
            !(prototype.kind is Enemy),
        ensures
            r.kind == prototype.kind,
            r.body.hitbox == prototype_hitbox(prototype),
            r.body.physics.mass.raw == FX_ONE,
            r.body.physics.speed.x.raw == 0,
            r.body.physics.speed.y.raw == 0,
            !r.body.grounded,
    {
        let hitbox = prototype.hitbox();
        let mass = prototype.mass();
        let body = PhysicalBody::new(mass, hitbox);

        Entity { kind: prototype.kind, body }
    }

    pub fn new(kind: EntityType, pos: (i32, i32)) -> (r: Entity)
        requires
            !(kind is Enemy),
        ensures
            r.kind == kind,
            r.body.hitbox == prototype_hitbox(EntityPrototype { kind, position: pos }),
            r.body.physics.mass.raw == FX_ONE,
            r.body.physics.speed.x.raw == 0,
            r.body.physics.speed.y.raw == 0,
            !r.body.grounded,
    {
        Entity::from_prototype(EntityPrototype::new(kind, pos))
    }

    /// The inert entity that marks a slot for removal.
    pub fn dead() -> (r: Entity)
        ensures
            r.kind is Dead,
            r.body.hitbox == (Hitbox { x: -100i32, y: -100i32, width: 1u32, height: 1u32 }),
            r.body.physics.mass.raw == FX_ONE,
            r.body.physics.speed.x.raw == 0,
            r.body.physics.speed.y.raw == 0,
            !r.body.grounded,
            r.body.direction == crate::utility::XDirection::Still,
    {
        let body = PhysicalBody::new(Fx { raw: FX_ONE }, Hitbox::new(-100, -100, 1, 1));

        Entity { kind: EntityType::Dead, body }
    }

    /// Wake an entity at grid cell `(x, y)`.
    pub fn spawn(kind: EntityType, pos: (usize, usize)) -> (r: Entity)
        requires
            !(kind is Enemy),
            pos.0 * BLOCK_SIZE <= i32::MAX,
            pos.1 * BLOCK_SIZE <= i32::MAX,
        ensures
            r.kind == kind,
            r.body.hitbox == prototype_hitbox(
                EntityPrototype {
                    kind,
                    position: ((pos.0 * BLOCK_SIZE) as i32, (pos.1 * BLOCK_SIZE) as i32),
                },
            ),
            r.body.physics.speed.x.raw == 0,
            r.body.physics.speed.y.raw == 0,
            r.body.physics.mass.raw == FX_ONE,
            !r.body.grounded,
    {
        let (cx, cy) = pos;
        let x = cx as i32 * BLOCK_SIZE as i32;
        let y = cy as i32 * BLOCK_SIZE as i32;
        Self::new(kind, (x, y))
    }

    /// Wake an entity at grid cell `pos` and give it an initial push.
    pub fn spawn_with_speed(kind: EntityType, pos: (usize, usize), speed: Vec2) -> (r: Entity)
        requires
            !(kind is Enemy),
            pos.0 * BLOCK_SIZE <= i32::MAX,
            pos.1 * BLOCK_SIZE <= i32::MAX,
            -FX_LIMIT <= speed.x.raw <= FX_LIMIT,
            -FX_LIMIT <= speed.y.raw <= FX_LIMIT,
        ensures
            r.kind == kind,
            r.body.hitbox == prototype_hitbox(
                EntityPrototype {
                    kind,
                    position: ((pos.0 * BLOCK_SIZE) as i32, (pos.1 * BLOCK_SIZE) as i32),
                },
            ),
            r.body.physics.speed.x.raw as int == accel_x_spec(0, false, speed.x.raw as int),
            r.body.physics.speed.y.raw as int == accel_y_spec(
                0,
                FX_ONE as int,
                false,
                speed.y.raw as int,
            ),
            !r.body.grounded,
    {
        let mut entity = Self::spawn(kind, pos);
        entity.body.accelerate(speed);
        entity
    }

    /// Wake the coin particle a bumped coin block tosses up.
    pub fn spawn_coin(pos: (usize, usize)) -> (r: Entity)
        requires
            pos.0 * BLOCK_SIZE <= i32::MAX,
            pos.1 * BLOCK_SIZE <= i32::MAX,
        ensures
            r.kind == EntityType::Particle(Particle::Coin { lifetime: COIN_LIFETIME }),
            r.body.hitbox == prototype_hitbox(
                EntityPrototype {
                    kind: EntityType::Particle(Particle::Coin { lifetime: COIN_LIFETIME }),
                    position: ((pos.0 * BLOCK_SIZE) as i32, (pos.1 * BLOCK_SIZE) as i32),
                },
            ),
            r.body.physics.speed.x.raw == 0,
            r.body.physics.speed.y.raw as int == accel_y_spec(0, FX_ONE as int, false, -15360),
    {
        Self::spawn_with_speed(
            EntityType::Particle(Particle::new_coin()),
            pos,
            Vec2 { x: Fx { raw: 0 }, y: Fx { raw: -15360 } },
        )
    }

    /// Whether the entity should be swept from the world.
    pub fn is_dead(&self) -> (r: bool)
        ensures
            r == (match self.kind {
                EntityType::Dead => true,
                EntityType::Particle(Particle::Coin { lifetime }) => lifetime == 0,
                _ => false,
            }),
    {
        match self.kind {
            EntityType::Dead => true,
            EntityType::Particle(Particle::Coin { lifetime }) => lifetime == 0,
            _ => false,
        }
    }
}

} // verus!
