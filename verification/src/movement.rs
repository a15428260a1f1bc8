//! The collision resolver: converts a desired sub-pixel velocity into the
//! largest safe whole-pixel displacement by bisection, slides along the
//! free axis when only one axis is blocked, detects ground contact, and
//! marks bump-eligible cells struck from below.
//!
//! All collision tests of one tick are restricted to a bounded window of
//! cells around the body, so the cost of a tick does not depend on the size
//! of the grid.

use vstd::prelude::*;

verus! {

use crate::block::{BlockState, BlockType, RealBlock, BLOCK_SIZE};
use crate::fixed::{
    lemma_round_add,
    lemma_round_bound,
    lemma_round_monotone,
    lemma_round_whole,
    round_spec,
    sign_spec,
    Fx,
    Vec2,
    FX_HALF,
    FX_LIMIT,
};
use crate::hitbox::{overlaps_shifted, Hitbox};
use crate::level::{cell_hitbox, grid_idx, PlayableLevel, LEVEL_HEIGHT, LEVEL_WIDTH};
use crate::physics::{PhysicalBody, CLEAR_THRESHOLD_RAW};

/// How far, in cells, the collision window extends from the body's cell in
/// every direction.  It must exceed the largest expected per-tick
/// displacement in cells.
pub const CHECK_DISTANCE: usize = 4;

/// Iteration cap of the bisection search.
pub const MAX_ITER: usize = 32;

/// Bound on the velocities the probing vectors of the resolver can reach;
/// slightly wider than `FX_LIMIT` to make room for one-pixel probes beyond
/// a rounded velocity.
pub const PROBE_LIMIT: i64 = 0x4000_0800;

/// The rectangular window of cells one tick's collision tests are
/// restricted to, inclusive on all four bounds.
#[derive(Clone, Copy, Debug, PartialEq, Eq, Structural)]
pub struct Surroundings {
    pub from_x: usize,
    pub from_y: usize,
    pub to_x: usize,
    pub to_y: usize,
}

impl Surroundings {
    /// A nonempty window within the grid.
    pub open spec fn wf(self) -> bool {
        &&& self.from_x <= self.to_x < LEVEL_WIDTH
        &&& self.from_y <= self.to_y < LEVEL_HEIGHT
    }
}

/// The grid cell a pixel coordinate falls in, clamped to `0 .. n_cells`.
pub open spec fn cell_of(px: int, n_cells: int) -> int {
    if px < 0 {
        0
    } else if px / (BLOCK_SIZE as int) >= n_cells {
        n_cells - 1
    } else {
        px / (BLOCK_SIZE as int)
    }
}

/// The collision window of a body whose extents are `hb`: `CHECK_DISTANCE`
/// cells in every direction from the cell holding the center of `hb`,
/// clamped to the grid.
pub open spec fn window_of(hb: Hitbox) -> Surroundings {
    let bx = cell_of(hb.x + hb.width as int / 2, LEVEL_WIDTH as int);
    let by = cell_of(hb.y + hb.height as int / 2, LEVEL_HEIGHT as int);
    Surroundings {
        from_x: (if bx >= CHECK_DISTANCE { bx - CHECK_DISTANCE } else { 0 }) as usize,
        from_y: (if by >= CHECK_DISTANCE { by - CHECK_DISTANCE } else { 0 }) as usize,
        to_x: (if bx + CHECK_DISTANCE < LEVEL_WIDTH { bx + CHECK_DISTANCE } else {
            LEVEL_WIDTH - 1
        }) as usize,
        to_y: (if by + CHECK_DISTANCE < LEVEL_HEIGHT { by + CHECK_DISTANCE } else {
            LEVEL_HEIGHT - 1
        }) as usize,
    }
}

/// Whether `hb`, translated by `(dx, dy)` pixels, overlaps some solid cell
/// of the window `rg`.
pub open spec fn hits_solid(
    world: PlayableLevel,
    hb: Hitbox,
    dx: int,
    dy: int,
    rg: Surroundings,
) -> bool {
    exists|x: int, y: int|
        {
            &&& rg.from_x <= x <= rg.to_x
            &&& rg.from_y <= y <= rg.to_y
            &&& #[trigger] world.solid_at(x, y)
            &&& overlaps_shifted(hb, dx, dy, cell_hitbox(x, y))
        }
}

/// Whether `hb` overlaps some solid cell of the window `rg` where it
/// stands.
pub open spec fn overlaps_window(world: PlayableLevel, hb: Hitbox, rg: Surroundings) -> bool {
    hits_solid(world, hb, 0, 0, rg)
}

/// Whether `v` lies between 0 and `s` inclusive, on the side of `s`'s sign.
pub open spec fn within_span(v: int, s: int) -> bool {
    if s >= 0 {
        0 <= v <= s
    } else {
        s <= v <= 0
    }
}

/// Extents and velocity bounds under which one resolver tick cannot
/// overflow: coordinates one order below `in_bounds`, velocity within
/// `FX_LIMIT`.
pub open spec fn resolver_in_range(body: PhysicalBody) -> bool {
    &&& -0x0100_0000 <= body.hitbox.x <= 0x0100_0000
    &&& -0x0100_0000 <= body.hitbox.y <= 0x0100_0000
    &&& body.hitbox.width <= 0x0100_0000
    &&& body.hitbox.height <= 0x0100_0000
    &&& -FX_LIMIT <= body.physics.speed.x.raw <= FX_LIMIT
    &&& -FX_LIMIT <= body.physics.speed.y.raw <= FX_LIMIT
}

/// `h` translated by `(dx, dy)` pixels.
pub open spec fn translated(h: Hitbox, dx: int, dy: int) -> Hitbox {
    Hitbox { x: (h.x + dx) as i32, y: (h.y + dy) as i32, width: h.width, height: h.height }
}

/// Translating a hitbox and then shifting the overlap test composes.
proof fn lemma_translate_shift(
    h: Hitbox,
    dx: int,
    dy: int,
    ex: int,
    ey: int,
    other: Hitbox,
)
    requires
        i32::MIN <= h.x + dx <= i32::MAX,
        i32::MIN <= h.y + dy <= i32::MAX,
    ensures
        overlaps_shifted(translated(h, dx, dy), ex, ey, other) == overlaps_shifted(
            h,
            dx + ex,
            dy + ey,
            other,
        ),
{
}

impl PhysicalBody {
    /// The collision window around `hitbox`.
    fn surroundings(hitbox: Hitbox) -> (r: Surroundings)
        requires
            -COORD_WINDOW <= hitbox.x <= COORD_WINDOW,
            -COORD_WINDOW <= hitbox.y <= COORD_WINDOW,
            hitbox.width <= COORD_WINDOW as u32,
            hitbox.height <= COORD_WINDOW as u32,
        ensures
            r == window_of(hitbox),
            r.wf(),
    {
        let center_x = hitbox.x + (hitbox.width / 2) as i32;
        let center_y = hitbox.y + (hitbox.height / 2) as i32;

        let block_x = if center_x < 0 {
            0
        } else {
            let c = (center_x / BLOCK_SIZE as i32) as usize;
            if c >= LEVEL_WIDTH {
                LEVEL_WIDTH - 1
            } else {
                c
            }
        };
        let block_y = if center_y < 0 {
            0
        } else {
            let c = (center_y / BLOCK_SIZE as i32) as usize;
            if c >= LEVEL_HEIGHT {
                LEVEL_HEIGHT - 1
            } else {
                c
            }
        };

        let from_x = if block_x >= CHECK_DISTANCE {
            block_x - CHECK_DISTANCE
        } else {
            0
        };
        let from_y = if block_y >= CHECK_DISTANCE {
            block_y - CHECK_DISTANCE
        } else {
            0
        };

        let to_x = if block_x + CHECK_DISTANCE < LEVEL_WIDTH {
            block_x + CHECK_DISTANCE
        } else {
            LEVEL_WIDTH - 1
        };
        let to_y = if block_y + CHECK_DISTANCE < LEVEL_HEIGHT {
            block_y + CHECK_DISTANCE
        } else {
            LEVEL_HEIGHT - 1
        };

        Surroundings { from_x, from_y, to_x, to_y }
    }

    /// Whether moving by the rounding of `mov` would leave this body
    /// overlapping some solid cell of the window.
    fn would_collide(&self, world: &PlayableLevel, mov: Vec2, range: &Surroundings) -> (r: bool)
        requires
            world.wf(),
            range.wf(),
            -PROBE_LIMIT <= mov.x.raw <= PROBE_LIMIT,
            -PROBE_LIMIT <= mov.y.raw <= PROBE_LIMIT,
            -0x0200_0000 <= self.hitbox.x <= 0x0200_0000,
            -0x0200_0000 <= self.hitbox.y <= 0x0200_0000,
        ensures
            r == hits_solid(
                *world,
                self.hitbox,
                round_spec(mov.x.raw as int),
                round_spec(mov.y.raw as int),
                *range,
            ),
    {
        proof {
            lemma_round_bound(mov.x.raw as int, PROBE_LIMIT as int);
            lemma_round_bound(mov.y.raw as int, PROBE_LIMIT as int);
        }
        let (dx, dy) = mov.round();
        let mut hitbox = self.hitbox;
        hitbox.offset(dx, dy);

        let from_y = range.from_y;
        let to_y = range.to_y;
        let from_x = range.from_x;
        let to_x = range.to_x;

        let mut y = from_y;
        while y <= to_y
            invariant
                from_y <= y <= to_y + 1,
                forall|x2: int, y2: int|
                    {
                        &&& from_x <= x2 <= to_x
                        &&& from_y <= y2 < y
                        &&& #[trigger] world.solid_at(x2, y2)
                    } ==> !overlaps_shifted(
                        self.hitbox,
                        round_spec(mov.x.raw as int),
                        round_spec(mov.y.raw as int),
                        cell_hitbox(x2, y2),
                    ),
            decreases to_y + 1 - y,
        {
            let mut x = from_x;
            while x <= to_x
                invariant
                    from_x <= x <= to_x + 1,
                    from_y <= y <= to_y,
                    forall|x2: int, y2: int|
                        {
                            &&& from_x <= x2 <= to_x
                            &&& from_y <= y2 < y
                            &&& #[trigger] world.solid_at(x2, y2)
                        } ==> !overlaps_shifted(
                            self.hitbox,
                            round_spec(mov.x.raw as int),
                            round_spec(mov.y.raw as int),
                            cell_hitbox(x2, y2),
                        ),
                    forall|x2: int|
                        {
                            &&& from_x <= x2 < x
                            &&& #[trigger] world.solid_at(x2, y as int)
                        } ==> !overlaps_shifted(
                            self.hitbox,
                            round_spec(mov.x.raw as int),
                            round_spec(mov.y.raw as int),
                            cell_hitbox(x2, y as int),
                        ),
                decreases to_x + 1 - x,
            {
                if let Some(block_hitbox) = world.block_hitbox(x, y) {
                    if hitbox.collides(&block_hitbox) {
                        return true;
                    }
                }
                x = x + 1;
            }
            y = y + 1;
        }
        false
    }
}

impl PhysicalBody {
    /// Whether `speed` is "nearly extremal": whether advancing one more
    /// pixel in the direction of travel beyond the rounded `speed` would
    /// collide.
    fn is_best(&self, world: &PlayableLevel, speed: Vec2, range: &Surroundings) -> (r: bool)
        requires
            world.wf(),
            range.wf(),
            -FX_LIMIT <= speed.x.raw <= FX_LIMIT,
            -FX_LIMIT <= speed.y.raw <= FX_LIMIT,
            -0x0200_0000 <= self.hitbox.x <= 0x0200_0000,
            -0x0200_0000 <= self.hitbox.y <= 0x0200_0000,
        ensures
            r == hits_solid(
                *world,
                self.hitbox,
                sign_spec(speed.x.raw as int) + round_spec(speed.x.raw as int),
                sign_spec(speed.y.raw as int) + round_spec(speed.y.raw as int),
                *range,
            ),
    {
        proof {
            lemma_round_bound(speed.x.raw as int, FX_LIMIT as int);
            lemma_round_bound(speed.y.raw as int, FX_LIMIT as int);
        }
        let sx = speed.x.signum();
        let sy = speed.y.signum();
        let (rx, ry) = speed.round();
        let probe = Vec2::from_px(sx + rx, sy + ry);
        proof {
            lemma_round_whole((sx + rx) as int);
            lemma_round_whole((sy + ry) as int);
        }
        self.would_collide(world, probe, range)
    }

    /// Binary-search between no movement (known safe when the body is not
    /// already stuck) and the full desired velocity (known colliding when
    /// this is called) for a displacement that is safe yet nearly extremal.
    ///
    /// Whatever path terminates the search, the result lies between zero
    /// and the desired velocity, componentwise on the side of its sign;
    /// so does its rounding.  If the full velocity is safe it is returned
    /// unchanged, and if the body does not overlap where it stands, the
    /// result never moves it into overlap.
    fn bisect_movement(&self, world: &PlayableLevel, range: &Surroundings) -> (r: Vec2)
        requires
            world.wf(),
            range.wf(),
            resolver_in_range(*self),
        ensures
            within_span(r.x.raw as int, self.physics.speed.x.raw as int),
            within_span(r.y.raw as int, self.physics.speed.y.raw as int),
            within_span(
                round_spec(r.x.raw as int),
                round_spec(self.physics.speed.x.raw as int),
            ),
            within_span(
                round_spec(r.y.raw as int),
                round_spec(self.physics.speed.y.raw as int),
            ),
            !overlaps_window(*world, self.hitbox, *range) ==> !hits_solid(
                *world,
                self.hitbox,
                round_spec(r.x.raw as int),
                round_spec(r.y.raw as int),
                *range,
            ),
            !hits_solid(
                *world,
                self.hitbox,
                round_spec(self.physics.speed.x.raw as int),
                round_spec(self.physics.speed.y.raw as int),
                *range,
            ) ==> r == self.physics.speed,
    {
        let ghost gspeed = self.physics.speed;
        let mut min = Vec2::zero();
        let mut max = self.speed();

        if !(self.would_collide(world, max, range)) {
            proof {
                lemma_round_monotone_span(min.x.raw as int, gspeed.x.raw as int);
                lemma_round_monotone_span(min.y.raw as int, gspeed.y.raw as int);
                lemma_round_monotone_span(max.x.raw as int, gspeed.x.raw as int);
                lemma_round_monotone_span(max.y.raw as int, gspeed.y.raw as int);
            }
            return max;
        }

        let mut it: usize = 0;
        while it < MAX_ITER
            invariant
                within_span(min.x.raw as int, gspeed.x.raw as int),
                within_span(min.y.raw as int, gspeed.y.raw as int),
                within_span(max.x.raw as int, gspeed.x.raw as int),
                within_span(max.y.raw as int, gspeed.y.raw as int),
                !overlaps_window(*world, self.hitbox, *range) ==> !hits_solid(
                    *world,
                    self.hitbox,
                    round_spec(min.x.raw as int),
                    round_spec(min.y.raw as int),
                    *range,
                ),
                hits_solid(
                    *world,
                    self.hitbox,
                    round_spec(gspeed.x.raw as int),
                    round_spec(gspeed.y.raw as int),
                    *range,
                ),
            decreases MAX_ITER - it,
        {
            let (min_rx, min_ry) = min.round();
            let (max_rx, max_ry) = max.round();
            if min_rx == max_rx && min_ry == max_ry {
                break;
            }

            let between = Vec2 {
                x: min.x.add(max.x).half(),
                y: min.y.add(max.y).half(),
            };
            proof {
                lemma_half_within(min.x.raw as int, max.x.raw as int, gspeed.x.raw as int);
                lemma_half_within(min.y.raw as int, max.y.raw as int, gspeed.y.raw as int);
            }

            if self.would_collide(world, between, range) {
                max = between;
            } else if self.is_best(world, between, range) {
                proof {
                    lemma_round_monotone_span(between.x.raw as int, gspeed.x.raw as int);
                    lemma_round_monotone_span(between.y.raw as int, gspeed.y.raw as int);
                }
                return between;
            } else {
                min = between;
            }
            it = it + 1;
        }

        proof {
            lemma_round_monotone_span(min.x.raw as int, gspeed.x.raw as int);
            lemma_round_monotone_span(min.y.raw as int, gspeed.y.raw as int);
        }
        min
    }
}

/// A value within the span of `s` rounds within the span of `s`'s
/// rounding.
proof fn lemma_round_monotone_span(v: int, s: int)
    requires
        within_span(v, s),
        -FX_LIMIT <= s <= FX_LIMIT,
    ensures
        within_span(round_spec(v), round_spec(s)),
{
    if s >= 0 {
        lemma_round_monotone(0, v);
        lemma_round_monotone(v, s);
    } else {
        lemma_round_monotone(v, 0);
        lemma_round_monotone(s, v);
    }
}

/// The truncated-toward-zero midpoint of two values within a span stays
/// within it.
proof fn lemma_half_within(a: int, b: int, s: int)
    requires
        within_span(a, s),
        within_span(b, s),
    ensures
        within_span(crate::fixed::half_spec(a + b), s),
{
    assert(within_span(crate::fixed::half_spec(a + b), s)) by (nonlinear_arith)
        requires
            within_span(a, s),
            within_span(b, s),
    ;
}

/// Coordinate bound accepted by the window computation.
pub const COORD_WINDOW: i32 = 0x0400_0000;

/// What the bisection owes the rest of the tick for a resolved displacement
/// `(rx, ry)` against a body moving at its current speed: the displacement
/// lies between zero and the desired velocity componentwise on the side of
/// its sign; it never moves a non-overlapping body into overlap; and when
/// the full velocity is safe it is taken whole.
pub open spec fn resolve_ok(
    world: PlayableLevel,
    body: PhysicalBody,
    rg: Surroundings,
    rx: int,
    ry: int,
) -> bool {
    let sx = body.physics.speed.x.raw as int;
    let sy = body.physics.speed.y.raw as int;
    &&& within_span(rx, sx)
    &&& within_span(ry, sy)
    &&& (!overlaps_window(world, body.hitbox, rg) ==> !hits_solid(
        world,
        body.hitbox,
        round_spec(rx),
        round_spec(ry),
        rg,
    ))
    &&& (!hits_solid(world, body.hitbox, round_spec(sx), round_spec(sy), rg) ==> rx == sx && ry
        == sy)
}

/// The body one resolver tick leaves behind, given the displacement
/// `(rx, ry)` the bisection resolved: move by its rounding; move the rest
/// of the way along each axis alone where that is free, stopping the axis
/// where it is not (vertical first, then horizontal); probe one pixel down
/// for ground, zeroing vertical speed on contact; finally clear sub-pixel
/// jitter below the clearing threshold.
pub open spec fn post_body(
    world: PlayableLevel,
    body: PhysicalBody,
    rg: Surroundings,
    rx: int,
    ry: int,
) -> PhysicalBody {
    let sx = body.physics.speed.x.raw as int;
    let sy = body.physics.speed.y.raw as int;
    let hb1 = translated(body.hitbox, round_spec(rx), round_spec(ry));
    let hit_y = hits_solid(world, hb1, 0, round_spec(sy - ry), rg);
    let hb2 = if hit_y {
        hb1
    } else {
        translated(hb1, 0, round_spec(sy - ry))
    };
    let vy1 = if hit_y {
        0int
    } else {
        sy
    };
    let hit_x = hits_solid(world, hb2, round_spec(sx - rx), 0, rg);
    let hb3 = if hit_x {
        hb2
    } else {
        translated(hb2, round_spec(sx - rx), 0)
    };
    let vx1 = if hit_x {
        0int
    } else {
        sx
    };
    let grounded = hits_solid(world, hb3, 0, 1, rg);
    let vy2 = if grounded {
        0int
    } else {
        vy1
    };
    let vx2 = if -CLEAR_THRESHOLD_RAW < vx1 < CLEAR_THRESHOLD_RAW {
        0int
    } else {
        vx1
    };
    let vy3 = if -CLEAR_THRESHOLD_RAW < vy2 < CLEAR_THRESHOLD_RAW {
        0int
    } else {
        vy2
    };
    PhysicalBody {
        physics: crate::physics::Physics {
            mass: body.physics.mass,
            speed: Vec2 { x: Fx { raw: vx2 as i64 }, y: Fx { raw: vy3 as i64 } },
        },
        hitbox: hb3,
        grounded,
        direction: body.direction,
    }
}

/// A translated overlap test is the overlap test at the summed shift, for
/// every cell of the window at once.
proof fn lemma_hits_translated(
    world: PlayableLevel,
    hb: Hitbox,
    dx: int,
    dy: int,
    ex: int,
    ey: int,
    rg: Surroundings,
)
    requires
        i32::MIN <= hb.x + dx <= i32::MAX,
        i32::MIN <= hb.y + dy <= i32::MAX,
    ensures
        hits_solid(world, translated(hb, dx, dy), ex, ey, rg) == hits_solid(
            world,
            hb,
            dx + ex,
            dy + ey,
            rg,
        ),
{
    if hits_solid(world, translated(hb, dx, dy), ex, ey, rg) {
        let (x, y) = choose|x: int, y: int|
            {
                &&& rg.from_x <= x <= rg.to_x
                &&& rg.from_y <= y <= rg.to_y
                &&& #[trigger] world.solid_at(x, y)
                &&& overlaps_shifted(translated(hb, dx, dy), ex, ey, cell_hitbox(x, y))
            };
        lemma_translate_shift(hb, dx, dy, ex, ey, cell_hitbox(x, y));
        assert(hits_solid(world, hb, dx + ex, dy + ey, rg));
    }
    if hits_solid(world, hb, dx + ex, dy + ey, rg) {
        let (x, y) = choose|x: int, y: int|
            {
                &&& rg.from_x <= x <= rg.to_x
                &&& rg.from_y <= y <= rg.to_y
                &&& #[trigger] world.solid_at(x, y)
                &&& overlaps_shifted(hb, dx + ex, dy + ey, cell_hitbox(x, y))
            };
        lemma_translate_shift(hb, dx, dy, ex, ey, cell_hitbox(x, y));
        assert(hits_solid(world, translated(hb, dx, dy), ex, ey, rg));
    }
}

impl PhysicalBody {
    /// Advance this body by one tick against the grid: resolve the largest
    /// safe displacement by bisection, slide along whichever axis is still
    /// free, settle the grounded flag, and clear sub-pixel jitter.  A
    /// player-controlled body first marks bump-eligible cells it strikes
    /// from below.
    ///
    /// A body that does not overlap solid geometry in its collision window
    /// before the call does not overlap it after; a body that ends up
    /// grounded ends up with no vertical speed.
    pub fn apply_movement(&mut self, world: &mut PlayableLevel, player: bool)
        requires
            old(world).wf(),
            resolver_in_range(*old(self)),
        ensures
            final(world).wf(),
            final(world).prototype == old(world).prototype,
            final(world).entities == old(world).entities,
            final(world).clouds == old(world).clouds,
            player ==> forall|x: int, y: int|
                0 <= x < LEVEL_WIDTH && 0 <= y < LEVEL_HEIGHT
                    ==> #[trigger] final(world).blocks@[grid_idx(x, y)]
                    == (if bump_marks(*old(world), *old(self), window_of(old(self).hitbox), x, y) {
                    RealBlock {
                        block: old(world).blocks@[grid_idx(x, y)].block,
                        state: BlockState::Bumped,
                    }
                } else {
                    old(world).blocks@[grid_idx(x, y)]
                }),
            !player ==> final(world).blocks == old(world).blocks,
            exists|rx: int, ry: int|
                {
                    &&& #[trigger] resolve_ok(
                        *final(world),
                        *old(self),
                        window_of(old(self).hitbox),
                        rx,
                        ry,
                    )
                    &&& *final(self) == post_body(
                        *final(world),
                        *old(self),
                        window_of(old(self).hitbox),
                        rx,
                        ry,
                    )
                },
            !overlaps_window(*final(world), old(self).hitbox, window_of(old(self).hitbox))
                ==> !overlaps_window(*final(world), final(self).hitbox, window_of(old(self).hitbox)),
            final(self).grounded == hits_solid(
                *final(world),
                final(self).hitbox,
                0,
                1,
                window_of(old(self).hitbox),
            ),
            final(self).grounded ==> final(self).physics.speed.y.raw == 0,
            final(self).physics.mass == old(self).physics.mass,
            final(self).direction == old(self).direction,
            final(self).hitbox.width == old(self).hitbox.width,
            final(self).hitbox.height == old(self).hitbox.height,
    {
        let ghost body0 = *old(self);
        let surroundings = Self::surroundings(self.hitbox);
        let speed = self.speed();
        if player {
            self.bump_blocks(world, &surroundings);
        }
        let ghost w = *world;

        let acceptable_speed = self.bisect_movement(world, &surroundings);
        let ghost rx = acceptable_speed.x.raw as int;
        let ghost ry = acceptable_speed.y.raw as int;

        proof {
            lemma_round_bound(rx, FX_LIMIT as int);
            lemma_round_bound(ry, FX_LIMIT as int);
        }
        let (ax, ay) = acceptable_speed.round();
        self.move_by_vec((ax, ay));
        proof {
            assert(self.hitbox == translated(body0.hitbox, round_spec(rx), round_spec(ry)));
        }
        let ghost hb1 = self.hitbox;

        let difference = Vec2 {
            x: speed.x.sub(acceptable_speed.x),
            y: speed.y.sub(acceptable_speed.y),
        };
        proof {
            lemma_round_bound(difference.x.raw as int, FX_LIMIT as int);
            lemma_round_bound(difference.y.raw as int, FX_LIMIT as int);
        }

        self.try_move_y(difference.y, world, &surroundings);
        let ghost hb2 = self.hitbox;
        self.try_move_x(difference.x, world, &surroundings);
        let ghost hb3 = self.hitbox;

        if self.is_grounded(world, &surroundings) {
            self.grounded = true;
            self.stop_y();
        } else {
            self.grounded = false;
        }

        self.clear_speed();

        proof {
            assert(resolve_ok(w, body0, surroundings, rx, ry));
            assert(*self == post_body(w, body0, surroundings, rx, ry));
            assert(exists|rx2: int, ry2: int|
                {
                    &&& #[trigger] resolve_ok(w, body0, surroundings, rx2, ry2)
                    &&& *self == post_body(w, body0, surroundings, rx2, ry2)
                });
            if !overlaps_window(w, body0.hitbox, surroundings) {
                lemma_hits_translated(w, body0.hitbox, round_spec(rx), round_spec(ry), 0, 0,
                    surroundings);
                assert(!overlaps_window(w, hb1, surroundings));
                if hb2 != hb1 {
                    lemma_hits_translated(w, hb1, 0, round_spec(
                        body0.physics.speed.y.raw - ry), 0, 0, surroundings);
                    assert(!overlaps_window(w, hb2, surroundings));
                }
                if hb3 != hb2 {
                    lemma_hits_translated(w, hb2, round_spec(
                        body0.physics.speed.x.raw - rx), 0, 0, 0, surroundings);
                    assert(!overlaps_window(w, hb3, surroundings));
                }
            }
        }
    }
}

/// Grounded stabilization: a body with only downward velocity, not
/// overlapping anything, with solid ground directly beneath it (every
/// downward step of the tick's reach is blocked), ends the tick exactly
/// where it started, grounded, with no vertical velocity — whatever
/// displacement the bisection resolved.  Together with the contract of
/// `apply_movement`, which guarantees such a resolved displacement exists,
/// this pins the tick of first contact down completely.
pub proof fn lemma_grounded_stabilization(
    w: PlayableLevel,
    b0: PhysicalBody,
    b1: PhysicalBody,
    rg: Surroundings,
    rx: int,
    ry: int,
)
    requires
        b0.physics.speed.x.raw == 0,
        FX_HALF <= b0.physics.speed.y.raw <= FX_LIMIT,
        !overlaps_window(w, b0.hitbox, rg),
        forall|k: int|
            1 <= k <= round_spec(b0.physics.speed.y.raw as int) ==> #[trigger] hits_solid(
                w,
                b0.hitbox,
                0,
                k,
                rg,
            ),
        resolve_ok(w, b0, rg, rx, ry),
        b1 == post_body(w, b0, rg, rx, ry),
    ensures
        b1.grounded,
        b1.physics.speed.y.raw == 0,
        b1.physics.speed.x.raw == 0,
        b1.hitbox == b0.hitbox,
{
    let sy = b0.physics.speed.y.raw as int;
    assert(round_spec(FX_HALF as int) == 1);
    lemma_round_monotone(FX_HALF as int, sy);
    assert(round_spec(sy) >= 1);

    assert(rx == 0);
    assert(round_spec(0) == 0);

    lemma_round_monotone(0, ry);
    lemma_round_monotone(ry, sy);
    if round_spec(ry) >= 1 {
        assert(hits_solid(w, b0.hitbox, 0, round_spec(ry), rg));
        assert(false);
    }
    assert(round_spec(ry) == 0);
    assert(translated(b0.hitbox, 0, 0) == b0.hitbox);
    let hb1 = translated(b0.hitbox, round_spec(rx), round_spec(ry));
    assert(hb1 == b0.hitbox);

    let dy = sy - ry;
    lemma_round_monotone(0, dy);
    lemma_round_monotone(dy, sy);
    let hit_y = hits_solid(w, hb1, 0, round_spec(dy), rg);
    if round_spec(dy) >= 1 {
        assert(hit_y);
    } else {
        assert(!hit_y);
    }
    let hb2 = if hit_y {
        hb1
    } else {
        translated(hb1, 0, round_spec(dy))
    };
    assert(hb2 == b0.hitbox);

    assert(round_spec(0 - rx) == 0);
    assert(!hits_solid(w, hb2, 0, 0, rg));
    let hb3 = hb2;
    assert(hits_solid(w, hb3, 0, 1, rg));
}

/// Axis sliding: a body moving diagonally down and to the right into flat
/// ground — every downward step of the tick's reach is blocked at every
/// horizontal offset the tick can visit, while purely horizontal movement
/// is free — keeps its full horizontal velocity, stays on its row, ends
/// grounded, and completes its horizontal movement to within one pixel of
/// the rounded desired amount.
pub proof fn lemma_axis_sliding(
    w: PlayableLevel,
    b0: PhysicalBody,
    b1: PhysicalBody,
    rg: Surroundings,
    rx: int,
    ry: int,
)
    requires
        FX_HALF <= b0.physics.speed.x.raw <= FX_LIMIT,
        FX_HALF <= b0.physics.speed.y.raw <= FX_LIMIT,
        !overlaps_window(w, b0.hitbox, rg),
        forall|dx: int|
            0 <= dx <= round_spec(b0.physics.speed.x.raw as int) + 1 ==> !#[trigger] hits_solid(
                w,
                b0.hitbox,
                dx,
                0,
                rg,
            ),
        forall|dx: int, k: int|
            0 <= dx <= round_spec(b0.physics.speed.x.raw as int) + 1 && 1 <= k <= round_spec(
                b0.physics.speed.y.raw as int,
            ) ==> #[trigger] hits_solid(w, b0.hitbox, dx, k, rg),
        resolve_ok(w, b0, rg, rx, ry),
        b1 == post_body(w, b0, rg, rx, ry),
        -0x0100_0000 <= b0.hitbox.x <= 0x0100_0000,
        -0x0100_0000 <= b0.hitbox.y <= 0x0100_0000,
    ensures
        b1.physics.speed.x == b0.physics.speed.x,
        b1.physics.speed.y.raw == 0,
        b1.grounded,
        b1.hitbox.y == b0.hitbox.y,
        b1.hitbox.x == b0.hitbox.x + round_spec(rx) + round_spec(
            b0.physics.speed.x.raw - rx,
        ),
        round_spec(b0.physics.speed.x.raw as int) - 1 <= b1.hitbox.x - b0.hitbox.x <= round_spec(
            b0.physics.speed.x.raw as int,
        ) + 1,
{
    let sx = b0.physics.speed.x.raw as int;
    let sy = b0.physics.speed.y.raw as int;
    assert(round_spec(FX_HALF as int) == 1);
    lemma_round_monotone(FX_HALF as int, sy);
    lemma_round_monotone(FX_HALF as int, sx);
    assert(round_spec(sy) >= 1);
    assert(round_spec(sx) >= 1);
    assert(round_spec(0) == 0);
    lemma_round_bound(sx, FX_LIMIT as int);
    lemma_round_bound(sy, FX_LIMIT as int);

    lemma_round_monotone(0, rx);
    lemma_round_monotone(rx, sx);
    lemma_round_monotone(0, ry);
    lemma_round_monotone(ry, sy);

    if round_spec(ry) >= 1 {
        assert(hits_solid(w, b0.hitbox, round_spec(rx), round_spec(ry), rg));
        assert(false);
    }
    assert(round_spec(ry) == 0);

    let hb1 = translated(b0.hitbox, round_spec(rx), 0);
    assert(hb1 == translated(b0.hitbox, round_spec(rx), round_spec(ry)));

    let dy = sy - ry;
    lemma_round_monotone(0, dy);
    lemma_round_monotone(dy, sy);
    lemma_hits_translated(w, b0.hitbox, round_spec(rx), 0, 0, round_spec(dy), rg);
    let hit_y = hits_solid(w, hb1, 0, round_spec(dy), rg);
    let hb2 = if hit_y {
        hb1
    } else {
        translated(hb1, 0, round_spec(dy))
    };
    let vy1: int = if hit_y {
        0
    } else {
        sy
    };
    if round_spec(dy) >= 1 {
        assert(hits_solid(w, b0.hitbox, round_spec(rx), round_spec(dy), rg));
        assert(hit_y);
    } else {
        assert(!hits_solid(w, b0.hitbox, round_spec(rx), 0, rg));
        assert(!hit_y);
        assert(translated(hb1, 0, 0) == hb1);
    }
    assert(hb2 == hb1);

    let dx = sx - rx;
    lemma_round_monotone(0, dx);
    lemma_round_add(rx, dx);
    assert(0 <= round_spec(rx) + round_spec(dx) <= round_spec(sx) + 1);
    lemma_hits_translated(w, b0.hitbox, round_spec(rx), 0, round_spec(dx), 0, rg);
    let hit_x = hits_solid(w, hb2, round_spec(dx), 0, rg);
    assert(!hits_solid(w, b0.hitbox, round_spec(rx) + round_spec(dx), 0, rg));
    assert(!hit_x);
    let hb3 = translated(hb2, round_spec(dx), 0);
    assert(hb3 == translated(b0.hitbox, round_spec(rx) + round_spec(dx), 0)) by {
        assert(i32::MIN <= b0.hitbox.x + round_spec(rx) <= i32::MAX);
    }

    lemma_hits_translated(w, b0.hitbox, round_spec(rx) + round_spec(dx), 0, 0, 1, rg);
    assert(hits_solid(w, b0.hitbox, round_spec(rx) + round_spec(dx), 1, rg));
    assert(hits_solid(w, hb3, 0, 1, rg));
}

/// Distinct in-grid cells have distinct flat indices.
proof fn lemma_grid_idx_injective(x1: int, y1: int, x2: int, y2: int)
    requires
        0 <= x1 < LEVEL_WIDTH,
        0 <= y1 < LEVEL_HEIGHT,
        0 <= x2 < LEVEL_WIDTH,
        0 <= y2 < LEVEL_HEIGHT,
        !(x1 == x2 && y1 == y2),
    ensures
        grid_idx(x1, y1) != grid_idx(x2, y2),
{
    assert(grid_idx(x1, y1) != grid_idx(x2, y2)) by (nonlinear_arith)
        requires
            0 <= x1 < LEVEL_WIDTH,
            0 <= y1 < LEVEL_HEIGHT,
            0 <= x2 < LEVEL_WIDTH,
            0 <= y2 < LEVEL_HEIGHT,
            !(x1 == x2 && y1 == y2),
    ;
}

/// Whether the bump scan of `body` marks the cell `(x, y)`: the cell is in
/// the window, bump-eligible, not below the body's center, and the body's
/// post-movement extents would intersect it.
pub open spec fn bump_marks(
    world: PlayableLevel,
    body: PhysicalBody,
    rg: Surroundings,
    x: int,
    y: int,
) -> bool {
    let block = world.blocks@[grid_idx(x, y)].block;
    &&& rg.from_x <= x <= rg.to_x
    &&& rg.from_y <= y <= rg.to_y
    &&& (block.kind == BlockType::Bricks || block.kind == BlockType::QuestionMark)
    &&& !(y * BLOCK_SIZE + BLOCK_SIZE as int / 2 > body.hitbox.y + body.hitbox.height as int / 2)
    &&& overlaps_shifted(
        body.hitbox,
        round_spec(body.physics.speed.x.raw as int),
        round_spec(body.physics.speed.y.raw as int),
        cell_hitbox(x, y),
    )
}

impl PhysicalBody {
    /// Mark every bump-eligible cell of the window that the body's
    /// post-movement extents would strike from below as `Bumped`.  The
    /// grid's own update pass performs the actual transition.
    fn bump_blocks(&self, world: &mut PlayableLevel, range: &Surroundings)
        requires
            old(world).wf(),
            range.wf(),
            resolver_in_range(*self),
        ensures
            final(world).wf(),
            final(world).prototype == old(world).prototype,
            final(world).entities == old(world).entities,
            final(world).clouds == old(world).clouds,
            forall|x: int, y: int|
                0 <= x < LEVEL_WIDTH && 0 <= y < LEVEL_HEIGHT
                    ==> #[trigger] final(world).blocks@[grid_idx(x, y)]
                    == (if bump_marks(*old(world), *self, *range, x, y) {
                    RealBlock {
                        block: old(world).blocks@[grid_idx(x, y)].block,
                        state: BlockState::Bumped,
                    }
                } else {
                    old(world).blocks@[grid_idx(x, y)]
                }),
    {
        proof {
            lemma_round_bound(self.physics.speed.x.raw as int, FX_LIMIT as int);
            lemma_round_bound(self.physics.speed.y.raw as int, FX_LIMIT as int);
        }
        let mut hitbox = self.hitbox;
        let speed = self.speed();
        let (mx, my) = speed.round();
        hitbox.offset(mx, my);

        let from_y = range.from_y;
        let to_y = range.to_y;
        let from_x = range.from_x;
        let to_x = range.to_x;

        let ghost w0 = *world;

        let mut y = from_y;
        while y <= to_y
            invariant
                from_y <= y <= to_y + 1,
                world.wf(),
                world.prototype == w0.prototype,
                world.entities == w0.entities,
                world.clouds == w0.clouds,
                forall|x2: int, y2: int|
                    0 <= x2 < LEVEL_WIDTH && 0 <= y2 < LEVEL_HEIGHT ==> #[trigger] world.blocks@[
                        grid_idx(x2, y2)
                    ] == (if y2 < y && bump_marks(w0, *self, *range, x2, y2) {
                        RealBlock {
                            block: w0.blocks@[grid_idx(x2, y2)].block,
                            state: BlockState::Bumped,
                        }
                    } else {
                        w0.blocks@[grid_idx(x2, y2)]
                    }),
            decreases to_y + 1 - y,
        {
            let mut x = from_x;
            while x <= to_x
                invariant
                    from_x <= x <= to_x + 1,
                    from_y <= y <= to_y,
                    world.wf(),
                    world.prototype == w0.prototype,
                    world.entities == w0.entities,
                    world.clouds == w0.clouds,
                    forall|x2: int, y2: int|
                        0 <= x2 < LEVEL_WIDTH && 0 <= y2 < LEVEL_HEIGHT ==> #[trigger] world.blocks@[
                            grid_idx(x2, y2)
                        ] == (if (y2 < y || (y2 == y && x2 < x)) && bump_marks(
                            w0,
                            *self,
                            *range,
                            x2,
                            y2,
                        ) {
                            RealBlock {
                                block: w0.blocks@[grid_idx(x2, y2)].block,
                                state: BlockState::Bumped,
                            }
                        } else {
                            w0.blocks@[grid_idx(x2, y2)]
                        }),
                decreases to_x + 1 - x,
            {
                let idx = y * LEVEL_WIDTH + x;
                let cell = world.blocks[idx];
                if cell.block.is_bumpable() {
                    if let Some(block_hitbox) = world.block_hitbox(x, y) {
                        let cell_center_y = block_hitbox.y() + (block_hitbox.height() / 2) as i32;
                        let body_center_y = self.hitbox.y + (self.hitbox.height / 2) as i32;
                        if !(cell_center_y > body_center_y) {
                            if hitbox.collides(&block_hitbox) {
                                let marked = RealBlock {
                                    block: cell.block,
                                    state: BlockState::Bumped,
                                };
                                world.blocks.set(idx, marked);
                            }
                        }
                    }
                }
                proof {
                    assert forall|x2: int, y2: int|
                        0 <= x2 < LEVEL_WIDTH && 0 <= y2 < LEVEL_HEIGHT && !(x2 == x && y2
                            == y) implies grid_idx(x2, y2) != grid_idx(x as int, y as int) by {
                        lemma_grid_idx_injective(x2, y2, x as int, y as int);
                    }
                }
                x = x + 1;
            }
            y = y + 1;
        }
    }

    /// Whether a one-pixel downward probe strikes something solid.
    fn is_grounded(&self, world: &PlayableLevel, range: &Surroundings) -> (r: bool)
        requires
            world.wf(),
            range.wf(),
            -0x0200_0000 <= self.hitbox.x <= 0x0200_0000,
            -0x0200_0000 <= self.hitbox.y <= 0x0200_0000,
        ensures
            r == hits_solid(*world, self.hitbox, 0, 1, *range),
    {
        let probe = Vec2::from_px(0, 1);
        proof {
            lemma_round_whole(0);
            lemma_round_whole(1);
        }
        self.would_collide(world, probe, range)
    }

    /// Try to move along the horizontal axis alone: if the move would
    /// collide, stop horizontal motion instead.
    fn try_move_x(&mut self, speed: Fx, world: &PlayableLevel, range: &Surroundings)
        requires
            world.wf(),
            range.wf(),
            -FX_LIMIT <= speed.raw <= FX_LIMIT,
            -0x0200_0000 <= old(self).hitbox.x <= 0x0200_0000,
            -0x0200_0000 <= old(self).hitbox.y <= 0x0200_0000,
        ensures
            final(self).physics.mass == old(self).physics.mass,
            final(self).grounded == old(self).grounded,
            final(self).direction == old(self).direction,
            final(self).physics.speed.y == old(self).physics.speed.y,
            final(self).hitbox.width == old(self).hitbox.width,
            final(self).hitbox.height == old(self).hitbox.height,
            final(self).hitbox.y == old(self).hitbox.y,
            if hits_solid(*world, old(self).hitbox, round_spec(speed.raw as int), 0, *range) {
                &&& final(self).physics.speed.x.raw == 0
                &&& final(self).hitbox.x == old(self).hitbox.x
            } else {
                &&& final(self).physics.speed.x == old(self).physics.speed.x
                &&& final(self).hitbox.x == old(self).hitbox.x + round_spec(speed.raw as int)
            },
    {
        proof {
            lemma_round_bound(speed.raw as int, FX_LIMIT as int);
            lemma_round_whole(0);
        }
        let speed_vec = Vec2 { x: speed, y: Fx::zero() };
        if self.would_collide(world, speed_vec, range) {
            self.stop_x();
        } else {
            let dx = speed.round_px();
            self.move_by_vec((dx, 0));
        }
    }

    /// Try to move along the vertical axis alone: if the move would
    /// collide, stop vertical motion instead.
    fn try_move_y(&mut self, speed: Fx, world: &PlayableLevel, range: &Surroundings)
        requires
            world.wf(),
            range.wf(),
            -FX_LIMIT <= speed.raw <= FX_LIMIT,
            -0x0200_0000 <= old(self).hitbox.x <= 0x0200_0000,
            -0x0200_0000 <= old(self).hitbox.y <= 0x0200_0000,
        ensures
            final(self).physics.mass == old(self).physics.mass,
            final(self).grounded == old(self).grounded,
            final(self).direction == old(self).direction,
            final(self).physics.speed.x == old(self).physics.speed.x,
            final(self).hitbox.width == old(self).hitbox.width,
            final(self).hitbox.height == old(self).hitbox.height,
            final(self).hitbox.x == old(self).hitbox.x,
            if hits_solid(*world, old(self).hitbox, 0, round_spec(speed.raw as int), *range) {
                &&& final(self).physics.speed.y.raw == 0
                &&& final(self).hitbox.y == old(self).hitbox.y
            } else {
                &&& final(self).physics.speed.y == old(self).physics.speed.y
                &&& final(self).hitbox.y == old(self).hitbox.y + round_spec(speed.raw as int)
            },
    {
        proof {
            lemma_round_bound(speed.raw as int, FX_LIMIT as int);
            lemma_round_whole(0);
        }
        let speed_vec = Vec2 { x: Fx::zero(), y: speed };
        if self.would_collide(world, speed_vec, range) {
            self.stop_y();
        } else {
            let dy = speed.round_px();
            self.move_by_vec((0, dy));
        }
    }
}

} // verus!
