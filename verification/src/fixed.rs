//! Sub-pixel arithmetic for velocities and accelerations.
//!
//! Velocities carry fractional pixel amounts (drag scales a speed by a
//! fraction each tick), while all persisted positions stay on the integer
//! pixel grid.  A quantity is stored as a signed count of fixed-point units,
//! `FX_ONE` units to the pixel, so every operation the resolver needs —
//! halving an interval, rounding to whole pixels, scaling by a drag
//! coefficient — is exact integer arithmetic with a direct specification.

use vstd::prelude::*;

verus! {

use vstd::arithmetic::div_mod::lemma_div_is_ordered;

/// Number of fixed-point units in one pixel.
pub const FX_ONE: i64 = 1024;

/// Half a pixel, in fixed-point units; the tie-point for rounding.
pub const FX_HALF: i64 = 512;

/// Magnitude bound under which all fixed-point operations here are free of
/// overflow (about a million pixels).
pub const FX_LIMIT: i64 = 0x4000_0000;

/// A sub-pixel scalar: `raw` fixed-point units, `FX_ONE` to the pixel.
#[derive(Clone, Copy, Debug, PartialEq, Eq, Structural)]
pub struct Fx {
    pub raw: i64,
}

/// A sub-pixel vector; the type of velocities and accelerations.
#[derive(Clone, Copy, Debug, PartialEq, Eq, Structural)]
pub struct Vec2 {
    pub x: Fx,
    pub y: Fx,
}

/// `raw` rounded to whole pixels, halves away from zero.
pub open spec fn round_spec(raw: int) -> int {
    if raw >= 0 {
        (raw + FX_HALF) / (FX_ONE as int)
    } else {
        -((-raw + FX_HALF) / (FX_ONE as int))
    }
}

/// `raw` halved, toward zero.
pub open spec fn half_spec(raw: int) -> int {
    if raw >= 0 {
        raw / 2
    } else {
        -((-raw) / 2)
    }
}

/// `a` scaled by the fraction `c / FX_ONE`, toward zero.
pub open spec fn scale_spec(a: int, c: int) -> int {
    if a * c >= 0 {
        (a * c) / (FX_ONE as int)
    } else {
        -((-(a * c)) / (FX_ONE as int))
    }
}

/// Sign of `raw`: -1, 0 or 1.
pub open spec fn sign_spec(raw: int) -> int {
    if raw > 0 {
        1int
    } else if raw < 0 {
        -1int
    } else {
        0int
    }
}

impl Fx {
    /// The zero quantity.
    pub fn zero() -> (r: Fx)
        ensures
            r.raw == 0,
    {
        Fx { raw: 0 }
    }

    /// A whole number of pixels.
    pub fn from_px(p: i32) -> (r: Fx)
        ensures
            r.raw == p as int * FX_ONE,
    {
        Fx { raw: (p as i64) * FX_ONE }
    }

    /// Nearest whole pixel, halves away from zero.
    pub fn round_px(self) -> (r: i32)
        requires
            -0x100_0000_0000 <= self.raw <= 0x100_0000_0000,
        ensures
            r as int == round_spec(self.raw as int),
    {
        if self.raw >= 0 {
            ((self.raw + FX_HALF) / FX_ONE) as i32
        } else {
            -(((-self.raw) + FX_HALF) / FX_ONE) as i32
        }
    }

    /// Halved, toward zero.
    pub fn half(self) -> (r: Fx)
        requires
            -0x4000_0000_0000_0000 <= self.raw <= 0x4000_0000_0000_0000,
        ensures
            r.raw == half_spec(self.raw as int),
    {
        if self.raw >= 0 {
            Fx { raw: self.raw / 2 }
        } else {
            Fx { raw: -((-self.raw) / 2) }
        }
    }

    /// Sign as a pixel count: -1, 0 or 1.
    pub fn signum(self) -> (r: i32)
        ensures
            r as int == sign_spec(self.raw as int),
    {
        if self.raw > 0 {
            1
        } else if self.raw < 0 {
            -1
        } else {
            0
        }
    }

    /// Sum of two quantities.
    pub fn add(self, other: Fx) -> (r: Fx)
        requires
            i64::MIN <= self.raw + other.raw <= i64::MAX,
        ensures
            r.raw == self.raw + other.raw,
    {
        Fx { raw: self.raw + other.raw }
    }

    /// Difference of two quantities.
    pub fn sub(self, other: Fx) -> (r: Fx)
        requires
            i64::MIN <= self.raw - other.raw <= i64::MAX,
        ensures
            r.raw == self.raw - other.raw,
    {
        Fx { raw: self.raw - other.raw }
    }

    /// Scaled by the fraction `c / FX_ONE`, toward zero.
    pub fn scale(self, c: Fx) -> (r: Fx)
        requires
            -FX_LIMIT <= self.raw <= FX_LIMIT,
            -FX_LIMIT <= c.raw <= FX_LIMIT,
        ensures
            r.raw == scale_spec(self.raw as int, c.raw as int),
            0 <= c.raw <= FX_ONE ==> (if self.raw >= 0 {
                0 <= r.raw <= self.raw
            } else {
                self.raw <= r.raw <= 0
            }),
    {
        proof {
            assert(0 <= c.raw <= FX_ONE ==> (if self.raw >= 0 {
                0 <= scale_spec(self.raw as int, c.raw as int) <= self.raw
            } else {
                self.raw <= scale_spec(self.raw as int, c.raw as int) <= 0
            })) by (nonlinear_arith)
                requires
                    -FX_LIMIT <= self.raw <= FX_LIMIT,
                    -FX_LIMIT <= c.raw <= FX_LIMIT,
            ;
            assert(-0x1000_0000_0000_0000 <= self.raw as int * c.raw as int
                <= 0x1000_0000_0000_0000) by (nonlinear_arith)
                requires
                    -FX_LIMIT <= self.raw <= FX_LIMIT,
                    -FX_LIMIT <= c.raw <= FX_LIMIT,
            ;
        }
        let p: i64 = self.raw * c.raw;
        if p >= 0 {
            Fx { raw: p / FX_ONE }
        } else {
            Fx { raw: -((-p) / FX_ONE) }
        }
    }

    /// The magnitude.
    pub fn abs(self) -> (r: Fx)
        requires
            self.raw > i64::MIN,
        ensures
            r.raw == (if self.raw >= 0 {
                self.raw as int
            } else {
                -self.raw as int
            }),
    {
        if self.raw >= 0 {
            self
        } else {
            Fx { raw: -self.raw }
        }
    }

    /// Whether the magnitude is below `t` units.
    pub fn abs_below(self, t: i64) -> (r: bool)
        requires
            t >= 0,
            self.raw > i64::MIN,
        ensures
            r == (-t < self.raw < t),
    {
        -t < self.raw && self.raw < t
    }
}

impl Vec2 {
    /// The zero vector.
    pub fn zero() -> (r: Vec2)
        ensures
            r.x.raw == 0,
            r.y.raw == 0,
    {
        Vec2 { x: Fx { raw: 0 }, y: Fx { raw: 0 } }
    }

    /// A vector of whole pixels.
    pub fn from_px(x: i32, y: i32) -> (r: Vec2)
        ensures
            r.x.raw == x as int * FX_ONE,
            r.y.raw == y as int * FX_ONE,
    {
        Vec2 { x: Fx::from_px(x), y: Fx::from_px(y) }
    }

    /// Both components rounded to whole pixels.
    pub fn round(self) -> (r: (i32, i32))
        requires
            -0x100_0000_0000 <= self.x.raw <= 0x100_0000_0000,
            -0x100_0000_0000 <= self.y.raw <= 0x100_0000_0000,
        ensures
            r.0 as int == round_spec(self.x.raw as int),
            r.1 as int == round_spec(self.y.raw as int),
    {
        (self.x.round_px(), self.y.round_px())
    }
}

/// Scaling by a fraction of at most one never grows a value's magnitude.
pub proof fn lemma_scale_contract(a: int, c: int)
    requires
        -FX_LIMIT <= a <= FX_LIMIT,
        0 <= c <= FX_ONE,
    ensures
        a >= 0 ==> 0 <= scale_spec(a, c) <= a,
        a < 0 ==> a <= scale_spec(a, c) <= 0,
{
    assert(a >= 0 ==> 0 <= scale_spec(a, c) <= a) by (nonlinear_arith)
        requires
            -FX_LIMIT <= a <= FX_LIMIT,
            0 <= c <= FX_ONE,
    ;
    assert(a < 0 ==> a <= scale_spec(a, c) <= 0) by (nonlinear_arith)
        requires
            -FX_LIMIT <= a <= FX_LIMIT,
            0 <= c <= FX_ONE,
    ;
}

/// A bound on the input gives a pixel bound on the rounding.
pub proof fn lemma_round_bound(a: int, m: int)
    requires
        m >= 0,
        -m <= a <= m,
    ensures
        -(m / (FX_ONE as int) + 1) <= round_spec(a) <= m / (FX_ONE as int) + 1,
{
    if a >= 0 {
        lemma_div_is_ordered(a + FX_HALF, m + FX_ONE, FX_ONE as int);
        assert((m + FX_ONE) / (FX_ONE as int) == m / (FX_ONE as int) + 1) by (nonlinear_arith);
        lemma_div_is_ordered(0, a + FX_HALF, FX_ONE as int);
    } else {
        lemma_div_is_ordered(-a + FX_HALF, m + FX_ONE, FX_ONE as int);
        assert((m + FX_ONE) / (FX_ONE as int) == m / (FX_ONE as int) + 1) by (nonlinear_arith);
        lemma_div_is_ordered(0, -a + FX_HALF, FX_ONE as int);
    }
}

/// Rounding is monotone.
pub proof fn lemma_round_monotone(a: int, b: int)
    requires
        a <= b,
    ensures
        round_spec(a) <= round_spec(b),
{
    if a >= 0 {
        lemma_div_is_ordered(a + FX_HALF, b + FX_HALF, FX_ONE as int);
    } else if b < 0 {
        lemma_div_is_ordered(-b + FX_HALF, -a + FX_HALF, FX_ONE as int);
    } else {
        assert(round_spec(a) <= 0) by {
            lemma_div_is_ordered(0, -a + FX_HALF, FX_ONE as int);
        }
        assert(round_spec(b) >= 0) by {
            lemma_div_is_ordered(0, b + FX_HALF, FX_ONE as int);
        }
    }
}

/// A whole number of pixels rounds to itself.
pub proof fn lemma_round_whole(k: int)
    ensures
        round_spec(k * FX_ONE) == k,
{
    if k >= 0 {
        assert((k * FX_ONE + FX_HALF) / (FX_ONE as int) == k) by (nonlinear_arith);
    } else {
        assert((-(k * FX_ONE) + FX_HALF) / (FX_ONE as int) == -k) by (nonlinear_arith);
    }
}

/// Rounding moves a value by at most half a pixel.
pub proof fn lemma_round_half(a: int)
    ensures
        -FX_HALF <= round_spec(a) * FX_ONE - a <= FX_HALF,
{
    if a >= 0 {
        assert(-FX_HALF <= ((a + FX_HALF) / (FX_ONE as int)) * FX_ONE - a <= FX_HALF)
            by (nonlinear_arith);
    } else {
        assert(-FX_HALF <= (-(((-a) + FX_HALF) / (FX_ONE as int))) * FX_ONE - a <= FX_HALF)
            by (nonlinear_arith);
    }
}

/// Rounding two parts separately lands within one pixel of rounding their
/// sum.
pub proof fn lemma_round_add(a: int, b: int)
    ensures
        round_spec(a + b) - 1 <= round_spec(a) + round_spec(b) <= round_spec(a + b) + 1,
{
    lemma_round_half(a);
    lemma_round_half(b);
    lemma_round_half(a + b);
    let d = round_spec(a) + round_spec(b) - round_spec(a + b);
    assert(-3 * FX_HALF <= d * FX_ONE <= 3 * FX_HALF) by (nonlinear_arith)
        requires
            -FX_HALF <= round_spec(a) * FX_ONE - a <= FX_HALF,
            -FX_HALF <= round_spec(b) * FX_ONE - b <= FX_HALF,
            -FX_HALF <= round_spec(a + b) * FX_ONE - (a + b) <= FX_HALF,
            d == round_spec(a) + round_spec(b) - round_spec(a + b),
    ;
    assert(-1 <= d <= 1) by (nonlinear_arith)
        requires
            -3 * FX_HALF <= d * FX_ONE <= 3 * FX_HALF,
    ;
}

/// Rounding never moves a value by as much as a pixel.
pub proof fn lemma_round_close(a: int)
    ensures
        a - FX_ONE < round_spec(a) * FX_ONE < a + FX_ONE,
{
    if a >= 0 {
        assert(a - FX_ONE < ((a + FX_HALF) / (FX_ONE as int)) * FX_ONE < a + FX_ONE)
            by (nonlinear_arith);
    } else {
        assert(a - FX_ONE < -(((-a + FX_HALF) / (FX_ONE as int)) * FX_ONE) < a + FX_ONE)
            by (nonlinear_arith);
    }
}

} // verus!
