//! Saturating fixed-point scalars.
//!
//! A [`Fx`] holds a real number as a count of millionths (`units / SCALE`).
//! Every operation clamps its result into the `i64` range instead of
//! overflowing, and division truncates toward zero; the spec functions below
//! (`fx_add`, `fx_mul`, ...) state the exact integer each operation returns.

use vstd::arithmetic::div_mod::{lemma_div_nonincreasing, lemma_div_pos_is_pos};
use vstd::prelude::*;

verus! {

/// Number of units per whole: values carry six decimal places.
pub const SCALE: i64 = 1_000_000;

/// 2*pi in units, rounded to the nearest unit; the period of [`Fx::sin`].
pub const TWO_PI_UNITS: i64 = 6_283_185;

/// pi in units, rounded down; splits a period into the two halves that
/// [`Fx::sin`] maps to [-pi, pi].
pub const PI_UNITS: i64 = 3_141_592;

/// A fixed-point number counting millionths of a unit.
#[derive(Clone, Copy, Debug, PartialEq, Eq, Structural)]
pub struct Fx {
    pub units: i64,
}

impl View for Fx {
    type V = int;

    open spec fn view(&self) -> int {
        self.units as int
    }
}

/// Saturate a mathematical integer into the `i64` range.
pub open spec fn clamp64(v: int) -> int {
    if v < i64::MIN as int {
        i64::MIN as int
    } else if v > i64::MAX as int {
        i64::MAX as int
    } else {
        v
    }
}

/// Division truncating toward zero, for a positive divisor.
pub open spec fn div_trunc(p: int, d: int) -> int
    recommends
        0 < d,
{
    if 0 <= p {
        p / d
    } else {
        -((-p) / d)
    }
}

/// What addition of two scalars returns: the exact sum, saturated.
pub open spec fn fx_add(a: int, b: int) -> int {
    clamp64(a + b)
}

/// What subtraction returns: the exact difference, saturated.
pub open spec fn fx_sub(a: int, b: int) -> int {
    clamp64(a - b)
}

/// What negation returns (the saturation only matters at `i64::MIN`).
pub open spec fn fx_neg(a: int) -> int {
    clamp64(-a)
}

/// What the absolute value returns.
pub open spec fn fx_abs(a: int) -> int {
    if a < 0 {
        fx_neg(a)
    } else {
        a
    }
}

/// What multiplication returns: the product rescaled by `SCALE`,
/// truncated toward zero, saturated.
pub open spec fn fx_mul(a: int, b: int) -> int {
    clamp64(div_trunc(a * b, SCALE as int))
}

/// What dividing the units by a positive integer `k` returns
/// (dividing the represented value by `k`).
pub open spec fn fx_div_int(a: int, k: int) -> int
    recommends
        0 < k,
{
    clamp64(div_trunc(a, k))
}

/// What division of two scalars returns. A zero divisor saturates to the
/// sign of the dividend, the way the represented value would diverge.
pub open spec fn fx_div(a: int, b: int) -> int {
    if b == 0 {
        if a > 0 {
            i64::MAX as int
        } else if a < 0 {
            i64::MIN as int
        } else {
            0
        }
    } else if b > 0 {
        clamp64(div_trunc(a * (SCALE as int), b))
    } else {
        clamp64(-div_trunc(a * (SCALE as int), -b))
    }
}

/// The angle `a >= 0` (in units) reduced modulo one period into
/// `[-PI_UNITS - 1, PI_UNITS]`.
pub open spec fn reduce_angle(a: int) -> int
    recommends
        0 <= a,
{
    let m = a % (TWO_PI_UNITS as int);
    if m <= PI_UNITS as int {
        m
    } else {
        m - TWO_PI_UNITS as int
    }
}

/// The odd polynomial that [`Fx::sin`] evaluates on a reduced angle `t`:
/// the degree-11 Taylor expansion of sine in Horner form, each step in
/// fixed-point arithmetic.
pub open spec fn sin_reduced(t: int) -> int {
    let t2 = fx_mul(t, t);
    let u1 = fx_sub(SCALE as int, fx_div_int(t2, 110));
    let u2 = fx_sub(SCALE as int, fx_div_int(fx_mul(t2, u1), 72));
    let u3 = fx_sub(SCALE as int, fx_div_int(fx_mul(t2, u2), 42));
    let u4 = fx_sub(SCALE as int, fx_div_int(fx_mul(t2, u3), 20));
    let u5 = fx_sub(SCALE as int, fx_div_int(fx_mul(t2, u4), 6));
    fx_mul(t, u5)
}

/// What [`Fx::sin`] returns: the reduced-angle polynomial, extended to
/// negative angles as an odd function.
pub open spec fn fx_sin(x: int) -> int {
    if 0 <= x {
        sin_reduced(reduce_angle(x))
    } else {
        fx_neg(sin_reduced(reduce_angle(-x)))
    }
}

/// A zero factor yields a zero product, whatever the other factor.
pub proof fn lemma_fx_mul_of_zero(a: int, z: int)
    requires
        z == 0,
    ensures
        fx_mul(a, z) == 0,
        fx_mul(z, a) == 0,
{
    assert(a * z == 0 && z * a == 0) by (nonlinear_arith)
        requires
            z == 0,
    ;
    vstd::arithmetic::div_mod::lemma_div_of0(SCALE as int);
}

/// A zero numerator yields a zero quotient, for a positive divisor.
pub proof fn lemma_fx_div_int_of_zero(z: int, k: int)
    requires
        z == 0,
        0 < k,
    ensures
        fx_div_int(z, k) == 0,
{
    vstd::arithmetic::div_mod::lemma_div_of0(k);
}

/// The sine of zero is zero: the angle reduces to zero and the polynomial
/// carries the zero factor through every term.
pub proof fn lemma_fx_sin_zero()
    ensures
        fx_sin(0) == 0,
{
    assert(0int % (TWO_PI_UNITS as int) == 0);
    assert(reduce_angle(0) == 0);
    let t2 = fx_mul(0, 0);
    lemma_fx_mul_of_zero(0, 0);
    lemma_fx_div_int_of_zero(t2, 110);
    let u1 = fx_sub(SCALE as int, fx_div_int(t2, 110));
    lemma_fx_mul_of_zero(u1, t2);
    lemma_fx_div_int_of_zero(fx_mul(t2, u1), 72);
    let u2 = fx_sub(SCALE as int, fx_div_int(fx_mul(t2, u1), 72));
    lemma_fx_mul_of_zero(u2, t2);
    lemma_fx_div_int_of_zero(fx_mul(t2, u2), 42);
    let u3 = fx_sub(SCALE as int, fx_div_int(fx_mul(t2, u2), 42));
    lemma_fx_mul_of_zero(u3, t2);
    lemma_fx_div_int_of_zero(fx_mul(t2, u3), 20);
    let u4 = fx_sub(SCALE as int, fx_div_int(fx_mul(t2, u3), 20));
    lemma_fx_mul_of_zero(u4, t2);
    lemma_fx_div_int_of_zero(fx_mul(t2, u4), 6);
    let u5 = fx_sub(SCALE as int, fx_div_int(fx_mul(t2, u4), 6));
    lemma_fx_mul_of_zero(u5, 0);
}

/// Saturate an `i128` intermediate into the `i64` range.
fn clamp_units(v: i128) -> (r: i64)
    ensures
        r as int == clamp64(v as int),
{
    if v < i64::MIN as i128 {
        i64::MIN
    } else if v > i64::MAX as i128 {
        i64::MAX
    } else {
        v as i64
    }
}

/// Truncating division of an `i128` by a positive divisor, computed on
/// magnitudes so that the rounding direction is explicit.
fn div_trunc_i128(p: i128, d: i128) -> (r: i128)
    requires
        1 <= d,
        i128::MIN < p,
    ensures
        r as int == div_trunc(p as int, d as int),
        0 <= p ==> 0 <= r <= p,
        p < 0 ==> p <= r <= 0,
{
    if p >= 0 {
        let q: u128 = (p as u128) / (d as u128);
        proof {
            lemma_div_nonincreasing(p as int, d as int);
            lemma_div_pos_is_pos(p as int, d as int);
        }
        q as i128
    } else {
        let m: i128 = -p;
        let q: u128 = (m as u128) / (d as u128);
        proof {
            lemma_div_nonincreasing(m as int, d as int);
            lemma_div_pos_is_pos(m as int, d as int);
        }
        -(q as i128)
    }
}

impl Fx {
    /// Saturating addition.
    pub fn add(self, o: Fx) -> (r: Fx)
        ensures
            r@ == fx_add(self@, o@),
    {
        let s: i128 = self.units as i128 + o.units as i128;
        Fx { units: clamp_units(s) }
    }

    /// Saturating subtraction.
    pub fn sub(self, o: Fx) -> (r: Fx)
        ensures
            r@ == fx_sub(self@, o@),
    {
        let s: i128 = self.units as i128 - o.units as i128;
        Fx { units: clamp_units(s) }
    }

    /// Saturating negation.
    pub fn neg(self) -> (r: Fx)
        ensures
            r@ == fx_neg(self@),
    {
        let m: i128 = -(self.units as i128);
        Fx { units: clamp_units(m) }
    }

    /// Absolute value (saturating at `i64::MIN`).
    pub fn abs(self) -> (r: Fx)
        ensures
            r@ == fx_abs(self@),
    {
        if self.units < 0 {
            self.neg()
        } else {
            self
        }
    }

    /// Fixed-point multiplication, truncating toward zero.
    pub fn mul(self, o: Fx) -> (r: Fx)
        ensures
            r@ == fx_mul(self@, o@),
    {
        proof {
            assert((self.units as int) * (o.units as int)
                <= 0x4000_0000_0000_0000_0000_0000_0000_0000
                && (self.units as int) * (o.units as int)
                >= -0x4000_0000_0000_0000_0000_0000_0000_0000) by (nonlinear_arith)
                requires
                    i64::MIN <= self.units <= i64::MAX,
                    i64::MIN <= o.units <= i64::MAX,
            ;
        }
        let p: i128 = (self.units as i128) * (o.units as i128);
        let q: i128 = div_trunc_i128(p, SCALE as i128);
        Fx { units: clamp_units(q) }
    }

    /// Divide the represented value by a positive integer `k`.
    pub fn div_int(self, k: i64) -> (r: Fx)
        requires
            1 <= k,
        ensures
            r@ == fx_div_int(self@, k as int),
    {
        let q: i128 = div_trunc_i128(self.units as i128, k as i128);
        Fx { units: clamp_units(q) }
    }

    /// Fixed-point division, truncating toward zero; a zero divisor
    /// saturates to the sign of the dividend.
    pub fn div(self, o: Fx) -> (r: Fx)
        ensures
            r@ == fx_div(self@, o@),
    {
        if o.units == 0 {
            if self.units > 0 {
                Fx { units: i64::MAX }
            } else if self.units < 0 {
                Fx { units: i64::MIN }
            } else {
                Fx { units: 0 }
            }
        } else {
            proof {
                assert((self.units as int) * (SCALE as int)
                    <= 0x4000_0000_0000_0000_0000_0000_0000_0000
                    && (self.units as int) * (SCALE as int)
                    >= -0x4000_0000_0000_0000_0000_0000_0000_0000) by (nonlinear_arith)
                    requires
                        i64::MIN <= self.units <= i64::MAX,
                ;
            }
            let num: i128 = (self.units as i128) * (SCALE as i128);
            if o.units > 0 {
                let q: i128 = div_trunc_i128(num, o.units as i128);
                Fx { units: clamp_units(q) }
            } else {
                let d: i128 = -(o.units as i128);
                let q: i128 = div_trunc_i128(num, d);
                Fx { units: clamp_units(-q) }
            }
        }
    }

    /// Sine of the represented value (in radians): the angle is reduced
    /// modulo `TWO_PI_UNITS` and a fixed odd polynomial is evaluated, as
    /// [`fx_sin`] states.
    pub fn sin(self) -> (r: Fx)
        ensures
            r@ == fx_sin(self@),
    {
        if self.units >= 0 {
            sin_nonneg(self.units as i128)
        } else {
            let m: i128 = -(self.units as i128);
            sin_nonneg(m).neg()
        }
    }
}

/// Reduce a nonnegative angle and evaluate the sine polynomial.
fn sin_nonneg(a: i128) -> (r: Fx)
    requires
        0 <= a,
    ensures
        r@ == sin_reduced(reduce_angle(a as int)),
{
    let m: u128 = (a as u128) % (TWO_PI_UNITS as u128);
    let mu: i64 = m as i64;
    assert(mu as int == (a as int) % (TWO_PI_UNITS as int));
    let t: i64 = if mu <= PI_UNITS {
        mu
    } else {
        mu - TWO_PI_UNITS
    };
    let tf = Fx { units: t };
    let one = Fx { units: SCALE };
    let t2 = tf.mul(tf);
    let u1 = one.sub(t2.div_int(110));
    let u2 = one.sub(t2.mul(u1).div_int(72));
    let u3 = one.sub(t2.mul(u2).div_int(42));
    let u4 = one.sub(t2.mul(u3).div_int(20));
    let u5 = one.sub(t2.mul(u4).div_int(6));
    tf.mul(u5)
}

} // verus!
