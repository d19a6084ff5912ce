//! Signed fixed-point numbers with 8 fractional bits.
//!
//! Positions, velocities and the scroll offset all use this representation
//! so that the simulation is deterministic on hardware without floating
//! point. A value is `raw / 256`; every contract speaks of the raw integer
//! directly. Multiplication and the scroll square root round toward
//! negative infinity (truncating floor); division by a positive divisor
//! rounds toward zero, as the underlying integer division does.

use vstd::prelude::*;

verus! {

/// True when `x` is representable as a 32-bit signed integer.
pub open spec fn fits_i32(x: int) -> bool {
    -0x8000_0000 <= x <= 0x7fff_ffff
}

/// Mathematical absolute value.
pub open spec fn abs_v(a: int) -> int {
    if a >= 0 {
        a
    } else {
        -a
    }
}

/// Sign of `a`: -1, 0 or 1.
pub open spec fn sgn_v(a: int) -> int {
    if a > 0 {
        1
    } else if a < 0 {
        -1
    } else {
        0
    }
}

/// Raw value of the fixed-point product: `(a * b) / 256`, rounded toward
/// negative infinity (`/` on `int` is Euclidean, which floors for a
/// positive divisor).
pub open spec fn fx_product(a: int, b: int) -> int {
    (a * b) / 256
}

/// Division of `a` by positive `k`, rounded toward zero, as the machine
/// integer division does.
pub open spec fn tdiv(a: int, k: int) -> int {
    if a >= 0 {
        a / k
    } else {
        -((-a) / k)
    }
}

/// `r` is the integer square root of `x`: the greatest integer whose
/// square does not exceed `x`.
pub open spec fn is_sqrt(x: int, r: int) -> bool {
    0 <= r && r * r <= x && x < (r + 1) * (r + 1)
}

/// The integer square root of `x` (meaningful for `x >= 0`).
pub open spec fn sqrt_v(x: int) -> int {
    choose|r: int| is_sqrt(x, r)
}

/// The integer square root is unique, so `sqrt_v` names the one witness.
pub proof fn lemma_sqrt_unique(x: int, r: int)
    requires
        is_sqrt(x, r),
    ensures
        sqrt_v(x) == r,
{
    let w = choose|q: int| is_sqrt(x, q);
    assert(is_sqrt(x, w));
    assert(w == r) by {
        if w < r {
            assert((w + 1) * (w + 1) <= r * r) by (nonlinear_arith)
                requires
                    0 <= w,
                    w < r,
            ;
        }
        if r < w {
            assert((r + 1) * (r + 1) <= w * w) by (nonlinear_arith)
                requires
                    0 <= r,
                    r < w,
            ;
        }
    }
}

/// Floor division agrees with the negated round-up of the negation:
/// `(-m) / d == -((m + d - 1) / d)` for `m >= 0`, `d > 0`.
pub proof fn lemma_floor_div_neg(m: int, d: int)
    requires
        m >= 0,
        d > 0,
    ensures
        (-m) / d == -((m + d - 1) / d),
{
    let k = m / d;
    let s = m % d;
    vstd::arithmetic::div_mod::lemma_fundamental_div_mod(m, d);
    assert(m == d * k + s);
    assert(0 <= s < d);
    assert(d * k == k * d) by (nonlinear_arith);
    if s == 0 {
        assert(-m == (-k) * d + 0) by (nonlinear_arith)
            requires
                m == k * d,
        ;
        vstd::arithmetic::div_mod::lemma_fundamental_div_mod_converse_div(-m, d, -k, 0);
        assert(m + d - 1 == k * d + (d - 1));
        vstd::arithmetic::div_mod::lemma_fundamental_div_mod_converse_div(m + d - 1, d, k, d - 1);
    } else {
        assert(-m == (-(k + 1)) * d + (d - s)) by (nonlinear_arith)
            requires
                m == k * d + s,
        ;
        vstd::arithmetic::div_mod::lemma_fundamental_div_mod_converse_div(-m, d, -(k + 1), d - s);
        assert(m + d - 1 == (k + 1) * d + (s - 1)) by (nonlinear_arith)
            requires
                m == k * d + s,
        ;
        vstd::arithmetic::div_mod::lemma_fundamental_div_mod_converse_div(
            m + d - 1,
            d,
            k + 1,
            s - 1,
        );
    }
}

/// Fixed-point products with the whole numbers -1, 0 and 1 (raw -256,
/// 0, 256) are exact, whichever side they stand on.
pub proof fn lemma_fx_unit(a: int)
    ensures
        fx_product(a, 256) == a,
        fx_product(256, a) == a,
        fx_product(a, -256) == -a,
        fx_product(-256, a) == -a,
        fx_product(a, 0) == 0,
        fx_product(0, a) == 0,
{
    assert(a * 256 == a * 256 + 0);
    assert(a * 256 == 256 * a) by (nonlinear_arith);
    assert(a * -256 == (-a) * 256) by (nonlinear_arith);
    assert((-256) * a == (-a) * 256) by (nonlinear_arith);
    assert(a * 0 == 0) by (nonlinear_arith);
    assert(0 * a == 0) by (nonlinear_arith);
    vstd::arithmetic::div_mod::lemma_fundamental_div_mod_converse_div(a * 256, 256, a, 0);
    vstd::arithmetic::div_mod::lemma_fundamental_div_mod_converse_div((-a) * 256, 256, -a, 0);
    vstd::arithmetic::div_mod::lemma_fundamental_div_mod_converse_div(0, 256, 0, 0);
}

/// A signed fixed-point number with 8 fractional bits. The mathematical
/// value is `raw / 256`.
#[derive(Clone, Copy, Debug, PartialEq, Eq, Structural)]
pub struct Num {
    pub raw: i32,
}

impl Num {
    /// The fixed-point image of a whole number of units (pixels).
    pub fn new(units: i32) -> (r: Num)
        requires
            fits_i32(units * 256),
        ensures
            r.raw == units * 256,
    {
        Num { raw: units * 256 }
    }

    /// A fixed-point number from its raw 1/256th count.
    pub fn from_raw(raw: i32) -> (r: Num)
        ensures
            r.raw == raw,
    {
        Num { raw }
    }

    /// Zero.
    pub fn zero() -> (r: Num)
        ensures
            r.raw == 0,
    {
        Num { raw: 0 }
    }

    /// Fixed-point addition.
    pub fn plus(self, o: Num) -> (r: Num)
        requires
            fits_i32(self.raw + o.raw),
        ensures
            r.raw == self.raw + o.raw,
    {
        Num { raw: self.raw + o.raw }
    }

    /// Fixed-point subtraction.
    pub fn minus(self, o: Num) -> (r: Num)
        requires
            fits_i32(self.raw - o.raw),
        ensures
            r.raw == self.raw - o.raw,
    {
        Num { raw: self.raw - o.raw }
    }

    /// Absolute value.
    pub fn abs(self) -> (r: Num)
        requires
            self.raw != i32::MIN,
        ensures
            r.raw == abs_v(self.raw as int),
    {
        if self.raw >= 0 {
            self
        } else {
            Num { raw: -self.raw }
        }
    }

    /// Sign of the value: -1, 0 or 1.
    pub fn sgn(self) -> (r: i32)
        ensures
            r == sgn_v(self.raw as int),
    {
        if self.raw > 0 {
            1
        } else if self.raw < 0 {
            -1
        } else {
            0
        }
    }

    /// Fixed-point multiplication: the raw product scaled back down,
    /// rounded toward negative infinity.
    pub fn times(self, o: Num) -> (r: Num)
        requires
            fits_i32(fx_product(self.raw as int, o.raw as int)),
        ensures
            r.raw == fx_product(self.raw as int, o.raw as int),
    {
        proof {
            assert((self.raw as int) * (o.raw as int) <= 0x8000_0000i64 * 0x8000_0000i64
                && (self.raw as int) * (o.raw as int) >= -(0x8000_0000i64 * 0x8000_0000i64))
                by (nonlinear_arith)
                requires
                    -0x8000_0000 <= self.raw <= 0x7fff_ffff,
                    -0x8000_0000 <= o.raw <= 0x7fff_ffff,
            ;
        }
        let p: i64 = (self.raw as i64) * (o.raw as i64);
        if p >= 0 {
            let q: u64 = (p as u64) / 256;
            Num { raw: q as i32 }
        } else {
            let m: u64 = (-p) as u64;
            let q: u64 = (m + 255) / 256;
            proof {
                lemma_floor_div_neg(m as int, 256);
            }
            Num { raw: (-(q as i64)) as i32 }
        }
    }

    /// Division of the value by a positive whole number, rounded toward
    /// zero.
    pub fn div_int(self, k: i32) -> (r: Num)
        requires
            k > 0,
            self.raw != i32::MIN,
        ensures
            r.raw == tdiv(self.raw as int, k as int),
    {
        if self.raw >= 0 {
            let q: u32 = (self.raw as u32) / (k as u32);
            Num { raw: q as i32 }
        } else {
            let m: u32 = (-self.raw) as u32;
            let q: u32 = m / (k as u32);
            Num { raw: -(q as i32) }
        }
    }

    /// Fixed-point division by a positive value, for a non-negative
    /// dividend (the only case the engine needs): `(raw * 256) / o.raw`,
    /// rounded down.
    pub fn div_num(self, o: Num) -> (r: Num)
        requires
            self.raw >= 0,
            o.raw > 0,
            fits_i32((self.raw as int * 256) / (o.raw as int)),
        ensures
            r.raw == (self.raw as int * 256) / (o.raw as int),
            r.raw >= 0,
    {
        let wide: u64 = (self.raw as u64) * 256;
        let q: u64 = wide / (o.raw as u64);
        proof {
            assert(q == (self.raw as int * 256) / (o.raw as int));
            vstd::arithmetic::div_mod::lemma_div_pos_is_pos(self.raw as int * 256, o.raw as int);
        }
        Num { raw: q as i32 }
    }

    /// The integer part of the value, rounded toward negative infinity
    /// (the tile and pixel coordinate of a fixed-point position).
    pub fn floor(self) -> (r: i32)
        requires
            self.raw != i32::MIN,
        ensures
            r == self.raw as int / 256,
    {
        if self.raw >= 0 {
            let q: u32 = (self.raw as u32) / 256;
            q as i32
        } else {
            let m: u64 = (-self.raw) as u64;
            let q: u64 = (m + 255) / 256;
            proof {
                lemma_floor_div_neg(m as int, 256);
            }
            (-(q as i64)) as i32
        }
    }

    /// Fixed-point square root of a non-negative value: the raw result is
    /// the integer square root of `raw * 256`, which floors the exact
    /// square root at 1/256 precision.
    pub fn sqrt(self) -> (r: Num)
        requires
            self.raw >= 0,
        ensures
            r.raw == sqrt_v(self.raw as int * 256),
            is_sqrt(self.raw as int * 256, r.raw as int),
            r.raw >= 0,
    {
        let x: u64 = (self.raw as u64) * 256;
        let mut lo: u64 = 0;
        let mut hi: u64 = 0x10_0000;
        proof {
            assert((0x10_0000u64 as int) * (0x10_0000u64 as int) > x as int) by (nonlinear_arith)
                requires
                    x <= 0x7fff_ffffu64 * 256,
            ;
        }
        // Binary search for the greatest `lo` with `lo * lo <= x`.
        while lo + 1 < hi
            invariant
                0 <= lo < hi <= 0x10_0000,
                (lo as int) * (lo as int) <= x as int,
                (hi as int) * (hi as int) > x as int,
            decreases hi - lo,
        {
            let mid: u64 = lo + (hi - lo) / 2;
            proof {
                assert(mid * mid <= 0x10_0000u64 * 0x10_0000u64) by (nonlinear_arith)
                    requires
                        0 <= mid <= 0x10_0000u64,
                ;
            }
            if mid * mid <= x {
                lo = mid;
            } else {
                hi = mid;
            }
        }
        proof {
            assert(is_sqrt(x as int, lo as int));
            lemma_sqrt_unique(x as int, lo as int);
        }
        Num { raw: lo as i32 }
    }
}

} // verus!
