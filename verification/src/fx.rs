//! Fixed-point scalars.
//!
//! A scalar is stored as a signed count of raw units, with [`SCALE`] raw units
//! to one whole unit.  Arithmetic widens to `i128`, truncates division toward
//! zero, and saturates at [`FX_LIM`], so every operation is total and exact
//! integer arithmetic that the contracts pin down completely.

use vstd::prelude::*;

verus! {

/// Raw units per whole unit.
pub const SCALE: i64 = 100000;

/// Comparison tolerance in raw units (one ten-thousandth of a unit).
pub const EPSILON: i64 = 10;

/// Largest magnitude, in raw units, that a scalar may take.
pub const FX_LIM: i64 = 0x4000000000000000;

/// A fixed-point scalar: `raw` counts raw units of `1 / SCALE`.
#[derive(Clone, Copy, Debug, PartialEq, Eq, Structural)]
pub struct Fx {
    pub raw: i64,
}

/// Saturate an unbounded integer into the representable range.
pub open spec fn clampi(x: int) -> int {
    if x > FX_LIM as int {
        FX_LIM as int
    } else if x < -(FX_LIM as int) {
        -(FX_LIM as int)
    } else {
        x
    }
}

/// Magnitude of an integer.
pub open spec fn absi(x: int) -> int {
    if x >= 0 {
        x
    } else {
        -x
    }
}

/// Division truncated toward zero, as the machine division behaves.
pub open spec fn tdiv(a: int, b: int) -> int {
    if (a >= 0) == (b >= 0) {
        absi(a) / absi(b)
    } else {
        -(absi(a) / absi(b))
    }
}

/// The raw value of a fixed-point sum.
pub open spec fn fadd(a: int, b: int) -> int {
    clampi(a + b)
}

/// The raw value of a fixed-point difference.
pub open spec fn fsub(a: int, b: int) -> int {
    clampi(a - b)
}

/// The raw value of a fixed-point product.
pub open spec fn fmul(a: int, b: int) -> int {
    clampi(tdiv(a * b, SCALE as int))
}

/// The raw value of a fixed-point quotient.
pub open spec fn fdiv(a: int, b: int) -> int {
    clampi(tdiv(a * (SCALE as int), b))
}

/// Whether `r` is the integer square root of `n`.
pub open spec fn is_isqrt(n: int, r: int) -> bool {
    &&& 0 <= r
    &&& r * r <= n
    &&& n < (r + 1) * (r + 1)
}

/// The integer square root of a nonnegative integer.
pub open spec fn sqrt_i(n: int) -> int {
    choose|r: int| is_isqrt(n, r)
}

/// Two scalars agree within the comparison tolerance.
pub open spec fn fx_eq(a: int, b: int) -> bool {
    absi(a - b) < EPSILON as int
}

/// The raw value of a fixed-point power: `n` repeated products with one unit.
pub open spec fn fpow(a: int, n: nat) -> int
    decreases n,
{
    if n == 0 {
        SCALE as int
    } else {
        fmul(a, fpow(a, (n - 1) as nat))
    }
}

proof fn lemma_isqrt_unique(n: int, r1: int, r2: int)
    requires
        is_isqrt(n, r1),
        is_isqrt(n, r2),
    ensures
        r1 == r2,
{
    if r1 < r2 {
        assert((r1 + 1) * (r1 + 1) <= r2 * r2) by (nonlinear_arith)
            requires
                0 <= r1,
                r1 < r2,
        ;
    }
    if r2 < r1 {
        assert((r2 + 1) * (r2 + 1) <= r1 * r1) by (nonlinear_arith)
            requires
                0 <= r2,
                r2 < r1,
        ;
    }
}

proof fn lemma_mul_i64_fits(a: int, b: int)
    requires
        i64::MIN <= a <= i64::MAX,
        i64::MIN <= b <= i64::MAX,
    ensures
        absi(a * b) < i128::MAX,
{
    assert(absi(a * b) < i128::MAX) by (nonlinear_arith)
        requires
            -0x8000000000000000 <= a <= 0x7fffffffffffffff,
            -0x8000000000000000 <= b <= 0x7fffffffffffffff,
    ;
}

/// Squares are never negative.
pub proof fn lemma_square_nonneg(a: int)
    ensures
        a * a >= 0,
{
    assert(a * a >= 0) by (nonlinear_arith);
}

/// Scaling up by one whole unit and truncating back down returns the value.
pub proof fn lemma_tdiv_scale(v: int)
    ensures
        tdiv(v * (SCALE as int), SCALE as int) == v,
{
    let s = SCALE as int;
    if v >= 0 {
        assert(absi(v * s) == v * s) by (nonlinear_arith)
            requires
                v >= 0,
                s > 0,
        ;
        vstd::arithmetic::div_mod::lemma_div_multiples_vanish(v, s);
        assert(s * v == v * s) by (nonlinear_arith);
    } else {
        assert(absi(v * s) == (-v) * s) by (nonlinear_arith)
            requires
                v < 0,
                s > 0,
        ;
        vstd::arithmetic::div_mod::lemma_div_multiples_vanish(-v, s);
        assert(s * (-v) == (-v) * s) by (nonlinear_arith);
    }
}

/// Multiplying by zero gives zero.
pub proof fn lemma_fmul_zero(a: int)
    ensures
        fmul(a, 0) == 0,
        fmul(0, a) == 0,
{
    assert(a * 0 == 0) by (nonlinear_arith);
    assert(0 * a == 0) by (nonlinear_arith);
}

/// Products of two in-range raw values stay well inside the wide range.
pub proof fn lemma_mul_lim_fits(a: int, b: int)
    requires
        absi(a) <= FX_LIM as int,
        absi(b) <= FX_LIM as int,
    ensures
        absi(a * b) <= (FX_LIM as int) * (FX_LIM as int),
{
    assert(absi(a * b) <= (FX_LIM as int) * (FX_LIM as int)) by (nonlinear_arith)
        requires
            absi(a) <= FX_LIM as int,
            absi(b) <= FX_LIM as int,
    ;
}

proof fn lemma_tdiv_bounds(a: int, b: int)
    requires
        b != 0,
    ensures
        absi(tdiv(a, b)) <= absi(a),
{
    broadcast use vstd::arithmetic::div_mod::lemma_div_nonincreasing;
    broadcast use vstd::arithmetic::div_mod::lemma_div_pos_is_pos;

    assert(0 <= absi(a) / absi(b) <= absi(a));
}

/// Division of wide intermediates, truncated toward zero.
fn tdiv128(a: i128, b: i128) -> (q: i128)
    requires
        b != 0,
        a > i128::MIN,
        b > i128::MIN,
    ensures
        q as int == tdiv(a as int, b as int),
{
    proof {
        lemma_tdiv_bounds(a as int, b as int);
    }
    let ua: u128 = if a >= 0 {
        a as u128
    } else {
        (-a) as u128
    };
    let ub: u128 = if b >= 0 {
        b as u128
    } else {
        (-b) as u128
    };
    let uq: u128 = ua / ub;
    if (a >= 0) == (b >= 0) {
        uq as i128
    } else {
        -(uq as i128)
    }
}

/// The raw value of `a * b - c * d` carried out at full width, then rescaled.
pub open spec fn fmsub(a: int, b: int, c: int, d: int) -> int {
    clampi(tdiv(a * b - c * d, SCALE as int))
}

/// Scale down a wide product sum back to a raw value, truncating and saturating.
pub(crate) fn rescale128(x: i128) -> (r: i64)
    requires
        x > i128::MIN,
    ensures
        r as int == clampi(tdiv(x as int, SCALE as int)),
{
    clamp128(tdiv128(x, SCALE as i128))
}

/// Saturated integer square root of a wide nonnegative intermediate.
pub(crate) fn isqrt_wide(n: i128) -> (r: i64)
    requires
        n >= 0,
    ensures
        r as int == clampi(sqrt_i(n as int)),
        r >= 0,
{
    let s: u128 = isqrt_u128(n as u128);
    proof {
        lemma_isqrt_unique(n as int, s as int, sqrt_i(n as int));
        assert(s as int * (s as int) <= n as int);
        assert(s as int <= 0x10000000000000000int) by (nonlinear_arith)
            requires
                0 <= s,
                (s as int) * (s as int) <= n as int,
                n <= u128::MAX,
        ;
    }
    clamp128(s as i128)
}

/// Whether a wide intermediate is an even number.
pub(crate) fn even_i128(v: i128) -> (r: bool)
    requires
        v > i128::MIN,
    ensures
        r == ((v as int) % 2 == 0),
{
    if v >= 0 {
        v % 2 == 0
    } else {
        let m: u128 = (-v) as u128;
        proof {
            vstd::arithmetic::div_mod::lemma_fundamental_div_mod(m as int, 2);
            if m as int % 2 == 0 {
                vstd::arithmetic::div_mod::lemma_fundamental_div_mod_converse(
                    v as int,
                    2,
                    -((m as int) / 2),
                    0,
                );
            } else {
                vstd::arithmetic::div_mod::lemma_fundamental_div_mod_converse(
                    v as int,
                    2,
                    -((m as int) / 2) - 1,
                    1,
                );
            }
        }
        m % 2 == 0
    }
}

/// Saturate a wide intermediate back to a representable raw value.
fn clamp128(x: i128) -> (r: i64)
    ensures
        r as int == clampi(x as int),
{
    if x > FX_LIM as i128 {
        FX_LIM
    } else if x < -(FX_LIM as i128) {
        -FX_LIM
    } else {
        x as i64
    }
}

/// Integer square root by binary search.
fn isqrt_u128(n: u128) -> (r: u128)
    ensures
        is_isqrt(n as int, r as int),
{
    let mut lo: u128 = 0;
    let mut hi: u128 = 0x10000000000000000;
    proof {
        assert((hi as int) * (hi as int) > n as int) by (nonlinear_arith)
            requires
                hi == 0x10000000000000000u128,
                n <= u128::MAX,
        ;
    }
    while lo + 1 < hi
        invariant
            0 <= lo < hi <= 0x10000000000000000u128,
            (lo as int) * (lo as int) <= n as int,
            (hi as int) * (hi as int) > n as int,
        decreases hi - lo,
    {
        let mid: u128 = lo + (hi - lo) / 2;
        proof {
            assert((mid as int) * (mid as int) <= (0xffffffffffffffffu128 as int) * (
            0xffffffffffffffffu128 as int)) by (nonlinear_arith)
                requires
                    0 <= mid <= 0xffffffffffffffffu128,
            ;
        }
        if mid * mid <= n {
            lo = mid;
        } else {
            hi = mid;
        }
    }
    lo
}

impl Fx {
    /// A scalar is well formed when it lies within the saturation range.
    pub open spec fn wf(self) -> bool {
        -(FX_LIM as int) <= self.raw as int <= FX_LIM as int
    }

    /// Build a scalar from a raw count of `1 / SCALE` units.
    pub fn from_raw(raw: i64) -> (r: Fx)
        ensures
            r.raw as int == clampi(raw as int),
            r.wf(),
    {
        Fx { raw: clamp128(raw as i128) }
    }

    /// Build a scalar from a whole number of units.
    pub fn from_int(i: i64) -> (r: Fx)
        ensures
            r.raw as int == clampi(i * SCALE),
            r.wf(),
    {
        proof {
            lemma_mul_i64_fits(i as int, SCALE as int);
        }
        Fx { raw: clamp128((i as i128) * (SCALE as i128)) }
    }

    /// The scalar zero.
    pub fn zero() -> (r: Fx)
        ensures
            r.raw == 0,
            r.wf(),
    {
        Fx { raw: 0 }
    }

    /// The scalar one.
    pub fn one() -> (r: Fx)
        ensures
            r.raw == SCALE,
            r.wf(),
    {
        Fx { raw: SCALE }
    }

    /// Sum of two scalars.
    pub fn add(self, o: Fx) -> (r: Fx)
        ensures
            r.raw as int == fadd(self.raw as int, o.raw as int),
            r.wf(),
    {
        Fx { raw: clamp128(self.raw as i128 + o.raw as i128) }
    }

    /// Difference of two scalars.
    pub fn sub(self, o: Fx) -> (r: Fx)
        ensures
            r.raw as int == fsub(self.raw as int, o.raw as int),
            r.wf(),
    {
        Fx { raw: clamp128(self.raw as i128 - o.raw as i128) }
    }

    /// Negation of a scalar.
    pub fn neg(self) -> (r: Fx)
        ensures
            r.raw as int == clampi(-(self.raw as int)),
            r.wf(),
    {
        Fx { raw: clamp128(-(self.raw as i128)) }
    }

    /// Magnitude of a scalar.
    pub fn abs(self) -> (r: Fx)
        ensures
            r.raw as int == clampi(absi(self.raw as int)),
            r.wf(),
    {
        if self.raw >= 0 {
            Fx { raw: clamp128(self.raw as i128) }
        } else {
            Fx { raw: clamp128(-(self.raw as i128)) }
        }
    }

    /// Product of two scalars.
    pub fn mul(self, o: Fx) -> (r: Fx)
        ensures
            r.raw as int == fmul(self.raw as int, o.raw as int),
            r.wf(),
    {
        proof {
            lemma_mul_i64_fits(self.raw as int, o.raw as int);
        }
        let p: i128 = (self.raw as i128) * (o.raw as i128);
        let q: i128 = tdiv128(p, SCALE as i128);
        Fx { raw: clamp128(q) }
    }

    /// Difference of two products, rescaled only once.
    pub fn msub(a: Fx, b: Fx, c: Fx, d: Fx) -> (r: Fx)
        requires
            a.wf(),
            b.wf(),
            c.wf(),
            d.wf(),
        ensures
            r.raw as int == fmsub(a.raw as int, b.raw as int, c.raw as int, d.raw as int),
            r.wf(),
    {
        proof {
            lemma_mul_lim_fits(a.raw as int, b.raw as int);
            lemma_mul_lim_fits(c.raw as int, d.raw as int);
        }
        let x: i128 = (a.raw as i128) * (b.raw as i128) - (c.raw as i128) * (d.raw as i128);
        Fx { raw: rescale128(x) }
    }

    /// Quotient of two scalars.
    pub fn div(self, o: Fx) -> (r: Fx)
        requires
            o.raw != 0,
        ensures
            r.raw as int == fdiv(self.raw as int, o.raw as int),
            r.wf(),
    {
        proof {
            lemma_mul_i64_fits(self.raw as int, SCALE as int);
        }
        let n: i128 = (self.raw as i128) * (SCALE as i128);
        let q: i128 = tdiv128(n, o.raw as i128);
        Fx { raw: clamp128(q) }
    }

    /// Square root of a nonnegative scalar.
    pub fn sqrt(self) -> (r: Fx)
        requires
            self.raw >= 0,
        ensures
            r.raw as int == clampi(sqrt_i(self.raw * SCALE)),
            r.wf(),
    {
        proof {
            lemma_mul_i64_fits(self.raw as int, SCALE as int);
        }
        let n: i128 = (self.raw as i128) * (SCALE as i128);
        Fx { raw: isqrt_wide(n) }
    }

    /// Power with a nonnegative whole exponent.
    pub fn powi(self, n: u64) -> (r: Fx)
        ensures
            r.raw as int == fpow(self.raw as int, n as nat),
            r.wf(),
    {
        let mut acc: Fx = Fx::one();
        let mut i: u64 = 0;
        while i < n
            invariant
                0 <= i <= n,
                acc.raw as int == fpow(self.raw as int, i as nat),
                acc.wf(),
            decreases n - i,
        {
            acc = self.mul(acc);
            i = i + 1;
        }
        acc
    }

    /// The number of whole units at or below the scalar.
    pub fn floor_units(self) -> (r: i64)
        ensures
            r as int == (self.raw as int) / (SCALE as int),
    {
        if self.raw >= 0 {
            self.raw / SCALE
        } else {
            let m: u64 = (-(self.raw as i128)) as u64;
            let q: u64 = m / (SCALE as u64);
            let rem: u64 = m % (SCALE as u64);
            proof {
                vstd::arithmetic::div_mod::lemma_fundamental_div_mod(m as int, SCALE as int);
            }
            if rem == 0 {
                proof {
                    vstd::arithmetic::div_mod::lemma_fundamental_div_mod_converse(
                        self.raw as int,
                        SCALE as int,
                        -(q as int),
                        0,
                    );
                }
                -(q as i64)
            } else {
                proof {
                    vstd::arithmetic::div_mod::lemma_fundamental_div_mod_converse(
                        self.raw as int,
                        SCALE as int,
                        -(q as int) - 1,
                        SCALE - rem,
                    );
                }
                -(q as i64) - 1
            }
        }
    }

    /// Whether the whole unit the scalar falls in is an even one.
    pub fn floor_even(self) -> (r: bool)
        ensures
            r == (((self.raw as int) / (SCALE as int)) % 2 == 0),
    {
        let f: i64 = self.floor_units();
        if f >= 0 {
            f % 2 == 0
        } else {
            let m: u64 = (-(f as i128)) as u64;
            proof {
                vstd::arithmetic::div_mod::lemma_fundamental_div_mod(m as int, 2);
                if m as int % 2 == 0 {
                    vstd::arithmetic::div_mod::lemma_fundamental_div_mod_converse(
                        f as int,
                        2,
                        -((m as int) / 2),
                        0,
                    );
                } else {
                    vstd::arithmetic::div_mod::lemma_fundamental_div_mod_converse(
                        f as int,
                        2,
                        -((m as int) / 2) - 1,
                        1,
                    );
                }
            }
            m % 2 == 0
        }
    }

    /// The distance above the nearest whole unit at or below the scalar.
    pub fn frac_raw(self) -> (r: i64)
        ensures
            r as int == (self.raw as int) % (SCALE as int),
            0 <= r < SCALE,
    {
        if self.raw >= 0 {
            self.raw % SCALE
        } else {
            let m: u64 = (-(self.raw as i128)) as u64;
            let q: u64 = m / (SCALE as u64);
            let rem: u64 = m % (SCALE as u64);
            proof {
                vstd::arithmetic::div_mod::lemma_fundamental_div_mod(m as int, SCALE as int);
            }
            if rem == 0 {
                proof {
                    vstd::arithmetic::div_mod::lemma_fundamental_div_mod_converse(
                        self.raw as int,
                        SCALE as int,
                        -(q as int),
                        0,
                    );
                }
                0
            } else {
                proof {
                    vstd::arithmetic::div_mod::lemma_fundamental_div_mod_converse(
                        self.raw as int,
                        SCALE as int,
                        -(q as int) - 1,
                        SCALE - rem,
                    );
                }
                SCALE - (rem as i64)
            }
        }
    }

    /// Two scalars agree within the comparison tolerance.
    pub fn approx_eq(self, o: Fx) -> (r: bool)
        ensures
            r == fx_eq(self.raw as int, o.raw as int),
    {
        let d: i128 = self.raw as i128 - o.raw as i128;
        let m: i128 = if d >= 0 {
            d
        } else {
            -d
        };
        m < EPSILON as i128
    }
}

} // verus!
