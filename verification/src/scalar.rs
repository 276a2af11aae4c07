//! Fixed-point scalars: every coordinate, length, angle and ray parameter of
//! the geometry is a signed count of millionths, and arithmetic on them
//! saturates at the ends of the representable range instead of overflowing.

use vstd::prelude::*;

verus! {

/// Number of raw steps in one whole unit.
pub const SCALE: i64 = 1_000_000;

/// A fixed-point number: `raw` millionths.
#[derive(Clone, Copy, Debug, PartialEq, Eq, Structural)]
pub struct Scalar {
    pub raw: i64,
}

/// The nearest integer to `v` that a scalar can hold.
pub open spec fn clamp(v: int) -> int {
    if v < i64::MIN as int {
        i64::MIN as int
    } else if v > i64::MAX as int {
        i64::MAX as int
    } else {
        v
    }
}

/// The scalar nearest to `v` raw steps.
pub open spec fn saturated(v: int) -> Scalar {
    Scalar { raw: clamp(v) as i64 }
}

/// Largest integer `r` with `r * r <= n`, for `n >= 0`.
pub open spec fn is_floor_sqrt(n: int, r: int) -> bool {
    0 <= r && r * r <= n && n < (r + 1) * (r + 1)
}

/// The integer square root of `n`, rounded down.
pub open spec fn floor_sqrt(n: int) -> int {
    choose|r: int| is_floor_sqrt(n, r)
}

/// At most one integer is the rounded-down square root of `n`.
pub proof fn lemma_floor_sqrt_unique(n: int, r1: int, r2: int)
    requires
        is_floor_sqrt(n, r1),
        is_floor_sqrt(n, r2),
    ensures
        r1 == r2,
{
    if r1 < r2 {
        assert((r1 + 1) * (r1 + 1) <= r2 * r2) by (nonlinear_arith)
            requires
                0 <= r1 + 1 <= r2,
        {
        }
    } else if r2 < r1 {
        assert((r2 + 1) * (r2 + 1) <= r1 * r1) by (nonlinear_arith)
            requires
                0 <= r2 + 1 <= r1,
        {
        }
    }
}

/// The product of two numbers that a scalar can hold fits a wide integer.
proof fn lemma_product_bounds(a: int, b: int)
    requires
        i64::MIN <= a <= i64::MAX,
        i64::MIN <= b <= i64::MAX,
    ensures
        -0x3fff_ffff_ffff_ffff_8000_0000_0000_0000 <= a * b <= 0x4000_0000_0000_0000_0000_0000_0000_0000,
{
    assert(a * b <= 0x4000_0000_0000_0000_0000_0000_0000_0000) by (nonlinear_arith)
        requires
            -0x8000_0000_0000_0000 <= a <= 0x7fff_ffff_ffff_ffff,
            -0x8000_0000_0000_0000 <= b <= 0x7fff_ffff_ffff_ffff,
    {
        assert((a + 0x8000_0000_0000_0000) * (0x7fff_ffff_ffff_ffff - b) >= 0);
        assert((0x7fff_ffff_ffff_ffff - a) * (b + 0x8000_0000_0000_0000) >= 0);
        assert((a + 0x8000_0000_0000_0000) * (b + 0x8000_0000_0000_0000) >= 0);
        assert((0x7fff_ffff_ffff_ffff - a) * (0x7fff_ffff_ffff_ffff - b) >= 0);
    }
    assert(a * b >= -0x3fff_ffff_ffff_ffff_8000_0000_0000_0000) by (nonlinear_arith)
        requires
            -0x8000_0000_0000_0000 <= a <= 0x7fff_ffff_ffff_ffff,
            -0x8000_0000_0000_0000 <= b <= 0x7fff_ffff_ffff_ffff,
    {
        assert((a + 0x8000_0000_0000_0000) * (0x7fff_ffff_ffff_ffff - b) >= 0);
        assert((0x7fff_ffff_ffff_ffff - a) * (b + 0x8000_0000_0000_0000) >= 0);
    }
}

/// A quotient by a positive number is no farther from zero than the bound of
/// the dividend.
proof fn lemma_quotient_in_range(n: int, d: int, b: int)
    requires
        d > 0,
        -b <= n <= b,
    ensures
        -b <= n / d <= b,
{
    vstd::arithmetic::div_mod::lemma_div_is_ordered(n, b, d);
    vstd::arithmetic::div_mod::lemma_div_nonincreasing(b, d);
    assert(-b * d <= -b) by (nonlinear_arith)
        requires
            d > 0,
            b >= 0,
    {
    }
    vstd::arithmetic::div_mod::lemma_div_is_ordered(-b * d, n, d);
    vstd::arithmetic::div_mod::lemma_div_multiples_vanish(-b, d);
    assert(d * (-b) == -b * d) by (nonlinear_arith);
}

/// `a * b` as a wide integer.
fn wide_product(a: i64, b: i64) -> (p: i128)
    ensures
        p == a as int * b as int,
        -0x3fff_ffff_ffff_ffff_8000_0000_0000_0000 <= p <= 0x4000_0000_0000_0000_0000_0000_0000_0000,
{
    proof {
        lemma_product_bounds(a as int, b as int);
    }
    (a as i128) * (b as i128)
}

/// The scalar nearest to the wide integer `v`.
fn saturate(v: i128) -> (r: Scalar)
    ensures
        r == saturated(v as int),
{
    if v < i64::MIN as i128 {
        Scalar { raw: i64::MIN }
    } else if v > i64::MAX as i128 {
        Scalar { raw: i64::MAX }
    } else {
        Scalar { raw: v as i64 }
    }
}

/// `v / SCALE`, rounded down, for a wide integer.
fn unscale(v: i128) -> (q: i128)
    ensures
        q == v as int / SCALE as int,
{
    match v.checked_div_euclid(SCALE as i128) {
        Some(q) => q,
        None => 0,
    }
}

impl Scalar {
    /// Sum of two scalars, saturating.
    pub open spec fn spec_plus(self, other: Scalar) -> Scalar {
        saturated(self.raw + other.raw)
    }

    /// Difference of two scalars, saturating.
    pub open spec fn spec_minus(self, other: Scalar) -> Scalar {
        saturated(self.raw - other.raw)
    }

    /// The scalar of opposite sign, saturating.
    pub open spec fn spec_negated(self) -> Scalar {
        saturated(-self.raw)
    }

    /// `a * b + c * d`, rounded down to a whole number of raw steps, saturating.
    pub open spec fn spec_mul_add(a: Scalar, b: Scalar, c: Scalar, d: Scalar) -> Scalar {
        saturated((a.raw * b.raw + c.raw * d.raw) / SCALE as int)
    }

    /// `a * b - c * d`, rounded down to a whole number of raw steps, saturating.
    pub open spec fn spec_mul_sub(a: Scalar, b: Scalar, c: Scalar, d: Scalar) -> Scalar {
        saturated((a.raw * b.raw - c.raw * d.raw) / SCALE as int)
    }

    /// Product of two scalars, rounded down, saturating.
    pub open spec fn spec_times(self, other: Scalar) -> Scalar {
        saturated((self.raw * other.raw) / SCALE as int)
    }

    /// Quotient of two scalars, rounded down, saturating. Division by zero
    /// saturates towards the sign of the dividend, and gives zero for zero.
    pub open spec fn spec_divided_by(self, other: Scalar) -> Scalar {
        if other.raw > 0 {
            saturated((self.raw * SCALE as int) / other.raw as int)
        } else if other.raw < 0 {
            saturated((-self.raw * SCALE as int) / (-other.raw) as int)
        } else if self.raw > 0 {
            Scalar { raw: i64::MAX }
        } else if self.raw < 0 {
            Scalar { raw: i64::MIN }
        } else {
            Scalar { raw: 0 }
        }
    }

    /// The smaller of two scalars.
    pub open spec fn spec_min(self, other: Scalar) -> Scalar {
        if self.raw <= other.raw { self } else { other }
    }

    /// The larger of two scalars.
    pub open spec fn spec_max(self, other: Scalar) -> Scalar {
        if self.raw >= other.raw { self } else { other }
    }

    /// Square root, rounded down to a whole number of raw steps; zero for a
    /// scalar that is not positive.
    pub open spec fn spec_sqrt(self) -> Scalar {
        if self.raw <= 0 {
            Scalar { raw: 0 }
        } else {
            Scalar { raw: floor_sqrt(self.raw * SCALE as int) as i64 }
        }
    }

    /// The scalar of `raw` millionths.
    pub fn from_raw(raw: i64) -> (r: Scalar)
        ensures
            r.raw == raw,
    {
        Scalar { raw }
    }

    /// Zero.
    pub fn zero() -> (r: Scalar)
        ensures
            r.raw == 0,
    {
        Scalar { raw: 0 }
    }

    /// One whole unit.
    pub fn one() -> (r: Scalar)
        ensures
            r.raw == SCALE,
    {
        Scalar { raw: SCALE }
    }

    /// The scalar of `units` whole units, saturating.
    pub fn from_units(units: i64) -> (r: Scalar)
        ensures
            r == saturated(units as int * SCALE as int),
    {
        saturate(wide_product(units, SCALE))
    }

    /// The sum, saturating.
    pub fn plus(self, other: Scalar) -> (r: Scalar)
        ensures
            r == self.spec_plus(other),
    {
        saturate(self.raw as i128 + other.raw as i128)
    }

    /// The difference, saturating.
    pub fn minus(self, other: Scalar) -> (r: Scalar)
        ensures
            r == self.spec_minus(other),
    {
        saturate(self.raw as i128 - other.raw as i128)
    }

    /// The scalar of opposite sign, saturating.
    pub fn negated(self) -> (r: Scalar)
        ensures
            r == self.spec_negated(),
    {
        saturate(-(self.raw as i128))
    }

    /// `a * b + c * d`, rounded down once, saturating.
    pub fn mul_add(a: Scalar, b: Scalar, c: Scalar, d: Scalar) -> (r: Scalar)
        ensures
            r == Scalar::spec_mul_add(a, b, c, d),
    {
        let p: i128 = wide_product(a.raw, b.raw);
        let q: i128 = wide_product(c.raw, d.raw);
        match p.checked_add(q) {
            Some(s) => saturate(unscale(s)),
            None => Scalar { raw: i64::MAX },
        }
    }

    /// `a * b - c * d`, rounded down once, saturating.
    pub fn mul_sub(a: Scalar, b: Scalar, c: Scalar, d: Scalar) -> (r: Scalar)
        ensures
            r == Scalar::spec_mul_sub(a, b, c, d),
    {
        let p: i128 = wide_product(a.raw, b.raw);
        let q: i128 = wide_product(c.raw, d.raw);
        saturate(unscale(p - q))
    }

    /// The product, rounded down, saturating.
    pub fn times(self, other: Scalar) -> (r: Scalar)
        ensures
            r == self.spec_times(other),
    {
        saturate(unscale(wide_product(self.raw, other.raw)))
    }

    /// The quotient, rounded down, saturating; see `spec_divided_by` for a
    /// divisor of zero.
    pub fn divided_by(self, other: Scalar) -> (r: Scalar)
        ensures
            r == self.spec_divided_by(other),
    {
        if other.raw == 0 {
            return if self.raw > 0 {
                Scalar { raw: i64::MAX }
            } else if self.raw < 0 {
                Scalar { raw: i64::MIN }
            } else {
                Scalar { raw: 0 }
            };
        }
        let n: i128 = wide_product(self.raw, SCALE);
        let (num, den): (i128, i128) = if other.raw > 0 {
            (n, other.raw as i128)
        } else {
            (-n, -(other.raw as i128))
        };
        proof {
            assert(-self.raw * SCALE as int == -(self.raw * SCALE as int)) by (nonlinear_arith);
            lemma_quotient_in_range(num as int, den as int, 0x4000_0000_0000_0000_0000_0000_0000_0000);
        }
        match num.checked_div_euclid(den) {
            Some(q) => saturate(q),
            None => Scalar { raw: 0 },
        }
    }

    /// Square root, rounded down to a whole number of raw steps; zero for a
    /// scalar that is not positive.
    pub fn sqrt(self) -> (r: Scalar)
        ensures
            r == self.spec_sqrt(),
            self.raw > 0 ==> is_floor_sqrt(self.raw * SCALE as int, r.raw as int),
    {
        if self.raw <= 0 {
            return Scalar { raw: 0 };
        }
        let n: i128 = wide_product(self.raw, SCALE);
        let mut lo: i128 = 0;
        let mut hi: i128 = 0x400_0000_0000;
        assert(n < hi * hi) by (nonlinear_arith)
            requires
                n == self.raw as int * 1_000_000,
                self.raw <= 0x7fff_ffff_ffff_ffff,
                hi == 0x400_0000_0000,
        {
        }
        while hi - lo > 1
            invariant
                0 <= lo < hi <= 0x400_0000_0000,
                lo * lo <= n,
                n < hi * hi,
            decreases hi - lo,
        {
            let mid: i128 = lo + (hi - lo) / 2;
            assert(0 <= mid * mid <= 0x400_0000_0000 * 0x400_0000_0000) by (nonlinear_arith)
                requires
                    0 <= mid <= 0x400_0000_0000,
            {
            }
            if mid * mid <= n {
                lo = mid;
            } else {
                hi = mid;
            }
        }
        proof {
            assert(is_floor_sqrt(n as int, lo as int));
            lemma_floor_sqrt_unique(n as int, lo as int, floor_sqrt(n as int));
        }
        Scalar { raw: lo as i64 }
    }

    /// The smaller of the two.
    pub fn min(self, other: Scalar) -> (r: Scalar)
        ensures
            r == self.spec_min(other),
    {
        if self.raw <= other.raw { self } else { other }
    }

    /// The larger of the two.
    pub fn max(self, other: Scalar) -> (r: Scalar)
        ensures
            r == self.spec_max(other),
    {
        if self.raw >= other.raw { self } else { other }
    }
}

} // verus!
