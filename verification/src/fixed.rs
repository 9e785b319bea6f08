//! The fixed-point scalar that all geometry is carried out over.
//!
//! A scalar holds `raw / 65536` as its mathematical value: sixteen fractional
//! bits in a 64-bit signed word.  Every arithmetic operation has an exact
//! spec-level mirror over the raw integers, so the geometric contracts in the
//! rest of the crate can state precisely which number each computation yields.
//!
//! Products and quotients round toward zero, which the mirrors
//! (`fx_mul`, `fx_div`) state explicitly via magnitudes.  Square roots truncate
//! to the largest representable root (`fx_sqrt`).

use vstd::prelude::*;

verus! {

/// Raw units per 1.0: the fixed-point scale factor.
pub const FX_ONE: i64 = 65536;

/// Magnitude of an integer.
pub open spec fn iabs(x: int) -> int {
    if x >= 0 {
        x
    } else {
        -x
    }
}

/// The raw values the scalar type admits as results: the symmetric part of
/// the 64-bit range, so that every representable value has a representable
/// negation.
pub open spec fn fits(x: int) -> bool {
    -0x7fff_ffff_ffff_ffff <= x <= 0x7fff_ffff_ffff_ffff
}

/// Raw value of the fixed-point product: magnitudes multiply, the scale
/// divides back out (rounding toward zero), signs combine.
pub open spec fn fx_mul(a: int, b: int) -> int {
    if (a >= 0) == (b >= 0) {
        (iabs(a) * iabs(b)) / 65536
    } else {
        -((iabs(a) * iabs(b)) / 65536)
    }
}

/// Raw value of the fixed-point quotient, rounding toward zero.
pub open spec fn fx_div(a: int, b: int) -> int {
    if (a >= 0) == (b >= 0) {
        (iabs(a) * 65536) / iabs(b)
    } else {
        -((iabs(a) * 65536) / iabs(b))
    }
}

/// Integer square root: the largest `r` with `r * r <= n` (and `0` for
/// non-positive `n`).
pub open spec fn isqrt(n: int) -> int
    decreases n,
{
    if n <= 0 {
        0
    } else {
        let r = isqrt(n - 1);
        if (r + 1) * (r + 1) <= n {
            r + 1
        } else {
            r
        }
    }
}

/// Raw value of the fixed-point square root of a non-negative raw value.
pub open spec fn fx_sqrt(a: int) -> int {
    isqrt(a * 65536)
}

/// A fixed-point scalar: its value is `raw / 65536`.
#[derive(Clone, Copy, Debug, PartialEq, Eq, Structural)]
pub struct Fx {
    pub raw: i64,
}

impl View for Fx {
    type V = int;

    open spec fn view(&self) -> int {
        self.raw as int
    }
}

pub proof fn lemma_isqrt_bounds(n: int)
    requires
        n >= 0,
    ensures
        isqrt(n) >= 0,
        isqrt(n) * isqrt(n) <= n,
        n < (isqrt(n) + 1) * (isqrt(n) + 1),
    decreases n,
{
    if n == 0 {
    } else {
        lemma_isqrt_bounds(n - 1);
        let r = isqrt(n - 1);
        if (r + 1) * (r + 1) <= n {
            assert(n < (r + 2) * (r + 2)) by (nonlinear_arith)
                requires
                    r >= 0,
                    n <= (r + 1) * (r + 1),
            ;
        }
    }
}

pub proof fn lemma_square_mono(a: int, b: int)
    by (nonlinear_arith)
    requires
        0 <= a <= b,
    ensures
        a * a <= b * b,
{
}

/// `isqrt(n)` is the only non-negative root bracketing `n`.
pub proof fn lemma_isqrt_unique(n: int, r: int)
    requires
        n >= 0,
        r >= 0,
        r * r <= n,
        n < (r + 1) * (r + 1),
    ensures
        r == isqrt(n),
{
    lemma_isqrt_bounds(n);
    let s = isqrt(n);
    if r < s {
        lemma_square_mono(r + 1, s);
    } else if s < r {
        lemma_square_mono(s + 1, r);
    }
}

/// The product's magnitude is bounded by the product of the factors'
/// bounds, before the scale divides back out.
pub proof fn lemma_fx_mul_bound(a: int, b: int, ka: int, kb: int)
    by (nonlinear_arith)
    requires
        iabs(a) <= ka,
        iabs(b) <= kb,
        0 <= ka,
        0 <= kb,
    ensures
        iabs(fx_mul(a, b)) * 65536 <= ka * kb,
        iabs(fx_mul(a, b)) <= (ka * kb) / 65536,
{
}

/// Dividing by a scalar of magnitude at least one cannot grow the
/// magnitude.
pub proof fn lemma_fx_div_bound(a: int, b: int)
    by (nonlinear_arith)
    requires
        iabs(b) >= 65536,
    ensures
        iabs(fx_div(a, b)) <= iabs(a),
{
}

/// The quotient's magnitude, scaled back by the divisor: the exact
/// counterpart of the truncating division.
pub proof fn lemma_fx_div_scaled(a: int, b: int, ka: int)
    by (nonlinear_arith)
    requires
        b != 0,
        iabs(a) <= ka,
    ensures
        iabs(fx_div(a, b)) * iabs(b) <= ka * 65536,
{
}

/// A lower bound on the square root: any `k` whose square does not exceed
/// the scaled radicand bounds it from below.
pub proof fn lemma_fx_sqrt_at_least(a: int, k: int)
    requires
        0 <= k,
        k * k <= a * 65536,
    ensures
        fx_sqrt(a) >= k,
{
    lemma_square_mono(0, k);
    lemma_isqrt_bounds(a * 65536);
    let r = isqrt(a * 65536);
    if r < k {
        lemma_square_mono(r + 1, k);
    }
}

/// Magnitude of an `i64`, widened so that `i64::MIN` is representable.
pub(crate) fn abs_u128(x: i64) -> (r: u128)
    ensures
        r == iabs(x as int),
{
    if x >= 0 {
        x as u128
    } else {
        (-(x as i128)) as u128
    }
}

impl Fx {
    /// The scalar 0.
    pub fn zero() -> (r: Fx)
        ensures
            r@ == 0,
    {
        Fx { raw: 0 }
    }

    /// The scalar 1.
    pub fn one() -> (r: Fx)
        ensures
            r@ == 65536,
    {
        Fx { raw: FX_ONE }
    }

    /// The scalar `i`, for any integer whose scaled value is representable.
    pub fn from_int(i: i64) -> (r: Fx)
        requires
            fits(i * 65536),
        ensures
            r@ == i * 65536,
    {
        Fx { raw: i * 65536 }
    }

    /// Exact sum.
    pub fn add(self, o: Fx) -> (r: Fx)
        requires
            fits(self@ + o@),
        ensures
            r@ == self@ + o@,
    {
        Fx { raw: self.raw + o.raw }
    }

    /// Exact difference.
    pub fn sub(self, o: Fx) -> (r: Fx)
        requires
            fits(self@ - o@),
        ensures
            r@ == self@ - o@,
    {
        Fx { raw: self.raw - o.raw }
    }

    /// Exact negation.
    pub fn neg(self) -> (r: Fx)
        requires
            fits(-self@),
        ensures
            r@ == -self@,
    {
        Fx { raw: -self.raw }
    }

    /// Product, rounding toward zero.
    pub fn mul(self, o: Fx) -> (r: Fx)
        requires
            fits(fx_mul(self@, o@)),
        ensures
            r@ == fx_mul(self@, o@),
    {
        let neg: bool = (self.raw < 0) != (o.raw < 0);
        let am: u128 = abs_u128(self.raw);
        let bm: u128 = abs_u128(o.raw);
        proof {
            assert(am * bm <= 0x8000_0000_0000_0000 * 0x8000_0000_0000_0000) by (nonlinear_arith)
                requires
                    am <= 0x8000_0000_0000_0000,
                    bm <= 0x8000_0000_0000_0000,
            ;
        }
        let p: u128 = am * bm;
        let q: u128 = p / 65536;
        if neg {
            Fx { raw: -((q as i64)) }
        } else {
            Fx { raw: q as i64 }
        }
    }

    /// Quotient, rounding toward zero.  The divisor must be non-zero.
    pub fn div(self, o: Fx) -> (r: Fx)
        requires
            o@ != 0,
            fits(fx_div(self@, o@)),
        ensures
            r@ == fx_div(self@, o@),
    {
        let neg: bool = (self.raw < 0) != (o.raw < 0);
        let am: u128 = abs_u128(self.raw);
        let bm: u128 = abs_u128(o.raw);
        let p: u128 = am * 65536;
        let q: u128 = p / bm;
        if neg {
            Fx { raw: -((q as i64)) }
        } else {
            Fx { raw: q as i64 }
        }
    }

    /// Truncated square root of a non-negative scalar.  The result always
    /// fits: it is at most `2^40`.
    pub fn sqrt(self) -> (r: Fx)
        requires
            self@ >= 0,
        ensures
            r@ == fx_sqrt(self@),
            0 <= r@ < 0x100_0000_0000,
    {
        let n: u128 = (self.raw as u128) * 65536;
        let mut lo: u128 = 0;
        let mut hi: u128 = 0x1_0000_0000_0000;
        proof {
            assert(n < 0x1_0000_0000_0000 * 0x1_0000_0000_0000) by (nonlinear_arith)
                requires
                    n <= 0x8000_0000_0000_0000 * 0x10000,
            ;
        }
        while lo + 1 < hi
            invariant
                0 <= lo < hi <= 0x1_0000_0000_0000,
                lo * lo <= n,
                n < hi * hi,
            decreases hi - lo,
        {
            let mid: u128 = lo + (hi - lo) / 2;
            proof {
                assert(mid * mid < 0x1_0000_0000_0000 * 0x1_0000_0000_0000) by (nonlinear_arith)
                    requires
                        mid < 0x1_0000_0000_0000,
                ;
            }
            if mid * mid <= n {
                lo = mid;
            } else {
                hi = mid;
            }
        }
        proof {
            lemma_isqrt_unique(n as int, lo as int);
            assert(lo < 0x100_0000_0000) by (nonlinear_arith)
                requires
                    lo * lo <= n,
                    n <= 0x8000_0000_0000_0000 * 0x10000,
                    lo >= 0,
            ;
        }
        Fx { raw: lo as i64 }
    }

    /// Magnitude.
    pub fn abs(self) -> (r: Fx)
        requires
            fits(iabs(self@)),
        ensures
            r@ == iabs(self@),
    {
        if self.raw >= 0 {
            self
        } else {
            Fx { raw: -self.raw }
        }
    }

    /// Comparison: at most.
    pub fn le(self, o: Fx) -> (r: bool)
        ensures
            r == (self@ <= o@),
    {
        self.raw <= o.raw
    }

    /// Comparison: strictly below.
    pub fn lt(self, o: Fx) -> (r: bool)
        ensures
            r == (self@ < o@),
    {
        self.raw < o.raw
    }

    /// Whether the scalar is negative.
    pub fn is_neg(self) -> (r: bool)
        ensures
            r == (self@ < 0),
    {
        self.raw < 0
    }

    /// The smaller of two scalars.
    pub fn min(self, o: Fx) -> (r: Fx)
        ensures
            r@ == if self@ <= o@ {
                self@
            } else {
                o@
            },
    {
        if self.raw <= o.raw {
            self
        } else {
            o
        }
    }

    /// The larger of two scalars.
    pub fn max(self, o: Fx) -> (r: Fx)
        ensures
            r@ == if self@ >= o@ {
                self@
            } else {
                o@
            },
    {
        if self.raw >= o.raw {
            self
        } else {
            o
        }
    }

    /// Clamp into the closed interval `[lo, hi]`.
    pub fn clamp(self, lo: Fx, hi: Fx) -> (r: Fx)
        requires
            lo@ <= hi@,
        ensures
            r@ == if self@ < lo@ {
                lo@
            } else if self@ > hi@ {
                hi@
            } else {
                self@
            },
    {
        if self.raw < lo.raw {
            lo
        } else if self.raw > hi.raw {
            hi
        } else {
            self
        }
    }
}

} // verus!
