//! Sine and cosine over the fixed-point scalar.
//!
//! The angle is reduced modulo a full turn, folded into the quarter-turn
//! range `[-pi/2, pi/2]` using the symmetry `sin(pi - x) == sin(x)`, and a
//! degree-seven Taylor polynomial is evaluated there.  The contracts state
//! the exact fixed-point computation (`fx_sin`, `fx_cos`); the magnitude of
//! either result never exceeds `151000` raw units (about 2.3), which lets
//! callers combine the results without overflow preconditions.
//!
//! The turn constants are the rounded fixed-point values of pi (`205887`),
//! two pi (`411775`) and half pi (`102944`).

use vstd::prelude::*;
use crate::fixed::{
    abs_u128, fits, fx_div, fx_mul, iabs, lemma_fx_div_scaled, lemma_fx_mul_bound, Fx,
};

verus! {

/// Remainder of the angle by a full turn, keeping the angle's sign
/// (magnitude strictly below one turn).
pub open spec fn wrap_angle(a: int) -> int {
    if a >= 0 {
        a % 411775
    } else {
        -((-a) % 411775)
    }
}

/// The wrapped angle folded into `[-pi, pi]`.
pub open spec fn reduce_angle(a: int) -> int {
    let m = wrap_angle(a);
    if m > 205887 {
        m - 411775
    } else if m < -205887 {
        m + 411775
    } else {
        m
    }
}

/// The reduced angle folded into `[-pi/2, pi/2]` by `sin(pi - x) == sin(x)`.
pub open spec fn fold_half(r: int) -> int {
    if r > 102944 {
        205887 - r
    } else if r < -102944 {
        -205887 - r
    } else {
        r
    }
}

/// Degree-seven Taylor polynomial for the sine on the folded range.
pub open spec fn sin_poly(x: int) -> int {
    let x2 = fx_mul(x, x);
    let x3 = fx_mul(x2, x);
    let x5 = fx_mul(x3, x2);
    let x7 = fx_mul(x5, x2);
    x - fx_div(x3, 393216) + fx_div(x5, 7864320) - fx_div(x7, 330301440)
}

/// The fixed-point sine of an angle in radians.
pub open spec fn fx_sin(a: int) -> int {
    sin_poly(fold_half(reduce_angle(a)))
}

/// The fixed-point cosine: the sine shifted by a quarter turn.
pub open spec fn fx_cos(a: int) -> int {
    fx_sin(a + 102944)
}

/// The folded angle stays within a quarter turn.
proof fn lemma_fold_range(a: int)
    ensures
        iabs(fold_half(reduce_angle(a))) <= 102944,
{
}

/// Every intermediate of the sine polynomial on the folded range is
/// representable, and the result's magnitude is at most `151000`.
proof fn lemma_sin_poly_fits(x: int)
    requires
        iabs(x) <= 102944,
    ensures
        fits(fx_mul(x, x)),
        fits(fx_mul(fx_mul(x, x), x)),
        fits(fx_mul(fx_mul(fx_mul(x, x), x), fx_mul(x, x))),
        fits(fx_mul(fx_mul(fx_mul(fx_mul(x, x), x), fx_mul(x, x)), fx_mul(x, x))),
        fits(fx_div(fx_mul(fx_mul(x, x), x), 393216)),
        fits(fx_div(fx_mul(fx_mul(fx_mul(x, x), x), fx_mul(x, x)), 7864320)),
        fits(
            fx_div(fx_mul(fx_mul(fx_mul(fx_mul(x, x), x), fx_mul(x, x)), fx_mul(x, x)), 330301440),
        ),
        fits(x - fx_div(fx_mul(fx_mul(x, x), x), 393216)),
        fits(
            x - fx_div(fx_mul(fx_mul(x, x), x), 393216) + fx_div(
                fx_mul(fx_mul(fx_mul(x, x), x), fx_mul(x, x)),
                7864320,
            ),
        ),
        fits(sin_poly(x)),
        iabs(sin_poly(x)) <= 151000,
{
    let x2 = fx_mul(x, x);
    let x3 = fx_mul(x2, x);
    let x5 = fx_mul(x3, x2);
    let x7 = fx_mul(x5, x2);
    lemma_fx_mul_bound(x, x, 102944int, 102944int);
    assert(iabs(x2) <= 161704);
    lemma_fx_mul_bound(x2, x, 161704int, 102944int);
    assert(iabs(x3) <= 254004);
    lemma_fx_mul_bound(x3, x2, 254004int, 161704int);
    assert(iabs(x5) <= 626731);
    lemma_fx_mul_bound(x5, x2, 626731int, 161704int);
    assert(iabs(x7) <= 1546400);
    lemma_fx_div_scaled(x3, 393216, 254004int);
    assert(iabs(fx_div(x3, 393216)) <= 42334);
    lemma_fx_div_scaled(x5, 7864320, 626731int);
    assert(iabs(fx_div(x5, 7864320)) <= 5222);
    lemma_fx_div_scaled(x7, 330301440, 1546400int);
    assert(iabs(fx_div(x7, 330301440)) <= 306);
}

/// The sine's magnitude is bounded by the polynomial's triangle
/// inequality on the folded range.
pub proof fn lemma_sin_bound(a: int)
    ensures
        iabs(fx_sin(a)) <= 151000,
        fits(fx_sin(a)),
{
    lemma_fold_range(a);
    lemma_sin_poly_fits(fold_half(reduce_angle(a)));
}

/// The cosine obeys the same bound.
pub proof fn lemma_cos_bound(a: int)
    ensures
        iabs(fx_cos(a)) <= 151000,
        fits(fx_cos(a)),
{
    lemma_sin_bound(a + 102944);
}

impl Fx {
    /// The sine of this angle (radians).
    pub fn sin(self) -> (r: Fx)
        ensures
            r@ == fx_sin(self@),
    {
        let neg: bool = self.raw < 0;
        let am: u128 = abs_u128(self.raw);
        let m: u128 = am % 411775;
        let m_i: i64 = if neg {
            -(m as i64)
        } else {
            m as i64
        };
        let r: i64 = if m_i > 205887 {
            m_i - 411775
        } else if m_i < -205887 {
            m_i + 411775
        } else {
            m_i
        };
        let f: i64 = if r > 102944 {
            205887 - r
        } else if r < -102944 {
            -205887 - r
        } else {
            r
        };
        let x = Fx { raw: f };
        proof {
            assert(x@ == fold_half(reduce_angle(self@)));
            lemma_fold_range(self@);
            lemma_sin_poly_fits(x@);
        }
        let x2 = x.mul(x);
        let x3 = x2.mul(x);
        let x5 = x3.mul(x2);
        let x7 = x5.mul(x2);
        let t3 = x3.div(Fx { raw: 393216 });
        let t5 = x5.div(Fx { raw: 7864320 });
        let t7 = x7.div(Fx { raw: 330301440 });
        x.sub(t3).add(t5).sub(t7)
    }

    /// The cosine of this angle (radians).
    pub fn cos(self) -> (r: Fx)
        requires
            fits(self@ + 102944),
        ensures
            r@ == fx_cos(self@),
    {
        let shifted = self.add(Fx { raw: 102944 });
        shifted.sin()
    }
}

} // verus!
