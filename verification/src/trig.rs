//! Trigonometry on fixed-point angles, in radians at scale 2^16.
//!
//! Sine and cosine reduce an angle into the first quadrant and evaluate a
//! truncated Taylor series there; the arc tangent uses a quadratic
//! approximation on `[0, 1]` folded over the octants. Each function's
//! contract gives the exact rounded value through a mirror spec function,
//! and sine and cosine are clamped into `[-1, 1]` so that callers can bound
//! what they build from them.

use vstd::prelude::*;

verus! {

use vstd::arithmetic::div_mod::lemma_fundamental_div_mod;
use vstd::arithmetic::div_mod::lemma_fundamental_div_mod_converse_mod;
use crate::fx::{
    Fx, FX_ONE, FX_ADD_CAP, FX_MUL_CAP, fx_in, mul_fx, div_fx, qdiv, clamp_fx,
    lemma_mul_fx_bound, lemma_div_fx_unit, lemma_qdiv_le,
};

/// The angle pi at scale 2^16.
pub const FX_PI: i128 = 205887;

/// The angle 2 * pi at scale 2^16.
pub const FX_TWO_PI: i128 = 411774;

/// The angle pi / 2 at scale 2^16.
pub const FX_HALF_PI: i128 = 102943;

/// The angle pi / 4 at scale 2^16.
pub const FX_QUARTER_PI: i128 = 51472;

/// The constant 0.273 at scale 2^16, used by the arc-tangent approximation.
pub const FX_ATAN_K: i128 = 17892;

/// An angle folded into `[0, 2 * pi)` (Euclidean remainder).
pub open spec fn wrap_2pi(a: int) -> int {
    a % (FX_TWO_PI as int)
}

/// Taylor cosine on the first quadrant, truncated after the x^6 term.
pub open spec fn cos_core(x: int) -> int {
    let x2 = mul_fx(x, x);
    let x4 = mul_fx(x2, x2);
    let x6 = mul_fx(x4, x2);
    (FX_ONE as int) - qdiv(x2, 2) + qdiv(x4, 24) - qdiv(x6, 720)
}

/// Taylor sine on the first quadrant, truncated after the x^7 term.
pub open spec fn sin_core(x: int) -> int {
    let x2 = mul_fx(x, x);
    let x3 = mul_fx(x2, x);
    let x5 = mul_fx(mul_fx(x2, x2), x);
    let x7 = mul_fx(mul_fx(x2, x2), x3);
    x - qdiv(x3, 6) + qdiv(x5, 120) - qdiv(x7, 5040)
}

/// Cosine of an angle already folded into `[0, 2 * pi)`, clamped to `[-1, 1]`.
pub open spec fn cos_at(a: int) -> int {
    let x = if a <= FX_PI as int {
        a
    } else {
        (FX_TWO_PI as int) - a
    };
    let c = if x <= FX_HALF_PI as int {
        cos_core(x)
    } else {
        -cos_core((FX_PI as int) - x)
    };
    clamp_fx(c, -(FX_ONE as int), FX_ONE as int)
}

/// Sine of an angle already folded into `[0, 2 * pi)`, clamped to `[-1, 1]`.
pub open spec fn sin_at(a: int) -> int {
    let b = if a <= FX_PI as int {
        a
    } else {
        a - (FX_PI as int)
    };
    let x = if b <= FX_HALF_PI as int {
        b
    } else {
        (FX_PI as int) - b
    };
    let s = clamp_fx(sin_core(x), -(FX_ONE as int), FX_ONE as int);
    if a <= FX_PI as int {
        s
    } else {
        -s
    }
}

/// Cosine of an arbitrary angle: fold, then evaluate.
pub open spec fn cos_fx(a: int) -> int {
    cos_at(wrap_2pi(a))
}

/// Sine of an arbitrary angle: fold, then evaluate.
pub open spec fn sin_fx(a: int) -> int {
    sin_at(wrap_2pi(a))
}

/// Arc tangent of a ratio in `[0, 1]`: `(pi/4) z + 0.273 z (1 - z)`.
pub open spec fn atan_unit(z: int) -> int {
    mul_fx(z, FX_QUARTER_PI as int) + mul_fx(mul_fx(FX_ATAN_K as int, z), (FX_ONE as int) - z)
}

/// Arc tangent of `y / x` for `y >= 0, x >= 0`, in `[0, pi/2]`.
pub open spec fn atan_pos(y: int, x: int) -> int {
    if x == 0 {
        FX_HALF_PI as int
    } else if y <= x {
        atan_unit(div_fx(y, x))
    } else {
        (FX_HALF_PI as int) - atan_unit(div_fx(x, y))
    }
}

/// The quadrant-aware arc tangent of `y / x`, in `(-pi, pi]`.
pub open spec fn atan2_fx(y: int, x: int) -> int {
    if x == 0 && y == 0 {
        0
    } else if x >= 0 && y >= 0 {
        atan_pos(y, x)
    } else if x < 0 && y >= 0 {
        (FX_PI as int) - atan_pos(y, -x)
    } else if x >= 0 {
        -atan_pos(-y, x)
    } else {
        -((FX_PI as int) - atan_pos(-y, -x))
    }
}

/// Folds an angle into `[0, 2 * pi)`.
pub fn wrap_angle(a: Fx) -> (r: Fx)
    requires
        fx_in(a@, FX_ADD_CAP as int),
    ensures
        r@ == wrap_2pi(a@),
        0 <= r@ < FX_TWO_PI as int,
{
    let t: u128 = 411774u128;
    if a.0 >= 0 {
        let m: u128 = (a.0 as u128) % t;
        Fx(m as i128)
    } else {
        let m: u128 = ((-a.0) as u128) % t;
        proof {
            let aa = a@;
            let tt = FX_TWO_PI as int;
            lemma_fundamental_div_mod(-aa, tt);
            let q = (-aa) / tt;
            assert(-aa == tt * q + (m as int));
            if m == 0 {
                assert(aa == tt * (-q) + 0) by (nonlinear_arith)
                    requires
                        -aa == tt * q + 0,
                ;
                lemma_fundamental_div_mod_converse_mod(aa, tt, -q, 0);
            } else {
                assert(aa == tt * (-q - 1) + (tt - m)) by (nonlinear_arith)
                    requires
                        -aa == tt * q + (m as int),
                        tt == FX_TWO_PI as int,
                ;
                lemma_fundamental_div_mod_converse_mod(aa, tt, -q - 1, tt - (m as int));
            }
        }
        if m == 0 {
            Fx(0)
        } else {
            Fx(411774 - (m as i128))
        }
    }
}

/// Cosine on the first quadrant; mirrors `cos_core`.
fn cos_core_e(x: Fx) -> (r: Fx)
    requires
        0 <= x@ <= FX_PI as int,
    ensures
        r@ == cos_core(x@),
        fx_in(r@, 1000000000),
{
    proof {
        lemma_mul_fx_bound(x@, x@, FX_PI as int, FX_PI as int);
    }
    let x2 = x.mul(x);
    proof {
        lemma_mul_fx_bound(x2@, x2@, 700000, 700000);
    }
    let x4 = x2.mul(x2);
    proof {
        lemma_mul_fx_bound(x4@, x2@, 7500000, 700000);
    }
    let x6 = x4.mul(x2);
    proof {
        lemma_qdiv_le(x2@, 2);
        lemma_qdiv_le(x4@, 24);
        lemma_qdiv_le(x6@, 720);
    }
    Fx(FX_ONE).sub(x2.div_const(2)).add(x4.div_const(24)).sub(x6.div_const(720))
}

/// Sine on the first quadrant; mirrors `sin_core`.
fn sin_core_e(x: Fx) -> (r: Fx)
    requires
        0 <= x@ <= FX_PI as int,
    ensures
        r@ == sin_core(x@),
        fx_in(r@, 1000000000),
{
    proof {
        lemma_mul_fx_bound(x@, x@, FX_PI as int, FX_PI as int);
    }
    let x2 = x.mul(x);
    proof {
        lemma_mul_fx_bound(x2@, x@, 700000, FX_PI as int);
        lemma_mul_fx_bound(x2@, x2@, 700000, 700000);
    }
    let x3 = x2.mul(x);
    let x4 = x2.mul(x2);
    proof {
        lemma_mul_fx_bound(x4@, x@, 7500000, FX_PI as int);
        lemma_mul_fx_bound(x4@, x3@, 7500000, 2200000);
    }
    let x5 = x4.mul(x);
    let x7 = x4.mul(x3);
    proof {
        lemma_qdiv_le(x3@, 6);
        lemma_qdiv_le(x5@, 120);
        lemma_qdiv_le(x7@, 5040);
    }
    x.sub(x3.div_const(6)).add(x5.div_const(120)).sub(x7.div_const(5040))
}

/// Cosine of an arbitrary angle, clamped into `[-1, 1]`.
pub fn cos(a: Fx) -> (r: Fx)
    requires
        fx_in(a@, FX_ADD_CAP as int),
    ensures
        r@ == cos_fx(a@),
        fx_in(r@, FX_ONE as int),
{
    let w = wrap_angle(a);
    let x = if w.0 <= FX_PI {
        w
    } else {
        Fx(FX_TWO_PI).sub(w)
    };
    let c = if x.0 <= FX_HALF_PI {
        cos_core_e(x)
    } else {
        cos_core_e(Fx(FX_PI).sub(x)).neg()
    };
    c.clamp(Fx(-FX_ONE), Fx(FX_ONE))
}

/// Sine of an arbitrary angle, clamped into `[-1, 1]`.
pub fn sin(a: Fx) -> (r: Fx)
    requires
        fx_in(a@, FX_ADD_CAP as int),
    ensures
        r@ == sin_fx(a@),
        fx_in(r@, FX_ONE as int),
{
    let w = wrap_angle(a);
    let b = if w.0 <= FX_PI {
        w
    } else {
        w.sub(Fx(FX_PI))
    };
    let x = if b.0 <= FX_HALF_PI {
        b
    } else {
        Fx(FX_PI).sub(b)
    };
    let s = sin_core_e(x).clamp(Fx(-FX_ONE), Fx(FX_ONE));
    if w.0 <= FX_PI {
        s
    } else {
        s.neg()
    }
}

/// Arc tangent on `[0, 1]`; mirrors `atan_unit`.
fn atan_unit_e(z: Fx) -> (r: Fx)
    requires
        0 <= z@ <= FX_ONE as int,
    ensures
        r@ == atan_unit(z@),
        fx_in(r@, 100000),
{
    proof {
        lemma_mul_fx_bound(z@, FX_QUARTER_PI as int, FX_ONE as int, FX_QUARTER_PI as int);
        lemma_mul_fx_bound(FX_ATAN_K as int, z@, FX_ATAN_K as int, FX_ONE as int);
        lemma_mul_fx_bound(mul_fx(FX_ATAN_K as int, z@), (FX_ONE as int) - z@, FX_ATAN_K as int,
            FX_ONE as int);
    }
    z.mul(Fx(FX_QUARTER_PI)).add(Fx(FX_ATAN_K).mul(z).mul(Fx(FX_ONE).sub(z)))
}

/// Arc tangent of `y / x` for non-negative arguments; mirrors `atan_pos`.
fn atan_pos_e(y: Fx, x: Fx) -> (r: Fx)
    requires
        0 <= y@ <= FX_MUL_CAP as int,
        0 <= x@ <= FX_MUL_CAP as int,
    ensures
        r@ == atan_pos(y@, x@),
        fx_in(r@, 400000),
{
    if x.0 == 0 {
        Fx(FX_HALF_PI)
    } else if y.0 <= x.0 {
        let z = y.div(x);
        proof {
            lemma_div_fx_unit(y@, x@);
        }
        atan_unit_e(z)
    } else {
        let z = x.div(y);
        proof {
            lemma_div_fx_unit(x@, y@);
        }
        Fx(FX_HALF_PI).sub(atan_unit_e(z))
    }
}

/// The quadrant-aware arc tangent; mirrors `atan2_fx`.
pub fn atan2(y: Fx, x: Fx) -> (r: Fx)
    requires
        fx_in(y@, FX_MUL_CAP as int),
        fx_in(x@, FX_MUL_CAP as int),
    ensures
        r@ == atan2_fx(y@, x@),
        fx_in(r@, 700000),
{
    if x.0 == 0 && y.0 == 0 {
        Fx(0)
    } else if x.0 >= 0 && y.0 >= 0 {
        atan_pos_e(y, x)
    } else if x.0 < 0 && y.0 >= 0 {
        Fx(FX_PI).sub(atan_pos_e(y, x.neg()))
    } else if x.0 >= 0 {
        atan_pos_e(y.neg(), x).neg()
    } else {
        Fx(FX_PI).sub(atan_pos_e(y.neg(), x.neg())).neg()
    }
}

} // verus!
