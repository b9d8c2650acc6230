//! Fixed-point scalars: signed values at scale 2^16 held in an `i128`.
//!
//! Every operation truncates toward zero, exactly as Rust's integer division
//! does, and every contract states the exact rounded result through the spec
//! functions below. The generous caps on the operands keep all intermediate
//! products inside `i128` without burdening callers with tight bounds.

use vstd::prelude::*;

verus! {

use vstd::arithmetic::div_mod::lemma_div_nonincreasing;
use vstd::arithmetic::div_mod::lemma_div_multiples_vanish;
use vstd::arithmetic::div_mod::lemma_div_is_ordered;
use vstd::arithmetic::div_mod::lemma_div_pos_is_pos;
use vstd::arithmetic::div_mod::lemma_div_of0;

/// Raw representation of the value 1.
pub const FX_ONE: i128 = 65536;

/// Per-operand cap under which a product of two values fits an `i128` (2^60).
pub const FX_MUL_CAP: i128 = 1152921504606846976;

/// Cap on a division numerator and on a square-root argument (2^104).
pub const FX_BIG_CAP: i128 = 20282409603651670423947251286016;

/// Operand cap for addition, subtraction and negation (2^120).
pub const FX_ADD_CAP: i128 = 1329227995784915872903807060280344576;

/// Cap on a raw product sum handed back to scale (2^124).
pub const FX_SUM_CAP: i128 = 21267647932558653966460912964485513216;

/// Absolute value of a mathematical integer.
pub open spec fn iabs(a: int) -> int {
    if a >= 0 {
        a
    } else {
        -a
    }
}

/// Quotient truncated toward zero, as Rust's integer division computes it.
pub open spec fn qdiv(a: int, b: int) -> int {
    if (a >= 0) == (b >= 0) {
        iabs(a) / iabs(b)
    } else {
        -(iabs(a) / iabs(b))
    }
}

/// The product of two scaled values, brought back to scale 2^16.
pub open spec fn mul_fx(a: int, b: int) -> int {
    qdiv(a * b, FX_ONE as int)
}

/// The quotient of two scaled values at scale 2^16.
pub open spec fn div_fx(a: int, b: int) -> int {
    qdiv(a * (FX_ONE as int), b)
}

/// `v` forced into the closed interval `[lo, hi]`.
pub open spec fn clamp_fx(v: int, lo: int, hi: int) -> int {
    if v < lo {
        lo
    } else if v > hi {
        hi
    } else {
        v
    }
}

/// `v` lies within `[-cap, cap]`.
pub open spec fn fx_in(v: int, cap: int) -> bool {
    -cap <= v && v <= cap
}

/// `r` is the floor of the square root of `n`.
pub open spec fn is_sqrt(n: int, r: int) -> bool {
    0 <= r && r * r <= n && n < (r + 1) * (r + 1)
}

/// The floor of the square root of `n` (for `n >= 0`).
pub open spec fn sqrt_floor(n: int) -> int {
    choose|r: int| is_sqrt(n, r)
}

/// The square root of a scaled value, again at scale 2^16:
/// `sqrt(a / 2^16) * 2^16 == sqrt(a * 2^16)`.
pub open spec fn sqrt_fx(a: int) -> int {
    sqrt_floor(a * (FX_ONE as int))
}

/// Two integers with the same floor square root are equal through it.
pub proof fn lemma_sqrt_floor_unique(n: int, r: int)
    requires
        is_sqrt(n, r),
    ensures
        sqrt_floor(n) == r,
{
    assert(exists|x: int| is_sqrt(n, x)) by {
        assert(is_sqrt(n, r));
    }
    let c = choose|x: int| is_sqrt(n, x);
    assert(is_sqrt(n, c));
    assert(c == r) by (nonlinear_arith)
        requires
            0 <= c,
            c * c <= n,
            n < (c + 1) * (c + 1),
            0 <= r,
            r * r <= n,
            n < (r + 1) * (r + 1),
    ;
}

/// There is a floor square root under every non-negative integer.
pub proof fn lemma_sqrt_exists(n: nat)
    ensures
        exists|r: int| is_sqrt(n as int, r),
    decreases n,
{
    if n == 0 {
        assert(is_sqrt(0, 0));
    } else {
        lemma_sqrt_exists((n - 1) as nat);
        let p = sqrt_floor(n - 1);
        assert(is_sqrt(n - 1, p));
        if (p + 1) * (p + 1) <= n {
            assert(is_sqrt(n as int, p + 1)) by (nonlinear_arith)
                requires
                    is_sqrt(n - 1, p),
                    (p + 1) * (p + 1) <= n,
            ;
        } else {
            assert(is_sqrt(n as int, p));
        }
    }
}

/// What the floor square root of a non-negative integer satisfies.
pub proof fn lemma_sqrt_floor_props(n: int)
    requires
        n >= 0,
    ensures
        is_sqrt(n, sqrt_floor(n)),
{
    lemma_sqrt_exists(n as nat);
}

/// Truncation toward zero never grows a magnitude.
pub proof fn lemma_qdiv_le(a: int, k: int)
    requires
        k >= 1,
    ensures
        iabs(qdiv(a, k)) <= iabs(a),
        a >= 0 ==> 0 <= qdiv(a, k) <= a,
        a < 0 ==> a <= qdiv(a, k) <= 0,
{
    lemma_div_nonincreasing(iabs(a), k);
    lemma_div_pos_is_pos(iabs(a), k);
}

/// A magnitude bound on a scaled product from bounds on its factors.
pub proof fn lemma_mul_fx_bound(a: int, b: int, ca: int, cb: int)
    requires
        iabs(a) <= ca,
        iabs(b) <= cb,
    ensures
        iabs(mul_fx(a, b)) <= (ca * cb) / (FX_ONE as int),
        fx_in(mul_fx(a, b), (ca * cb) / (FX_ONE as int)),
{
    assert(iabs(a * b) <= ca * cb) by (nonlinear_arith)
        requires
            iabs(a) <= ca,
            iabs(b) <= cb,
    ;
    lemma_div_is_ordered(iabs(a * b), ca * cb, FX_ONE as int);
    lemma_div_pos_is_pos(iabs(a * b), FX_ONE as int);
}

/// A scaled product of non-negative values is non-negative.
pub proof fn lemma_mul_fx_nonneg(a: int, b: int)
    requires
        a >= 0,
        b >= 0,
    ensures
        mul_fx(a, b) >= 0,
{
    assert(a * b >= 0) by (nonlinear_arith)
        requires
            a >= 0,
            b >= 0,
    ;
    lemma_div_pos_is_pos(a * b, FX_ONE as int);
}

/// A scaled product of values in `[0, 1]` stays in `[0, 1]`.
pub proof fn lemma_mul_fx_unit(a: int, b: int)
    requires
        0 <= a <= FX_ONE as int,
        0 <= b <= FX_ONE as int,
    ensures
        0 <= mul_fx(a, b) <= FX_ONE as int,
{
    lemma_mul_fx_nonneg(a, b);
    lemma_mul_fx_bound(a, b, FX_ONE as int, FX_ONE as int);
}

/// Scaling by exactly plus or minus one is exact.
pub proof fn lemma_mul_fx_one(k: int)
    ensures
        mul_fx(FX_ONE as int, k) == k,
        mul_fx(k, FX_ONE as int) == k,
        mul_fx(-(FX_ONE as int), k) == -k,
        mul_fx(k, -(FX_ONE as int)) == -k,
{
    lemma_div_multiples_vanish(k, FX_ONE as int);
    lemma_div_multiples_vanish(-k, FX_ONE as int);
    assert((FX_ONE as int) * k == k * (FX_ONE as int)) by (nonlinear_arith);
    assert((FX_ONE as int) * (-k) == -((FX_ONE as int) * k)) by (nonlinear_arith);
}

/// Scaling by a component of an exact axis unit keeps the factor, flips
/// it, or yields zero.
pub proof fn lemma_mul_fx_axis(s: int, t: int)
    requires
        iabs(s) == FX_ONE as int || s == 0,
    ensures
        mul_fx(s, t) == (if s == FX_ONE as int {
            t
        } else if s == -(FX_ONE as int) {
            -t
        } else {
            0
        }),
        mul_fx(t, s) == (if s == FX_ONE as int {
            t
        } else if s == -(FX_ONE as int) {
            -t
        } else {
            0
        }),
{
    lemma_mul_fx_one(t);
    assert(s * t == t * s) by (nonlinear_arith);
    if s == 0 {
        assert(0 * t == 0) by (nonlinear_arith);
        assert(t * 0 == 0) by (nonlinear_arith);
        lemma_div_of0(FX_ONE as int);
    }
}

/// Scaling zero gives zero.
pub proof fn lemma_mul_fx_zero(t: int)
    ensures
        mul_fx(0, t) == 0,
        mul_fx(t, 0) == 0,
{
    assert(0 * t == 0) by (nonlinear_arith);
    assert(t * 0 == 0) by (nonlinear_arith);
    lemma_div_of0(FX_ONE as int);
}

/// A scaled quotient of a numerator no larger in magnitude than its
/// denominator stays within `[-1, 1]`.
pub proof fn lemma_div_fx_ratio(a: int, b: int)
    requires
        iabs(a) <= b,
        0 < b,
    ensures
        fx_in(div_fx(a, b), FX_ONE as int),
{
    assert(iabs(a * (FX_ONE as int)) == iabs(a) * (FX_ONE as int)) by (nonlinear_arith);
    assert(iabs(a) * (FX_ONE as int) <= b * (FX_ONE as int)) by (nonlinear_arith)
        requires
            iabs(a) <= b,
    ;
    lemma_div_is_ordered(iabs(a) * (FX_ONE as int), b * (FX_ONE as int), b);
    lemma_div_multiples_vanish(FX_ONE as int, b);
    lemma_div_pos_is_pos(iabs(a) * (FX_ONE as int), b);
    assert(b * (FX_ONE as int) == (FX_ONE as int) * b) by (nonlinear_arith);
}

/// A magnitude bound on a scaled quotient from a bound on its numerator.
pub proof fn lemma_div_fx_bound(a: int, b: int, ca: int)
    requires
        iabs(a) <= ca,
        b != 0,
    ensures
        iabs(div_fx(a, b)) <= ca * (FX_ONE as int),
        fx_in(div_fx(a, b), ca * (FX_ONE as int)),
{
    assert(iabs(a * (FX_ONE as int)) <= ca * (FX_ONE as int)) by (nonlinear_arith)
        requires
            iabs(a) <= ca,
    ;
    lemma_div_is_ordered(iabs(a * (FX_ONE as int)), ca * (FX_ONE as int), iabs(b));
    lemma_div_nonincreasing(iabs(a * (FX_ONE as int)), iabs(b));
    lemma_div_pos_is_pos(iabs(a * (FX_ONE as int)), iabs(b));
}

/// A scaled quotient of non-negative values is non-negative, and is bounded
/// by the scale when the numerator does not exceed the denominator.
pub proof fn lemma_div_fx_unit(a: int, b: int)
    requires
        0 <= a <= b,
        0 < b,
    ensures
        0 <= div_fx(a, b) <= FX_ONE as int,
{
    assert(0 <= a * (FX_ONE as int) <= b * (FX_ONE as int)) by (nonlinear_arith)
        requires
            0 <= a <= b,
    ;
    lemma_div_is_ordered(a * (FX_ONE as int), b * (FX_ONE as int), b);
    lemma_div_pos_is_pos(a * (FX_ONE as int), b);
    lemma_div_multiples_vanish(FX_ONE as int, b);
    assert(b * (FX_ONE as int) == (FX_ONE as int) * b) by (nonlinear_arith);
}

/// A signed fixed-point number: the real value is `self.0 / 2^16`.
#[derive(Clone, Copy, PartialEq, Eq, Structural, Debug)]
pub struct Fx(pub i128);

impl View for Fx {
    type V = int;

    open spec fn view(&self) -> int {
        self.0 as int
    }
}

/// Divides by the scale, truncating toward zero.
pub(crate) fn scale_down(p: i128) -> (r: i128)
    requires
        fx_in(p as int, FX_SUM_CAP as int),
    ensures
        r as int == qdiv(p as int, FX_ONE as int),
{
    if p >= 0 {
        let q: u128 = (p as u128) / 65536u128;
        proof {
            lemma_div_nonincreasing(p as int, 65536);
        }
        q as i128
    } else {
        let m: u128 = (-p) as u128;
        let q: u128 = m / 65536u128;
        proof {
            lemma_div_nonincreasing(m as int, 65536);
        }
        -(q as i128)
    }
}

impl Fx {
    /// The scaled image of a small integer; exact.
    pub fn from_int(n: i64) -> (r: Fx)
        ensures
            r@ == n * (FX_ONE as int),
    {
        Fx((n as i128) * 65536)
    }

    /// The value 0.
    pub fn zero() -> (r: Fx)
        ensures
            r@ == 0,
    {
        Fx(0)
    }

    /// The value 1.
    pub fn one() -> (r: Fx)
        ensures
            r@ == FX_ONE as int,
    {
        Fx(65536)
    }

    pub fn add(self, o: Fx) -> (r: Fx)
        requires
            fx_in(self@, FX_ADD_CAP as int),
            fx_in(o@, FX_ADD_CAP as int),
        ensures
            r@ == self@ + o@,
    {
        Fx(self.0 + o.0)
    }

    pub fn sub(self, o: Fx) -> (r: Fx)
        requires
            fx_in(self@, FX_ADD_CAP as int),
            fx_in(o@, FX_ADD_CAP as int),
        ensures
            r@ == self@ - o@,
    {
        Fx(self.0 - o.0)
    }

    pub fn neg(self) -> (r: Fx)
        requires
            fx_in(self@, FX_ADD_CAP as int),
        ensures
            r@ == -self@,
    {
        Fx(-self.0)
    }

    pub fn mul(self, o: Fx) -> (r: Fx)
        requires
            fx_in(self@, FX_MUL_CAP as int),
            fx_in(o@, FX_MUL_CAP as int),
        ensures
            r@ == mul_fx(self@, o@),
    {
        proof {
            assert(fx_in(self@ * o@, FX_ADD_CAP as int)) by (nonlinear_arith)
                requires
                    fx_in(self@, FX_MUL_CAP as int),
                    fx_in(o@, FX_MUL_CAP as int),
            ;
        }
        let p: i128 = self.0 * o.0;
        Fx(scale_down(p))
    }

    /// Division of scaled values; the divisor must not be zero.
    pub fn div(self, o: Fx) -> (r: Fx)
        requires
            fx_in(self@, FX_BIG_CAP as int),
            fx_in(o@, FX_ADD_CAP as int),
            o@ != 0,
        ensures
            r@ == div_fx(self@, o@),
    {
        let neg = (self.0 < 0) != (o.0 < 0);
        let ma: u128 = if self.0 >= 0 {
            (self.0 as u128) * 65536u128
        } else {
            ((-self.0) as u128) * 65536u128
        };
        let mb: u128 = if o.0 >= 0 {
            o.0 as u128
        } else {
            (-o.0) as u128
        };
        let q: u128 = ma / mb;
        proof {
            assert(ma as int == iabs(self@) * (FX_ONE as int));
            assert(iabs(self@ * (FX_ONE as int)) == iabs(self@) * (FX_ONE as int))
                by (nonlinear_arith);
            lemma_div_nonincreasing(ma as int, mb as int);
            assert(((self@ * (FX_ONE as int)) >= 0) == (self@ >= 0)) by (nonlinear_arith);
        }
        if neg {
            Fx(-(q as i128))
        } else {
            Fx(q as i128)
        }
    }

    /// The floor square root of a non-negative scaled value, at scale 2^16.
    pub fn sqrt(self) -> (r: Fx)
        requires
            0 <= self@ <= FX_BIG_CAP as int,
        ensures
            r@ == sqrt_fx(self@),
            0 <= r@ <= FX_MUL_CAP as int,
    {
        let m: u128 = (self.0 as u128) * 65536u128;
        let s: u128 = isqrt_u128(m);
        proof {
            assert((s * s) as int == (s as int) * (s as int)) by (nonlinear_arith);
            assert((s as int) <= FX_MUL_CAP as int) by (nonlinear_arith)
                requires
                    (s as int) * (s as int) <= m as int,
                    (m as int) <= (FX_BIG_CAP as int) * (FX_ONE as int),
                    FX_MUL_CAP as int == 1152921504606846976int,
            ;
            lemma_sqrt_floor_unique(m as int, s as int);
        }
        Fx(s as i128)
    }

    /// Division by a positive plain integer, truncating toward zero.
    pub fn div_const(self, k: i128) -> (r: Fx)
        requires
            k > 0,
            fx_in(self@, FX_ADD_CAP as int),
        ensures
            r@ == qdiv(self@, k as int),
    {
        if self.0 >= 0 {
            let q: u128 = (self.0 as u128) / (k as u128);
            proof {
                lemma_div_nonincreasing(self.0 as int, k as int);
            }
            Fx(q as i128)
        } else {
            let m: u128 = (-self.0) as u128;
            let q: u128 = m / (k as u128);
            proof {
                lemma_div_nonincreasing(m as int, k as int);
            }
            Fx(-(q as i128))
        }
    }

    /// The absolute value.
    pub fn abs(self) -> (r: Fx)
        requires
            fx_in(self@, FX_ADD_CAP as int),
        ensures
            r@ == iabs(self@),
    {
        if self.0 >= 0 {
            self
        } else {
            Fx(-self.0)
        }
    }

    /// The smaller of two values.
    pub fn min(self, o: Fx) -> (r: Fx)
        ensures
            r@ == if self@ <= o@ { self@ } else { o@ },
    {
        if self.0 <= o.0 {
            self
        } else {
            o
        }
    }

    /// The larger of two values.
    pub fn max(self, o: Fx) -> (r: Fx)
        ensures
            r@ == if self@ >= o@ { self@ } else { o@ },
    {
        if self.0 >= o.0 {
            self
        } else {
            o
        }
    }

    /// The value forced into `[lo, hi]`.
    pub fn clamp(self, lo: Fx, hi: Fx) -> (r: Fx)
        requires
            lo@ <= hi@,
        ensures
            r@ == clamp_fx(self@, lo@, hi@),
    {
        if self.0 < lo.0 {
            lo
        } else if self.0 > hi.0 {
            hi
        } else {
            self
        }
    }
}

/// The floor square root of an unsigned 128-bit integer, by bisection.
fn isqrt_u128(x: u128) -> (r: u128)
    ensures
        is_sqrt(x as int, r as int),
{
    let mut lo: u128 = 0;
    let mut hi: u128 = 18446744073709551616u128;
    proof {
        assert((hi as int) * (hi as int) > x as int) by (nonlinear_arith)
            requires
                (hi as int) == 18446744073709551616int,
                (x as int) < 340282366920938463463374607431768211456int,
        ;
    }
    while lo + 1 < hi
        invariant
            lo < hi,
            hi <= 18446744073709551616u128,
            (lo as int) * (lo as int) <= x as int,
            (x as int) < (hi as int) * (hi as int),
        decreases hi - lo,
    {
        let mid: u128 = lo + (hi - lo) / 2;
        assert(lo < mid < hi);
        proof {
            assert((mid as int) * (mid as int) < 340282366920938463463374607431768211456int)
                by (nonlinear_arith)
                requires
                    0 <= (mid as int) <= 18446744073709551615int,
            ;
        }
        let sq: u128 = mid * mid;
        if sq <= x {
            lo = mid;
        } else {
            hi = mid;
        }
    }
    lo
}

} // verus!
