//! Three-component fixed-point vectors and their exact mirror model.
//!
//! The spec model `V3i` carries the raw scaled components as mathematical
//! integers; every vector operation's contract gives the exact rounded
//! result over that model. `normalize` clamps its components into `[-2, 2]`
//! so that a direction built from any input has a known magnitude bound.

use vstd::prelude::*;

verus! {

use vstd::arithmetic::div_mod::lemma_div_is_ordered;
use vstd::arithmetic::div_mod::lemma_div_pos_is_pos;
use crate::fx::{
    Fx, FX_ONE, FX_MUL_CAP, FX_ADD_CAP, fx_in, mul_fx, div_fx, qdiv, clamp_fx, sqrt_fx,
    lemma_mul_fx_bound,
};

/// Cap on components fed to `norm` and `normalize` (2^56).
pub const V3_NORM_CAP: i128 = 72057594037927936;

/// Raw bound on the components of a normalized vector: the value 2.
pub const V3_UNIT_CAP: i128 = 131072;

/// The spec-level image of a vector: its raw scaled components.
pub struct V3i {
    pub x: int,
    pub y: int,
    pub z: int,
}

/// All three components lie within `[-cap, cap]`.
pub open spec fn v3_in(v: V3i, cap: int) -> bool {
    fx_in(v.x, cap) && fx_in(v.y, cap) && fx_in(v.z, cap)
}

pub open spec fn add_v(a: V3i, b: V3i) -> V3i {
    V3i { x: a.x + b.x, y: a.y + b.y, z: a.z + b.z }
}

pub open spec fn sub_v(a: V3i, b: V3i) -> V3i {
    V3i { x: a.x - b.x, y: a.y - b.y, z: a.z - b.z }
}

pub open spec fn neg_v(a: V3i) -> V3i {
    V3i { x: -a.x, y: -a.y, z: -a.z }
}

/// Each component scaled by `s`.
pub open spec fn scale_v(a: V3i, s: int) -> V3i {
    V3i { x: mul_fx(a.x, s), y: mul_fx(a.y, s), z: mul_fx(a.z, s) }
}

/// The dot product: one truncation after the full sum of raw products.
pub open spec fn dot_v(a: V3i, b: V3i) -> int {
    qdiv(a.x * b.x + a.y * b.y + a.z * b.z, FX_ONE as int)
}

pub open spec fn cross_v(a: V3i, b: V3i) -> V3i {
    V3i {
        x: mul_fx(a.y, b.z) - mul_fx(a.z, b.y),
        y: mul_fx(a.z, b.x) - mul_fx(a.x, b.z),
        z: mul_fx(a.x, b.y) - mul_fx(a.y, b.x),
    }
}

/// The Euclidean length, at scale 2^16.
pub open spec fn norm_v(a: V3i) -> int {
    sqrt_fx(dot_v(a, a))
}

/// The unit vector along `a`: zero for the zero-length vector, and each
/// component clamped into `[-2, 2]` to bound rounding overshoot.
pub open spec fn normalize_v(a: V3i) -> V3i {
    let n = norm_v(a);
    if n == 0 {
        V3i { x: 0, y: 0, z: 0 }
    } else {
        V3i {
            x: clamp_fx(div_fx(a.x, n), -(V3_UNIT_CAP as int), V3_UNIT_CAP as int),
            y: clamp_fx(div_fx(a.y, n), -(V3_UNIT_CAP as int), V3_UNIT_CAP as int),
            z: clamp_fx(div_fx(a.z, n), -(V3_UNIT_CAP as int), V3_UNIT_CAP as int),
        }
    }
}

/// A dot product of bounded vectors is bounded.
pub proof fn lemma_dot_bound(a: V3i, b: V3i, ca: int, cb: int)
    requires
        v3_in(a, ca),
        v3_in(b, cb),
        0 <= ca,
        0 <= cb,
    ensures
        fx_in(dot_v(a, b), (3 * ca * cb) / (FX_ONE as int)),
{
    assert(-(3 * ca * cb) <= a.x * b.x + a.y * b.y + a.z * b.z <= 3 * ca * cb)
        by (nonlinear_arith)
        requires
            v3_in(a, ca),
            v3_in(b, cb),
            0 <= ca,
            0 <= cb,
    ;
    let s = a.x * b.x + a.y * b.y + a.z * b.z;
    lemma_div_is_ordered(if s >= 0 { s } else { -s }, 3 * ca * cb, FX_ONE as int);
    lemma_div_pos_is_pos(if s >= 0 { s } else { -s }, FX_ONE as int);
}

/// A vector's dot product with itself is non-negative.
pub proof fn lemma_dot_self_nonneg(a: V3i)
    ensures
        dot_v(a, a) >= 0,
{
    assert(a.x * a.x + a.y * a.y + a.z * a.z >= 0) by (nonlinear_arith);
    lemma_div_pos_is_pos(a.x * a.x + a.y * a.y + a.z * a.z, FX_ONE as int);
}

/// A scaled vector is bounded by the product of its factors' bounds.
pub proof fn lemma_scale_bound(a: V3i, s: int, ca: int, cs: int)
    requires
        v3_in(a, ca),
        fx_in(s, cs),
    ensures
        v3_in(scale_v(a, s), (ca * cs) / (FX_ONE as int)),
{
    lemma_mul_fx_bound(a.x, s, ca, cs);
    lemma_mul_fx_bound(a.y, s, ca, cs);
    lemma_mul_fx_bound(a.z, s, ca, cs);
}

/// A cross product of bounded vectors is bounded.
pub proof fn lemma_cross_bound(a: V3i, b: V3i, ca: int, cb: int)
    requires
        v3_in(a, ca),
        v3_in(b, cb),
    ensures
        v3_in(cross_v(a, b), 2 * ((ca * cb) / (FX_ONE as int))),
{
    lemma_mul_fx_bound(a.y, b.z, ca, cb);
    lemma_mul_fx_bound(a.z, b.y, ca, cb);
    lemma_mul_fx_bound(a.z, b.x, ca, cb);
    lemma_mul_fx_bound(a.x, b.z, ca, cb);
    lemma_mul_fx_bound(a.x, b.y, ca, cb);
    lemma_mul_fx_bound(a.y, b.x, ca, cb);
}

/// The length of a bounded vector is bounded by twice the component cap.
pub proof fn lemma_norm_bound(a: V3i, c: int)
    requires
        v3_in(a, c),
        0 <= c,
    ensures
        0 <= norm_v(a) <= 2 * c,
{
    lemma_dot_self_nonneg(a);
    lemma_dot_bound(a, a, c, c);
    let d = dot_v(a, a);
    crate::fx::lemma_sqrt_floor_props(d * (FX_ONE as int));
    let r = crate::fx::sqrt_floor(d * (FX_ONE as int));
    vstd::arithmetic::div_mod::lemma_fundamental_div_mod(3 * c * c, FX_ONE as int);
    vstd::arithmetic::div_mod::lemma_mod_division_less_than_divisor(3 * c * c, FX_ONE as int);
    assert(d * (FX_ONE as int) <= 3 * c * c) by (nonlinear_arith)
        requires
            d <= (3 * c * c) / (FX_ONE as int),
            ((3 * c * c) / (FX_ONE as int)) * (FX_ONE as int) <= 3 * c * c,
            FX_ONE as int == 65536,
    ;
    assert(r <= 2 * c) by (nonlinear_arith)
        requires
            0 <= c,
            0 <= r,
            r * r <= 3 * c * c,
    ;
}

/// A fixed-point vector in world or camera space.
#[derive(Clone, Copy, PartialEq, Eq, Structural, Debug)]
pub struct Vec3 {
    pub x: Fx,
    pub y: Fx,
    pub z: Fx,
}

impl View for Vec3 {
    type V = V3i;

    open spec fn view(&self) -> V3i {
        V3i { x: self.x@, y: self.y@, z: self.z@ }
    }
}

impl Vec3 {
    pub fn new(x: Fx, y: Fx, z: Fx) -> (r: Vec3)
        ensures
            r@ == (V3i { x: x@, y: y@, z: z@ }),
    {
        Vec3 { x, y, z }
    }

    pub fn zero() -> (r: Vec3)
        ensures
            r@ == (V3i { x: 0, y: 0, z: 0 }),
    {
        Vec3 { x: Fx(0), y: Fx(0), z: Fx(0) }
    }

    pub fn add(self, o: Vec3) -> (r: Vec3)
        requires
            v3_in(self@, FX_ADD_CAP as int),
            v3_in(o@, FX_ADD_CAP as int),
        ensures
            r@ == add_v(self@, o@),
    {
        Vec3 { x: self.x.add(o.x), y: self.y.add(o.y), z: self.z.add(o.z) }
    }

    pub fn sub(self, o: Vec3) -> (r: Vec3)
        requires
            v3_in(self@, FX_ADD_CAP as int),
            v3_in(o@, FX_ADD_CAP as int),
        ensures
            r@ == sub_v(self@, o@),
    {
        Vec3 { x: self.x.sub(o.x), y: self.y.sub(o.y), z: self.z.sub(o.z) }
    }

    pub fn neg(self) -> (r: Vec3)
        requires
            v3_in(self@, FX_ADD_CAP as int),
        ensures
            r@ == neg_v(self@),
    {
        Vec3 { x: self.x.neg(), y: self.y.neg(), z: self.z.neg() }
    }

    pub fn scale(self, s: Fx) -> (r: Vec3)
        requires
            v3_in(self@, FX_MUL_CAP as int),
            fx_in(s@, FX_MUL_CAP as int),
        ensures
            r@ == scale_v(self@, s@),
    {
        Vec3 { x: self.x.mul(s), y: self.y.mul(s), z: self.z.mul(s) }
    }

    pub fn dot(self, o: Vec3) -> (r: Fx)
        requires
            v3_in(self@, FX_MUL_CAP as int),
            v3_in(o@, FX_MUL_CAP as int),
        ensures
            r@ == dot_v(self@, o@),
    {
        proof {
            assert(fx_in(self@.x * o@.x, FX_ADD_CAP as int) && fx_in(
                self@.y * o@.y,
                FX_ADD_CAP as int,
            ) && fx_in(self@.z * o@.z, FX_ADD_CAP as int)) by (nonlinear_arith)
                requires
                    v3_in(self@, FX_MUL_CAP as int),
                    v3_in(o@, FX_MUL_CAP as int),
            ;
        }
        let p: i128 = self.x.0 * o.x.0 + self.y.0 * o.y.0 + self.z.0 * o.z.0;
        Fx(crate::fx::scale_down(p))
    }

    pub fn cross(self, o: Vec3) -> (r: Vec3)
        requires
            v3_in(self@, FX_MUL_CAP as int),
            v3_in(o@, FX_MUL_CAP as int),
        ensures
            r@ == cross_v(self@, o@),
    {
        proof {
            lemma_mul_fx_bound(self@.y, o@.z, FX_MUL_CAP as int, FX_MUL_CAP as int);
            lemma_mul_fx_bound(self@.z, o@.y, FX_MUL_CAP as int, FX_MUL_CAP as int);
            lemma_mul_fx_bound(self@.z, o@.x, FX_MUL_CAP as int, FX_MUL_CAP as int);
            lemma_mul_fx_bound(self@.x, o@.z, FX_MUL_CAP as int, FX_MUL_CAP as int);
            lemma_mul_fx_bound(self@.x, o@.y, FX_MUL_CAP as int, FX_MUL_CAP as int);
            lemma_mul_fx_bound(self@.y, o@.x, FX_MUL_CAP as int, FX_MUL_CAP as int);
        }
        Vec3 {
            x: self.y.mul(o.z).sub(self.z.mul(o.y)),
            y: self.z.mul(o.x).sub(self.x.mul(o.z)),
            z: self.x.mul(o.y).sub(self.y.mul(o.x)),
        }
    }

    /// The Euclidean length of a moderately bounded vector.
    pub fn norm(self) -> (r: Fx)
        requires
            v3_in(self@, V3_NORM_CAP as int),
        ensures
            r@ == norm_v(self@),
            0 <= r@ <= FX_MUL_CAP as int,
    {
        proof {
            lemma_dot_self_nonneg(self@);
            lemma_dot_bound(self@, self@, V3_NORM_CAP as int, V3_NORM_CAP as int);
        }
        let d = self.dot(self);
        d.sqrt()
    }

    /// The unit vector along `self`, or zero if the length rounds to zero.
    pub fn normalize(self) -> (r: Vec3)
        requires
            v3_in(self@, V3_NORM_CAP as int),
        ensures
            r@ == normalize_v(self@),
            v3_in(r@, V3_UNIT_CAP as int),
    {
        let n = self.norm();
        if n.0 == 0 {
            Vec3::zero()
        } else {
            let lim = Fx(V3_UNIT_CAP);
            Vec3 {
                x: self.x.div(n).clamp(Fx(-V3_UNIT_CAP), lim),
                y: self.y.div(n).clamp(Fx(-V3_UNIT_CAP), lim),
                z: self.z.div(n).clamp(Fx(-V3_UNIT_CAP), lim),
            }
        }
    }
}

} // verus!
