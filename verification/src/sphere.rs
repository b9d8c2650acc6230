//! Spheres and their ray-intersection test.
//!
//! The test solves the ray-sphere quadratic in its geometric form: project
//! the center onto the ray, reject when the center lies behind the origin
//! or the perpendicular distance exceeds the radius, then take the smaller
//! non-negative root. The whole computation is mirrored by `sphere_cast`,
//! so the contract pins every field of the answered record.

use vstd::prelude::*;

verus! {

use crate::color::Color;
use vstd::arithmetic::div_mod::lemma_div_multiples_vanish;
use vstd::arithmetic::div_mod::lemma_div_of0;
use crate::fx::{
    Fx, FX_ONE, mul_fx, div_fx, sqrt_fx, clamp_fx, is_sqrt, lemma_mul_fx_bound,
    lemma_mul_fx_axis, lemma_mul_fx_zero, lemma_sqrt_floor_unique,
};
use crate::intersect::{
    Intersect, IsectS, empty_isect, isect_wf, SCENE_CAP, ORIGIN_CAP, DIR_CAP, DIST_FAR, HOP_CAP,
};
use crate::material::{Material, MatS, Diffuse, mat_wf, diffuse_flat_color};
use crate::vec3::{
    Vec3, V3i, v3_in, add_v, sub_v, scale_v, dot_v, normalize_v, lemma_dot_bound,
};

/// The spec-level image of a sphere.
pub struct SphereS {
    pub center: V3i,
    pub radius: int,
    pub material: MatS,
}

/// The bounds a scene sphere obeys.
pub open spec fn sphere_wf(s: SphereS) -> bool {
    &&& v3_in(s.center, SCENE_CAP as int)
    &&& 0 <= s.radius <= SCENE_CAP as int
    &&& mat_wf(s.material)
}

/// The record a sphere answers for a ray: the exact mirror of the test.
#[verifier::opaque]
pub open spec fn sphere_cast(s: SphereS, o: V3i, d: V3i) -> IsectS {
    let l = sub_v(s.center, o);
    let tca = dot_v(d, l);
    if tca < 0 {
        empty_isect()
    } else {
        let d2 = dot_v(l, l) - mul_fx(tca, tca);
        let rr = mul_fx(s.radius, s.radius);
        if d2 > rr {
            empty_isect()
        } else {
            let thc = sqrt_fx(rr - d2);
            let t0 = tca - thc;
            let t1 = tca + thc;
            if t0 < 0 && t1 < 0 {
                empty_isect()
            } else {
                let t = if t0 < 0 {
                    t1
                } else {
                    t0
                };
                if t > DIST_FAR as int {
                    empty_isect()
                } else {
                    let point = add_v(o, scale_v(d, t));
                    IsectS {
                        point,
                        normal: normalize_v(sub_v(point, s.center)),
                        distance: t,
                        hit: true,
                        material: s.material,
                        color: diffuse_flat_color(s.material),
                    }
                }
            }
        }
    }
}

/// A sphere with its material.
#[derive(Clone, Copy, Debug)]
pub struct Sphere {
    pub center: Vec3,
    pub radius: Fx,
    pub material: Material,
}

impl View for Sphere {
    type V = SphereS;

    open spec fn view(&self) -> SphereS {
        SphereS { center: self.center@, radius: self.radius@, material: self.material@ }
    }
}

impl Sphere {
    pub fn new(center: Vec3, radius: Fx, material: Material) -> (s: Sphere)
        ensures
            s@ == (SphereS { center: center@, radius: radius@, material: material@ }),
    {
        Sphere { center, radius, material }
    }

    /// The nearest intersection of a ray with this sphere, if any. A hit
    /// farther than the far plane `DIST_FAR` reports a miss: the
    /// fixed-point model has no infinities, so a finite horizon stands in
    /// for the unbounded range a float ray would have.
    pub fn ray_intersect(&self, ray_origin: Vec3, ray_direction: Vec3) -> (r: Intersect)
        requires
            sphere_wf(self@),
            v3_in(ray_origin@, ORIGIN_CAP as int),
            v3_in(ray_direction@, DIR_CAP as int),
        ensures
            r@ == sphere_cast(self@, ray_origin@, ray_direction@),
            isect_wf(r@),
            r@.hit ==> v3_in(sub_v(r@.point, ray_origin@), HOP_CAP as int),
    {
        proof {
            reveal(sphere_cast);
        }
        let l = self.center.sub(ray_origin);
        proof {
            lemma_dot_bound(ray_direction@, l@, DIR_CAP as int, 2 * (ORIGIN_CAP as int));
        }
        let tca = ray_direction.dot(l);
        if tca.0 < 0 {
            return Intersect::empty();
        }
        proof {
            lemma_dot_bound(l@, l@, 2 * (ORIGIN_CAP as int), 2 * (ORIGIN_CAP as int));
            lemma_mul_fx_bound(tca@, tca@, 768 * (ORIGIN_CAP as int), 768 * (ORIGIN_CAP as int));
            lemma_mul_fx_bound(self@.radius, self@.radius, SCENE_CAP as int, SCENE_CAP as int);
        }
        let d2 = l.dot(l).sub(tca.mul(tca));
        let rr = self.radius.mul(self.radius);
        if d2.0 > rr.0 {
            return Intersect::empty();
        }
        let thc = rr.sub(d2).sqrt();
        let t0 = tca.sub(thc);
        let t1 = tca.add(thc);
        if t0.0 < 0 && t1.0 < 0 {
            return Intersect::empty();
        }
        let t = if t0.0 < 0 {
            t1
        } else {
            t0
        };
        if t.0 > DIST_FAR {
            return Intersect::empty();
        }
        proof {
            lemma_mul_fx_bound(ray_direction@.x, t@, DIR_CAP as int, DIST_FAR as int);
            lemma_mul_fx_bound(ray_direction@.y, t@, DIR_CAP as int, DIST_FAR as int);
            lemma_mul_fx_bound(ray_direction@.z, t@, DIR_CAP as int, DIST_FAR as int);
        }
        let point = ray_origin.add(ray_direction.scale(t));
        let normal = point.sub(self.center).normalize();
        let color = match self.material.diffuse {
            Diffuse::Color(c) => c,
            Diffuse::Texture(_) => Color::black(),
        };
        Intersect::new(point, normal, t, self.material, color)
    }
}


/// The head-on instance in general: a sphere of any whole radius `r`
/// inside the ray's reach, centered at the origin, met by the ray from
/// `(0, 0, 5)` toward `(0, 0, -1)`, is hit at distance exactly `5 - r`
/// with normal `(0, 0, 1)`. (A radius whose square is not representable
/// at scale 2^16 picks up a one-ulp truncation in the root, so the exact
/// law is stated on the whole radii, where every step is exact.)
pub proof fn lemma_sphere_head_on_hit(r: int, m: MatS)
    requires
        1 <= r <= 4,
    ensures
        ({
            let s = SphereS {
                center: V3i { x: 0, y: 0, z: 0 },
                radius: r * (FX_ONE as int),
                material: m,
            };
            let o = V3i { x: 0, y: 0, z: 5 * (FX_ONE as int) };
            let d = V3i { x: 0, y: 0, z: -(FX_ONE as int) };
            let h = sphere_cast(s, o, d);
            h.hit && h.distance == (5 - r) * (FX_ONE as int) && h.normal == (V3i {
                x: 0,
                y: 0,
                z: FX_ONE as int,
            })
        }),
{
    reveal(sphere_cast);
    let one = FX_ONE as int;
    let s = SphereS { center: V3i { x: 0, y: 0, z: 0 }, radius: r * one, material: m };
    let o = V3i { x: 0, y: 0, z: 5 * one };
    let d = V3i { x: 0, y: 0, z: -one };
    let l = sub_v(s.center, o);
    assert(l == (V3i { x: 0, y: 0, z: -5 * one }));
    assert(d.x * l.x + d.y * l.y + d.z * l.z == 21474836480) by (nonlinear_arith)
        requires
            d.x == 0,
            d.y == 0,
            d.z == -65536,
            l.x == 0,
            l.y == 0,
            l.z == -327680,
    ;
    assert(21474836480int / 65536int == 327680int);
    let tca = dot_v(d, l);
    assert(tca == 5 * one);
    assert(l.x * l.x + l.y * l.y + l.z * l.z == 107374182400) by (nonlinear_arith)
        requires
            l.x == 0,
            l.y == 0,
            l.z == -327680,
    ;
    assert(107374182400int / 65536int == 1638400int);
    assert(dot_v(l, l) == 25 * one);
    assert(327680int * 327680int == 107374182400int) by (nonlinear_arith);
    assert(mul_fx(tca, tca) == 25 * one);
    let d2 = dot_v(l, l) - mul_fx(tca, tca);
    assert(d2 == 0);
    // the squared radius is exact on whole radii
    assert((r * one) * (r * one) == one * (r * r * one)) by (nonlinear_arith);
    assert(r * r * one >= one) by (nonlinear_arith)
        requires
            1 <= r,
            one == 65536,
    ;
    lemma_div_multiples_vanish(r * r * one, one);
    assert((r * one) * (r * one) >= 0) by (nonlinear_arith);
    let rr = mul_fx(s.radius, s.radius);
    assert(rr == r * r * one);
    assert(!(d2 > rr));
    // the root of the exact square is exact
    assert(is_sqrt((r * r * one) * one, r * one)) by (nonlinear_arith)
        requires
            1 <= r <= 4,
            one == 65536,
    ;
    lemma_sqrt_floor_unique((r * r * one) * one, r * one);
    assert(sqrt_fx(rr - d2) == r * one);
    let t0 = tca - (r * one);
    assert(t0 == (5 - r) * one) by (nonlinear_arith)
        requires
            tca == 5 * one,
            t0 == tca - r * one,
    ;
    assert(t0 > 0);
    assert(t0 <= DIST_FAR as int);
    // the hit point lands exactly on the surface
    lemma_mul_fx_zero(t0);
    lemma_mul_fx_axis(d.z, t0);
    let point = add_v(o, scale_v(d, t0));
    assert(5 * one - (5 - r) * one == r * one) by (nonlinear_arith);
    assert(point == (V3i { x: 0, y: 0, z: r * one }));
    // and its normal normalizes to the exact axis unit
    let p = sub_v(point, s.center);
    assert(p == (V3i { x: 0, y: 0, z: r * one }));
    assert(p.x * p.x + p.y * p.y + p.z * p.z == one * (r * r * one)) by (nonlinear_arith)
        requires
            p.x == 0,
            p.y == 0,
            p.z == r * one,
            one == 65536,
    ;
    assert(one * (r * r * one) >= 0) by (nonlinear_arith)
        requires
            1 <= r,
            one == 65536,
    ;
    assert(dot_v(p, p) == r * r * one);
    assert(sqrt_fx(dot_v(p, p)) == r * one);
    assert(r * one != 0);
    lemma_div_of0(r * one);
    assert(0 * one == 0) by (nonlinear_arith);
    assert(div_fx(0, r * one) == 0);
    lemma_div_multiples_vanish(one, r * one);
    assert((r * one) * one >= 0) by (nonlinear_arith)
        requires
            1 <= r,
            one == 65536,
    ;
    assert(div_fx(r * one, r * one) == one);
    assert(normalize_v(p) == (V3i { x: 0, y: 0, z: one }));
}

} // verus!
