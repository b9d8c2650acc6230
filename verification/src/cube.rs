//! Axis-aligned cubes: slab intersection, face normals, UV mapping and
//! texture-atlas sampling.
//!
//! The slab method intersects the three per-axis parametric intervals. A
//! zero direction component makes the ray parallel to that slab: the slab
//! is missed outright when the origin lies outside it, and leaves the
//! interval unconstrained (open sentinel bounds) when inside - the integer
//! counterpart of the infinities the division would produce. The face the
//! hit lies on is found by comparing the point against the six face planes
//! within a small epsilon; the face picks the outward normal, the atlas
//! face and the UV projection.

use vstd::prelude::*;

verus! {

use crate::color::{Color, ColS};
use crate::fx::{
    Fx, FX_ONE, FX_ADD_CAP, fx_in, mul_fx, div_fx, qdiv, clamp_fx, iabs, lemma_mul_fx_bound,
};
use crate::intersect::{
    Intersect, IsectS, empty_isect, isect_wf, SCENE_CAP, ORIGIN_CAP, DIR_CAP, DIST_FAR, DIST_NONE,
    HOP_CAP,
};
use crate::material::{Material, MatS, Diffuse, mat_wf};
use crate::texture::{Texture, TexS, tex_wf, tex_color, tex_views};
use crate::vec3::{Vec3, V3i, v3_in, add_v, sub_v, scale_v};

/// How close (in scaled units) a point must lie to a face plane to count
/// as lying on it: about 1e-4.
pub const EPS_FX: i128 = 7;

/// Pixel side of one atlas face.
pub const FACE_SIZE: i128 = 16;

/// Number of atlas faces in a row.
pub const FACE_COLUMNS: i128 = 6;

/// The spec-level image of a cube.
pub struct CubeS {
    pub min: V3i,
    pub max: V3i,
    pub material: MatS,
}

/// The bounds a scene cube obeys: corners in range and strictly ordered.
/// (Strict order - rather than `min <= max` - keeps the UV projection's
/// divisors nonzero; a zero-thickness cube is excluded as a machine
/// bound.)
pub open spec fn cube_wf(c: CubeS) -> bool {
    &&& v3_in(c.min, SCENE_CAP as int)
    &&& v3_in(c.max, SCENE_CAP as int)
    &&& c.min.x < c.max.x
    &&& c.min.y < c.max.y
    &&& c.min.z < c.max.z
    &&& mat_wf(c.material)
}

/// One axis's parametric interval, or a miss for a parallel ray outside.
pub struct SlabS {
    pub lo: int,
    pub hi: int,
    pub miss: bool,
}

/// The entry/exit interval of one slab, entry not after exit.
pub open spec fn slab_s(mn: int, mx: int, o: int, d: int) -> SlabS {
    if d == 0 {
        if o < mn || o > mx {
            SlabS { lo: 0, hi: 0, miss: true }
        } else {
            SlabS { lo: -(DIST_NONE as int), hi: DIST_NONE as int, miss: false }
        }
    } else {
        let ta = div_fx(mn - o, d);
        let tb = div_fx(mx - o, d);
        if ta > tb {
            SlabS { lo: tb, hi: ta, miss: false }
        } else {
            SlabS { lo: ta, hi: tb, miss: false }
        }
    }
}

/// The tightened `[tmin, tmax]` over the three axes, `None` when empty.
pub open spec fn cube_interval(c: CubeS, o: V3i, d: V3i) -> Option<(int, int)> {
    let sx = slab_s(c.min.x, c.max.x, o.x, d.x);
    let sy = slab_s(c.min.y, c.max.y, o.y, d.y);
    let sz = slab_s(c.min.z, c.max.z, o.z, d.z);
    if sx.miss || sy.miss || sz.miss {
        None
    } else if sx.lo > sy.hi || sy.lo > sx.hi {
        None
    } else {
        let lo1 = if sy.lo > sx.lo { sy.lo } else { sx.lo };
        let hi1 = if sy.hi < sx.hi { sy.hi } else { sx.hi };
        if lo1 > sz.hi || sz.lo > hi1 {
            None
        } else {
            let lo2 = if sz.lo > lo1 { sz.lo } else { lo1 };
            let hi2 = if sz.hi < hi1 { sz.hi } else { hi1 };
            Some((lo2, hi2))
        }
    }
}

/// The outward normal at a hit point: the first of the six face planes the
/// point lies on within epsilon (x before y before z, min before max), or
/// zero if it lies on none.
pub open spec fn cube_normal(c: CubeS, p: V3i) -> V3i {
    if iabs(p.x - c.min.x) < EPS_FX as int {
        V3i { x: -(FX_ONE as int), y: 0, z: 0 }
    } else if iabs(p.x - c.max.x) < EPS_FX as int {
        V3i { x: FX_ONE as int, y: 0, z: 0 }
    } else if iabs(p.y - c.min.y) < EPS_FX as int {
        V3i { x: 0, y: -(FX_ONE as int), z: 0 }
    } else if iabs(p.y - c.max.y) < EPS_FX as int {
        V3i { x: 0, y: FX_ONE as int, z: 0 }
    } else if iabs(p.z - c.min.z) < EPS_FX as int {
        V3i { x: 0, y: 0, z: -(FX_ONE as int) }
    } else if iabs(p.z - c.max.z) < EPS_FX as int {
        V3i { x: 0, y: 0, z: FX_ONE as int }
    } else {
        V3i { x: 0, y: 0, z: 0 }
    }
}

/// The dominant axis of the normal is x.
pub open spec fn dom_x(n: V3i) -> bool {
    iabs(n.x) > iabs(n.y) && iabs(n.x) > iabs(n.z)
}

/// The dominant axis of the normal is y.
pub open spec fn dom_y(n: V3i) -> bool {
    !dom_x(n) && iabs(n.y) > iabs(n.x) && iabs(n.y) > iabs(n.z)
}

/// The atlas face for a normal: left/right 5/4, bottom/top 1/0, back/front
/// 2/3.
pub open spec fn face_index(n: V3i) -> int {
    if dom_x(n) {
        if n.x < 0 {
            5
        } else {
            4
        }
    } else if dom_y(n) {
        if n.y < 0 {
            1
        } else {
            0
        }
    } else {
        if n.z < 0 {
            2
        } else {
            3
        }
    }
}

/// The U texture coordinate of a hit point, in `[0, 1]`.
pub open spec fn cube_u(c: CubeS, p: V3i, n: V3i) -> int {
    if dom_x(n) {
        clamp_fx(div_fx(p.z - c.min.z, c.max.z - c.min.z), 0, FX_ONE as int)
    } else {
        clamp_fx(div_fx(p.x - c.min.x, c.max.x - c.min.x), 0, FX_ONE as int)
    }
}

/// The V texture coordinate of a hit point, in `[0, 1]`.
pub open spec fn cube_v(c: CubeS, p: V3i, n: V3i) -> int {
    if dom_y(n) {
        clamp_fx(div_fx(p.z - c.min.z, c.max.z - c.min.z), 0, FX_ONE as int)
    } else {
        clamp_fx(
            (FX_ONE as int) - div_fx(p.y - c.min.y, c.max.y - c.min.y),
            0,
            FX_ONE as int,
        )
    }
}

/// The texture at an index, or an empty image for a dangling index.
pub open spec fn tex_at(ts: Seq<TexS>, i: int) -> TexS {
    if 0 <= i < ts.len() {
        ts[i]
    } else {
        TexS { width: 0, height: 0, pixels: Seq::empty() }
    }
}

/// Every texture of a registry is well-formed.
pub open spec fn texs_wf(ts: Seq<TexS>) -> bool {
    forall|i: int| 0 <= i < ts.len() ==> tex_wf(#[trigger] ts[i])
}

/// The atlas pixel sampled for `(u, v)` on a face: the face's 16-pixel
/// column band, clamped to the atlas, looked up in the registry.
pub open spec fn atlas_color(ts: Seq<TexS>, idx: int, u: int, v: int, face: int) -> ColS {
    let x = clamp_fx(
        qdiv(mul_fx(u, FACE_SIZE * FX_ONE) + face * FACE_SIZE * FX_ONE, FX_ONE as int),
        0,
        FACE_SIZE * FACE_COLUMNS - 1,
    );
    let y = clamp_fx(qdiv(mul_fx(v, FACE_SIZE * FX_ONE), FX_ONE as int), 0, FACE_SIZE - 1);
    tex_color(tex_at(ts, idx), x, y)
}

/// The surface color at a hit: solid color, or the sampled atlas pixel.
pub open spec fn cube_color(c: CubeS, ts: Seq<TexS>, p: V3i, n: V3i) -> ColS {
    match c.material.diffuse {
        crate::material::DiffS::Col(cc) => cc,
        crate::material::DiffS::Tex(i) => atlas_color(
            ts,
            i,
            cube_u(c, p, n),
            cube_v(c, p, n),
            face_index(n),
        ),
    }
}

/// The record a cube answers for a ray: the exact mirror of the test.
#[verifier::opaque]
pub open spec fn cube_cast(c: CubeS, ts: Seq<TexS>, o: V3i, d: V3i) -> IsectS {
    match cube_interval(c, o, d) {
        None => empty_isect(),
        Some((tmin, _)) => {
            if tmin > 0 && tmin <= DIST_FAR as int {
                let point = add_v(o, scale_v(d, tmin));
                let normal = cube_normal(c, point);
                IsectS {
                    point,
                    normal,
                    distance: tmin,
                    hit: true,
                    material: c.material,
                    color: cube_color(c, ts, point, normal),
                }
            } else {
                empty_isect()
            }
        },
    }
}

/// An axis-aligned cube with its material.
#[derive(Clone, Copy, Debug)]
pub struct Cube {
    /// The corner with the smaller coordinates.
    pub min: Vec3,
    /// The corner with the larger coordinates.
    pub max: Vec3,
    pub material: Material,
}

impl View for Cube {
    type V = CubeS;

    open spec fn view(&self) -> CubeS {
        CubeS { min: self.min@, max: self.max@, material: self.material@ }
    }
}

/// One axis's slab interval; mirrors `slab_s`.
fn slab_e(mn: Fx, mx: Fx, o: Fx, d: Fx) -> (r: (Fx, Fx, bool))
    requires
        fx_in(mn@, SCENE_CAP as int),
        fx_in(mx@, SCENE_CAP as int),
        fx_in(o@, ORIGIN_CAP as int),
        fx_in(d@, DIR_CAP as int),
    ensures
        r.0@ == slab_s(mn@, mx@, o@, d@).lo,
        r.1@ == slab_s(mn@, mx@, o@, d@).hi,
        r.2 == slab_s(mn@, mx@, o@, d@).miss,
{
    if d.0 == 0 {
        if o.0 < mn.0 || o.0 > mx.0 {
            (Fx(0), Fx(0), true)
        } else {
            (Fx(-DIST_NONE), Fx(DIST_NONE), false)
        }
    } else {
        let ta = mn.sub(o).div(d);
        let tb = mx.sub(o).div(d);
        if ta.0 > tb.0 {
            (tb, ta, false)
        } else {
            (ta, tb, false)
        }
    }
}

impl Cube {
    pub fn new(min: Vec3, max: Vec3, material: Material) -> (c: Cube)
        ensures
            c@ == (CubeS { min: min@, max: max@, material: material@ }),
    {
        Cube { min, max, material }
    }

    /// The atlas face index for a normal; mirrors `face_index`.
    fn get_face_index(&self, normal: Vec3) -> (f: usize)
        requires
            v3_in(normal@, FX_ADD_CAP as int),
        ensures
            f as int == face_index(normal@),
            f < 6,
    {
        let ax = normal.x.abs();
        let ay = normal.y.abs();
        let az = normal.z.abs();
        if ax.0 > ay.0 && ax.0 > az.0 {
            if normal.x.0 < 0 {
                5
            } else {
                4
            }
        } else if ay.0 > ax.0 && ay.0 > az.0 {
            if normal.y.0 < 0 {
                1
            } else {
                0
            }
        } else {
            if normal.z.0 < 0 {
                2
            } else {
                3
            }
        }
    }

    /// The outward normal at a point on the surface; mirrors `cube_normal`.
    fn calculate_normal(&self, point: Vec3) -> (n: Vec3)
        requires
            v3_in(self@.min, SCENE_CAP as int),
            v3_in(self@.max, SCENE_CAP as int),
            v3_in(point@, 2 * (ORIGIN_CAP as int)),
        ensures
            n@ == cube_normal(self@, point@),
    {
        let eps = Fx(EPS_FX);
        if point.x.sub(self.min.x).abs().0 < eps.0 {
            Vec3::new(Fx(-FX_ONE), Fx(0), Fx(0))
        } else if point.x.sub(self.max.x).abs().0 < eps.0 {
            Vec3::new(Fx(FX_ONE), Fx(0), Fx(0))
        } else if point.y.sub(self.min.y).abs().0 < eps.0 {
            Vec3::new(Fx(0), Fx(-FX_ONE), Fx(0))
        } else if point.y.sub(self.max.y).abs().0 < eps.0 {
            Vec3::new(Fx(0), Fx(FX_ONE), Fx(0))
        } else if point.z.sub(self.min.z).abs().0 < eps.0 {
            Vec3::new(Fx(0), Fx(0), Fx(-FX_ONE))
        } else if point.z.sub(self.max.z).abs().0 < eps.0 {
            Vec3::new(Fx(0), Fx(0), Fx(FX_ONE))
        } else {
            Vec3::zero()
        }
    }

    /// The UV coordinates of a point on a face; mirrors `cube_u`/`cube_v`.
    fn calculate_uv(&self, point: Vec3, normal: Vec3) -> (uv: (Fx, Fx))
        requires
            cube_wf(self@),
            v3_in(point@, 2 * (ORIGIN_CAP as int)),
            v3_in(normal@, FX_ADD_CAP as int),
        ensures
            uv.0@ == cube_u(self@, point@, normal@),
            uv.1@ == cube_v(self@, point@, normal@),
            0 <= uv.0@ <= FX_ONE as int,
            0 <= uv.1@ <= FX_ONE as int,
    {
        let zero = Fx(0);
        let one = Fx(FX_ONE);
        let ax = normal.x.abs();
        let ay = normal.y.abs();
        let az = normal.z.abs();
        let u = if ax.0 > ay.0 && ax.0 > az.0 {
            point.z.sub(self.min.z).div(self.max.z.sub(self.min.z)).clamp(zero, one)
        } else {
            point.x.sub(self.min.x).div(self.max.x.sub(self.min.x)).clamp(zero, one)
        };
        let v = if !(ax.0 > ay.0 && ax.0 > az.0) && ay.0 > ax.0 && ay.0 > az.0 {
            point.z.sub(self.min.z).div(self.max.z.sub(self.min.z)).clamp(zero, one)
        } else {
            one.sub(point.y.sub(self.min.y).div(self.max.y.sub(self.min.y))).clamp(zero, one)
        };
        (u, v)
    }

    /// One atlas sample for UV coordinates on a face; mirrors `atlas_color`.
    fn sample_texture(&self, textures: &Vec<Texture>, tex_idx: usize, u: Fx, v: Fx, face: usize)
        -> (c: Color)
        requires
            texs_wf(tex_views(textures@)),
            0 <= u@ <= FX_ONE as int,
            0 <= v@ <= FX_ONE as int,
            face < 6,
        ensures
            c@ == atlas_color(tex_views(textures@), tex_idx as int, u@, v@, face as int),
    {
        proof {
            lemma_mul_fx_bound(u@, FACE_SIZE * (FX_ONE as int), FX_ONE as int, FACE_SIZE * (
            FX_ONE as int));
            lemma_mul_fx_bound(v@, FACE_SIZE * (FX_ONE as int), FX_ONE as int, FACE_SIZE * (
            FX_ONE as int));
        }
        let xf = u.mul(Fx(FACE_SIZE * FX_ONE)).add(Fx((face as i128) * FACE_SIZE * FX_ONE));
        let yf = v.mul(Fx(FACE_SIZE * FX_ONE));
        let xi = xf.div_const(FX_ONE).clamp(Fx(0), Fx(FACE_SIZE * FACE_COLUMNS - 1));
        let yi = yf.div_const(FX_ONE).clamp(Fx(0), Fx(FACE_SIZE - 1));
        let x: usize = xi.0 as usize;
        let y: usize = yi.0 as usize;
        if tex_idx < textures.len() {
            let t = &textures[tex_idx];
            proof {
                assert(tex_views(textures@)[tex_idx as int] == t@);
            }
            t.get_color(x, y)
        } else {
            Color::new(255, 0, 255)
        }
    }

    /// The nearest intersection of a ray with this cube, if any, with the
    /// surface color resolved against the texture registry. A hit farther
    /// than the far plane `DIST_FAR` reports a miss: the fixed-point model
    /// has no infinities, so a finite horizon stands in for the unbounded
    /// range a float ray would have. For the normalized directions the
    /// caster passes, the hit point lands on a face plane within epsilon;
    /// a degenerate unnormalized direction can truncate the point off
    /// every face, in which case the normal is the zero vector.
    pub fn ray_intersect(&self, ray_origin: Vec3, ray_direction: Vec3, textures: &Vec<Texture>)
        -> (r: Intersect)
        requires
            cube_wf(self@),
            texs_wf(tex_views(textures@)),
            v3_in(ray_origin@, ORIGIN_CAP as int),
            v3_in(ray_direction@, DIR_CAP as int),
        ensures
            r@ == cube_cast(self@, tex_views(textures@), ray_origin@, ray_direction@),
            isect_wf(r@),
            r@.hit ==> v3_in(sub_v(r@.point, ray_origin@), HOP_CAP as int),
    {
        proof {
            reveal(cube_cast);
        }
        let sx = slab_e(self.min.x, self.max.x, ray_origin.x, ray_direction.x);
        let sy = slab_e(self.min.y, self.max.y, ray_origin.y, ray_direction.y);
        let sz = slab_e(self.min.z, self.max.z, ray_origin.z, ray_direction.z);
        if sx.2 || sy.2 || sz.2 {
            return Intersect::empty();
        }
        if sx.0.0 > sy.1.0 || sy.0.0 > sx.1.0 {
            return Intersect::empty();
        }
        let lo1 = sx.0.max(sy.0);
        let hi1 = sx.1.min(sy.1);
        if lo1.0 > sz.1.0 || sz.0.0 > hi1.0 {
            return Intersect::empty();
        }
        let tmin = lo1.max(sz.0);
        if tmin.0 > 0 && tmin.0 <= DIST_FAR {
            proof {
                lemma_mul_fx_bound(ray_direction@.x, tmin@, DIR_CAP as int, DIST_FAR as int);
                lemma_mul_fx_bound(ray_direction@.y, tmin@, DIR_CAP as int, DIST_FAR as int);
                lemma_mul_fx_bound(ray_direction@.z, tmin@, DIR_CAP as int, DIST_FAR as int);
            }
            let point = ray_origin.add(ray_direction.scale(tmin));
            let normal = self.calculate_normal(point);
            let color = match self.material.diffuse {
                Diffuse::Color(c) => c,
                Diffuse::Texture(i) => {
                    let uv = self.calculate_uv(point, normal);
                    let face = self.get_face_index(normal);
                    self.sample_texture(textures, i, uv.0, uv.1, face)
                },
            };
            Intersect::new(point, normal, tmin, self.material, color)
        } else {
            Intersect::empty()
        }
    }
}


/// A ray parallel to a slab and outside it misses the cube. With a ray
/// direction component exactly zero on some axis and the origin outside
/// that axis's slab, the intersection reports no hit, whatever the other
/// components do - the integer counterpart of the division-by-zero path of
/// the slab method.
pub proof fn lemma_parallel_slab_miss(c: CubeS, ts: Seq<TexS>, o: V3i, d: V3i)
    requires
        (d.x == 0 && (o.x < c.min.x || o.x > c.max.x)) || (d.y == 0 && (o.y < c.min.y || o.y
            > c.max.y)) || (d.z == 0 && (o.z < c.min.z || o.z > c.max.z)),
    ensures
        cube_cast(c, ts, o, d) == empty_isect(),
        !cube_cast(c, ts, o, d).hit,
{
    reveal(cube_cast);
}

} // verus!
