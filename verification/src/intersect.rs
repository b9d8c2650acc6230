//! Hit records, and the bounds every ray-cast input obeys.
//!
//! An empty record is a well-defined sentinel - no hit, a huge distance,
//! the canonical black material - used as the starting point when folding
//! over the scene's objects for the nearest hit.

use vstd::prelude::*;

verus! {

use crate::color::{Color, ColS};
use crate::fx::Fx;
use crate::material::{Material, MatS, black_mat, mat_wf};
use crate::vec3::{Vec3, V3i, v3_in, V3_UNIT_CAP};

/// Cap on scene coordinates: primitive corners, centers, radii, lights (2^33).
pub const SCENE_CAP: i128 = 8589934592;

/// Cap on ray origins, wide enough for every recursive bounce (2^50).
pub const ORIGIN_CAP: i128 = 1125899906842624;

/// Cap on ray direction components (2^23).
pub const DIR_CAP: i128 = 8388608;

/// The far plane: a hit farther than this counts as no hit (2^40).
pub const DIST_FAR: i128 = 1099511627776;

/// The sentinel distance of an empty record, beyond every accepted hit.
pub const DIST_NONE: i128 = 1152921504606846976;

/// How far a single accepted hop can move a ray origin (2^47): the largest
/// component of `direction * distance` under the direction and far caps.
pub const HOP_CAP: i128 = 140737488355328;

/// The spec-level image of a hit record.
pub struct IsectS {
    pub point: V3i,
    pub normal: V3i,
    pub distance: int,
    pub hit: bool,
    pub material: MatS,
    pub color: ColS,
}

/// The sentinel record used as the fold starting point.
pub open spec fn empty_isect() -> IsectS {
    IsectS {
        point: V3i { x: 0, y: 0, z: 0 },
        normal: V3i { x: 0, y: 0, z: 0 },
        distance: DIST_NONE as int,
        hit: false,
        material: black_mat(),
        color: ColS { r: 0, g: 0, b: 0 },
    }
}

/// What every record a primitive answers satisfies: a bounded normal, a
/// distance inside the far plane when it hits, and a well-formed material.
/// (How far the point can lie from the ray origin is stated separately,
/// beside each intersection test.)
pub open spec fn isect_wf(i: IsectS) -> bool {
    &&& v3_in(i.normal, V3_UNIT_CAP as int)
    &&& (i.hit ==> 0 <= i.distance <= DIST_FAR as int)
    &&& (!i.hit ==> i.distance == DIST_NONE as int)
    &&& mat_wf(i.material)
}

/// A transient hit record, fresh per ray-object test.
#[derive(Clone, Copy, Debug)]
pub struct Intersect {
    /// The hit location in world space.
    pub point: Vec3,
    /// The surface normal at the hit.
    pub normal: Vec3,
    /// The parametric distance along the ray.
    pub distance: Fx,
    /// Whether anything was hit at all.
    pub is_intersecting: bool,
    /// The material of the surface that was hit.
    pub material: Material,
    /// The resolved surface color, after texture sampling if any.
    pub color: Color,
}

impl View for Intersect {
    type V = IsectS;

    open spec fn view(&self) -> IsectS {
        IsectS {
            point: self.point@,
            normal: self.normal@,
            distance: self.distance@,
            hit: self.is_intersecting,
            material: self.material@,
            color: self.color@,
        }
    }
}

impl Intersect {
    /// A record for an actual hit.
    pub fn new(point: Vec3, normal: Vec3, distance: Fx, material: Material, color: Color) -> (r:
        Intersect)
        ensures
            r@ == (IsectS {
                point: point@,
                normal: normal@,
                distance: distance@,
                hit: true,
                material: material@,
                color: color@,
            }),
    {
        Intersect { point, normal, distance, is_intersecting: true, material, color }
    }

    /// The sentinel record: no hit, a huge distance, black everywhere.
    pub fn empty() -> (r: Intersect)
        ensures
            r@ == empty_isect(),
    {
        Intersect {
            point: Vec3::zero(),
            normal: Vec3::zero(),
            distance: Fx(DIST_NONE),
            is_intersecting: false,
            material: Material::black(),
            color: Color::black(),
        }
    }
}

} // verus!
