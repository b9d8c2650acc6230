//! The scene's geometric primitives, as one closed sum dispatched by match.

use vstd::prelude::*;

verus! {

use crate::cube::{Cube, CubeS, cube_wf, cube_cast, texs_wf};
use crate::intersect::{Intersect, IsectS, isect_wf, ORIGIN_CAP, DIR_CAP, HOP_CAP};
use crate::sphere::{Sphere, SphereS, sphere_wf, sphere_cast};
use crate::texture::{Texture, TexS, tex_views};
use crate::vec3::{Vec3, V3i, v3_in, sub_v};

/// A scene primitive: a sphere or an axis-aligned cube.
#[derive(Clone, Copy, Debug)]
pub enum Object {
    Sphere(Sphere),
    Cube(Cube),
}

/// The spec-level image of a primitive.
pub enum ObjectS {
    Sphere(SphereS),
    Cube(CubeS),
}

impl View for Object {
    type V = ObjectS;

    open spec fn view(&self) -> ObjectS {
        match *self {
            Object::Sphere(s) => ObjectS::Sphere(s@),
            Object::Cube(c) => ObjectS::Cube(c@),
        }
    }
}

/// The bounds a scene primitive obeys.
pub open spec fn object_wf(o: ObjectS) -> bool {
    match o {
        ObjectS::Sphere(s) => sphere_wf(s),
        ObjectS::Cube(c) => cube_wf(c),
    }
}

/// The record a primitive answers for a ray.
pub open spec fn object_cast(o: ObjectS, ts: Seq<TexS>, origin: V3i, dir: V3i) -> IsectS {
    match o {
        ObjectS::Sphere(s) => sphere_cast(s, origin, dir),
        ObjectS::Cube(c) => cube_cast(c, ts, origin, dir),
    }
}

/// The spec-level images of a scene's primitive list.
pub open spec fn obj_views(s: Seq<Object>) -> Seq<ObjectS> {
    s.map_values(|o: Object| o@)
}

/// Every primitive of a scene is well-formed.
pub open spec fn objects_wf(s: Seq<ObjectS>) -> bool {
    forall|i: int| 0 <= i < s.len() ==> object_wf(#[trigger] s[i])
}

impl Object {
    /// The nearest intersection of a ray with this primitive, if any.
    pub fn ray_intersect(&self, ray_origin: Vec3, ray_direction: Vec3, textures: &Vec<Texture>)
        -> (r: Intersect)
        requires
            object_wf(self@),
            texs_wf(tex_views(textures@)),
            v3_in(ray_origin@, ORIGIN_CAP as int),
            v3_in(ray_direction@, DIR_CAP as int),
        ensures
            r@ == object_cast(self@, tex_views(textures@), ray_origin@, ray_direction@),
            isect_wf(r@),
            r@.hit ==> v3_in(sub_v(r@.point, ray_origin@), HOP_CAP as int),
    {
        match self {
            Object::Sphere(s) => s.ray_intersect(ray_origin, ray_direction),
            Object::Cube(c) => c.ray_intersect(ray_origin, ray_direction, textures),
        }
    }
}

} // verus!
