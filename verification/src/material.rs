//! Surface materials: a diffuse source plus Phong-style parameters.
//!
//! The diffuse source is either a solid color or an index into the scene's
//! texture registry. Reflectivity and transparency are fixed-point weights
//! in `[0, 1]`; the albedo pair and the refractive index are bounded but
//! otherwise free, exactly as the shading equation consumes them.

use vstd::prelude::*;

verus! {

use crate::color::{Color, ColS};
use crate::fx::{Fx, FX_ONE};

/// The diffuse source: a solid color, or a texture-registry index.
#[derive(Clone, Copy, Debug)]
pub enum Diffuse {
    Color(Color),
    Texture(usize),
}

/// The spec-level image of a diffuse source.
pub enum DiffS {
    Col(ColS),
    Tex(int),
}

impl View for Diffuse {
    type V = DiffS;

    open spec fn view(&self) -> DiffS {
        match *self {
            Diffuse::Color(c) => DiffS::Col(c@),
            Diffuse::Texture(i) => DiffS::Tex(i as int),
        }
    }
}

/// The spec-level image of a material.
pub struct MatS {
    pub diffuse: DiffS,
    pub specular: int,
    pub albedo_d: int,
    pub albedo_s: int,
    pub reflectivity: int,
    pub transparency: int,
    pub refractive_index: int,
}

/// The bounds every material in a scene obeys: weights in `[0, 1]`, the
/// albedo pair and the refractive index within a factor 16 of 1, and a
/// refractive index of at least one quarter wherever refraction will be
/// computed - the machine bound that keeps the inverted ratio `1 / index`
/// representable.
pub open spec fn mat_wf(m: MatS) -> bool {
    &&& 0 <= m.reflectivity <= FX_ONE as int
    &&& 0 <= m.transparency <= FX_ONE as int
    &&& 0 <= m.albedo_d <= 16 * (FX_ONE as int)
    &&& 0 <= m.albedo_s <= 16 * (FX_ONE as int)
    &&& 0 <= m.refractive_index <= 16 * (FX_ONE as int)
    &&& (m.transparency > 0 ==> 4 * m.refractive_index >= FX_ONE as int)
}

/// The surface color of a material without texture sampling: the solid
/// diffuse color, or black for a textured material (texture atlases are a
/// cube feature; no UV mapping is defined elsewhere).
pub open spec fn diffuse_flat_color(m: MatS) -> ColS {
    match m.diffuse {
        DiffS::Col(c) => c,
        DiffS::Tex(_) => ColS { r: 0, g: 0, b: 0 },
    }
}

/// The canonical black material carried by an empty intersection.
pub open spec fn black_mat() -> MatS {
    MatS {
        diffuse: DiffS::Col(ColS { r: 0, g: 0, b: 0 }),
        specular: 0,
        albedo_d: 0,
        albedo_s: 0,
        reflectivity: 0,
        transparency: 0,
        refractive_index: 0,
    }
}

/// A surface material, shared by value across primitives.
#[derive(Clone, Copy, Debug)]
pub struct Material {
    /// Where the surface color comes from.
    pub diffuse: Diffuse,
    /// The specular exponent.
    pub specular: u32,
    /// The diffuse and specular albedo weights.
    pub albedo: (Fx, Fx),
    /// How much of the final color comes from the reflected ray.
    pub reflectivity: Fx,
    /// How much of the refracted ray is added in.
    pub transparency: Fx,
    /// The material's refractive index.
    pub refractive_index: Fx,
}

impl View for Material {
    type V = MatS;

    open spec fn view(&self) -> MatS {
        MatS {
            diffuse: self.diffuse@,
            specular: self.specular as int,
            albedo_d: self.albedo.0@,
            albedo_s: self.albedo.1@,
            reflectivity: self.reflectivity@,
            transparency: self.transparency@,
            refractive_index: self.refractive_index@,
        }
    }
}

impl Material {
    pub fn new(
        diffuse: Diffuse,
        specular: u32,
        albedo: (Fx, Fx),
        reflectivity: Fx,
        transparency: Fx,
        refractive_index: Fx,
    ) -> (m: Material)
        requires
            mat_wf(
                MatS {
                    diffuse: diffuse@,
                    specular: specular as int,
                    albedo_d: albedo.0@,
                    albedo_s: albedo.1@,
                    reflectivity: reflectivity@,
                    transparency: transparency@,
                    refractive_index: refractive_index@,
                },
            ),
        ensures
            m@ == (MatS {
                diffuse: diffuse@,
                specular: specular as int,
                albedo_d: albedo.0@,
                albedo_s: albedo.1@,
                reflectivity: reflectivity@,
                transparency: transparency@,
                refractive_index: refractive_index@,
            }),
            mat_wf(m@),
    {
        Material { diffuse, specular, albedo, reflectivity, transparency, refractive_index }
    }

    /// The canonical black material: absorbs everything, reflects nothing.
    pub fn black() -> (m: Material)
        ensures
            m@ == black_mat(),
            mat_wf(m@),
    {
        Material {
            diffuse: Diffuse::Color(Color::black()),
            specular: 0,
            albedo: (Fx(0), Fx(0)),
            reflectivity: Fx(0),
            transparency: Fx(0),
            refractive_index: Fx(0),
        }
    }
}

} // verus!
