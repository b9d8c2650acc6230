//! The ray caster and the renderer: nearest-hit search, Phong-style
//! shading with soft shadows, recursive reflection and refraction, and the
//! per-pixel loop that turns the framebuffer grid into world rays.
//!
//! Every step is mirrored by a spec function over the integer model, so
//! the color of each pixel is pinned exactly. Recursion carries an
//! explicit depth and stops past the fixed maximum with a fixed deep
//! background color, so a hall of mirrors terminates. Reflected and
//! refracted rays are renormalized before they recurse, which keeps every
//! ray direction within one fixed bound.

use vstd::prelude::*;

verus! {

use crate::camera::{Camera, CameraS, camera_wf, change_basis_v, EYE_CAP};
use crate::color::{Color, ColS, add_col, scale_col, hex_of};
use crate::fx::{
    Fx, FX_ONE, FX_MUL_CAP, fx_in, mul_fx, div_fx, clamp_fx, sqrt_fx, iabs,
    lemma_mul_fx_bound, lemma_mul_fx_nonneg, lemma_mul_fx_unit,
    lemma_div_fx_bound, lemma_div_fx_ratio, lemma_div_fx_unit, lemma_sqrt_floor_props,
    lemma_mul_fx_one, lemma_mul_fx_axis, lemma_mul_fx_zero, lemma_qdiv_le,
    lemma_sqrt_floor_unique, is_sqrt,
};
use crate::intersect::{
    Intersect, IsectS, empty_isect, isect_wf, SCENE_CAP, ORIGIN_CAP, DIR_CAP, DIST_FAR, HOP_CAP,
};
use crate::framebuffer::Framebuffer;
use crate::light::{
    Light, LightS, AmbientLight, AmbientS, DayLight, day_wf, light_views, lights_wf, light_wf,
    ambient_wf, light_position, light_color, light_intensity, lerp3, lerp_ch_e,
};
use crate::object::{Object, ObjectS, obj_views, objects_wf, object_cast};
use crate::texture::{Texture, TexS, tex_views};
use crate::cube::texs_wf;
use crate::trig::FX_TWO_PI;
use crate::vec3::{
    Vec3, V3i, v3_in, add_v, sub_v, neg_v, scale_v, dot_v, norm_v, normalize_v, lemma_dot_bound,
    lemma_scale_bound, V3_UNIT_CAP,
};

/// The depth past which recursion stops with the deep background color.
pub const REFLECTION_DEPTH: u32 = 3;

/// The bias (about 1e-4) that lifts secondary-ray origins off a surface.
pub const ORIGIN_BIAS: i128 = 7;

/// How much one bounce can widen the origin bound: one hop plus the
/// surface bias, with room to spare.
pub const DIST_STEP: i128 = HOP_CAP + FX_ONE;

/// The widest point a shaded hit can reach, leaving room for the bias.
pub const SHADE_CAP: i128 = ORIGIN_CAP - FX_ONE;

/// Cap on a reflected or refracted direction before renormalizing (2^29).
pub const BOUNCE_CAP: i128 = 536870912;

/// `tan(fov / 2)` for the fixed field of view of pi / 3.
pub const PERSPECTIVE_SCALE: i128 = 37837;

/// The largest framebuffer side the renderer accepts.
pub const MAX_DIM: usize = 4096;

/// Where the sky turns fully dark, for the caster's background blend.
pub const SKY_NIGHT_START: i128 = 268330;

/// Midday and sunset angles shared with the day-cycle light.
pub const SKY_DAY_MID: i128 = 68629;

/// The sunset angle for the caster's background blend.
pub const SKY_DAY_END: i128 = 137258;

/// The fixed color returned beyond the recursion depth.
pub open spec fn deep_bg() -> ColS {
    ColS { r: 25, g: 25, b: 120 }
}

/// How far a ray origin may lie at a recursion depth: the camera eye's
/// own bound, widened one step per bounce.
pub open spec fn origin_cap_at(depth: int) -> int {
    (EYE_CAP as int) + depth * (DIST_STEP as int)
}

/// The sky behind a missed ray, keyed on the time-of-day angle: dark night
/// to orange to day blue across the morning, flat at midday, back down
/// through dusk into the night, in two sub-blends per transition.
pub open spec fn sky_color(a: int) -> ColS {
    let night = ColS { r: 0, g: 0, b: 50 };
    let orange = ColS { r: 220, g: 162, b: 30 };
    let day = ColS { r: 135, g: 206, b: 250 };
    if 0 <= a && a < SKY_DAY_MID as int {
        let ratio = div_fx(a, SKY_DAY_MID as int);
        if ratio < 32768 {
            lerp3(night, orange, 2 * ratio)
        } else {
            lerp3(orange, day, 2 * (ratio - 32768))
        }
    } else if SKY_DAY_MID as int <= a && a < SKY_DAY_END as int {
        day
    } else if SKY_DAY_END as int <= a && a < SKY_NIGHT_START as int {
        let ratio = div_fx(a - SKY_DAY_END as int, (SKY_NIGHT_START - SKY_DAY_END) as int);
        if ratio < 32768 {
            lerp3(day, orange, 2 * ratio)
        } else {
            lerp3(orange, night, 2 * (ratio - 32768))
        }
    } else {
        night
    }
}

/// The reflection of `incident` about `normal`:
/// `incident - 2 (incident . normal) normal`.
pub open spec fn reflect_v(incident: V3i, normal: V3i) -> V3i {
    sub_v(incident, scale_v(normal, 2 * dot_v(incident, normal)))
}

/// The refracted direction for a ratio `eta` and an oriented normal, once
/// the entering/exiting case is settled: Snell's law, falling back to the
/// reflection on total internal reflection (`k < 0`).
pub open spec fn refract_core(incident: V3i, nn: V3i, eta: int, n_cosi: int) -> V3i {
    let k = (FX_ONE as int) - mul_fx(
        mul_fx(eta, eta),
        (FX_ONE as int) - mul_fx(n_cosi, n_cosi),
    );
    if k < 0 {
        reflect_v(incident, nn)
    } else {
        add_v(scale_v(incident, eta), scale_v(nn, mul_fx(eta, n_cosi) - sqrt_fx(k)))
    }
}

/// The refracted direction through a surface of refractive index `eta_t`:
/// a negative incidence cosine means the ray is entering (flip the normal
/// and invert the ratio), otherwise it exits into a medium of index one.
pub open spec fn refract_v(incident: V3i, normal: V3i, eta_t: int) -> V3i {
    let cosi = clamp_fx(-dot_v(incident, normal), -(FX_ONE as int), FX_ONE as int);
    if cosi < 0 {
        refract_core(incident, neg_v(normal), div_fx(FX_ONE as int, eta_t), -cosi)
    } else {
        refract_core(incident, normal, eta_t, cosi)
    }
}

/// A secondary-ray origin lifted off the surface: along the normal, away
/// from it when the new ray goes against the normal.
pub open spec fn offset_origin_v(i: IsectS, direction: V3i) -> V3i {
    let off = scale_v(i.normal, ORIGIN_BIAS as int);
    if dot_v(direction, i.normal) < 0 {
        sub_v(i.point, off)
    } else {
        add_v(i.point, off)
    }
}

/// An integer power of a scaled value in `[0, 1]`.
pub open spec fn pow_fx(b: int, e: nat) -> int
    decreases e,
{
    if e == 0 {
        FX_ONE as int
    } else {
        mul_fx(b, pow_fx(b, (e - 1) as nat))
    }
}

/// The shadow factor from the first occluder, in scan order, along the
/// shadow ray starting at index `i`: the nearer the occluder, the deeper
/// the shadow, always within `[0, 1]`. A light at distance zero shades
/// fully.
pub open spec fn shadow_from(
    objs: Seq<ObjectS>,
    ts: Seq<TexS>,
    so: V3i,
    ldir: V3i,
    ldist: int,
    i: int,
) -> int
    decreases objs.len() - i,
{
    if i < 0 || i >= objs.len() {
        0
    } else {
        let h = object_cast(objs[i], ts, so, ldir);
        if h.hit {
            if ldist == 0 {
                FX_ONE as int
            } else {
                clamp_fx(div_fx(h.distance, ldist), 0, FX_ONE as int)
            }
        } else {
            shadow_from(objs, ts, so, ldir, ldist, i + 1)
        }
    }
}

/// The shadow factor a light sees at a hit: a ray from just above the
/// surface toward the light, tested against every object in scan order.
pub open spec fn cast_shadow_s(i: IsectS, light: LightS, objs: Seq<ObjectS>, ts: Seq<TexS>) -> int {
    let ldir = normalize_v(sub_v(light_position(light), i.point));
    let so = add_v(i.point, scale_v(i.normal, ORIGIN_BIAS as int));
    let ldist = norm_v(sub_v(light_position(light), so));
    shadow_from(objs, ts, so, ldir, ldist, 0)
}

/// The nearest hit among the first `n` objects: the record with the
/// smallest distance, the sentinel when none hits.
pub open spec fn nearest_upto(objs: Seq<ObjectS>, ts: Seq<TexS>, o: V3i, d: V3i, n: int) -> IsectS
    decreases n,
{
    if n <= 0 {
        empty_isect()
    } else {
        let prev = nearest_upto(objs, ts, o, d, n - 1);
        let cur = object_cast(objs[n - 1], ts, o, d);
        if cur.hit && cur.distance < prev.distance {
            cur
        } else {
            prev
        }
    }
}

/// One light's contribution folded onto the running color: diffuse by the
/// surface color and the normal-light angle, specular by the light color
/// and the view-reflection angle, both faded by the shadow factor.
pub open spec fn shade_one(
    objs: Seq<ObjectS>,
    ts: Seq<TexS>,
    light: LightS,
    i: IsectS,
    o: V3i,
    acc: ColS,
) -> ColS {
    let light_dir = normalize_v(sub_v(light_position(light), i.point));
    let view_dir = normalize_v(sub_v(o, i.point));
    let reflect_dir = reflect_v(neg_v(light_dir), i.normal);
    let shadow = cast_shadow_s(i, light, objs, ts);
    let light_int = mul_fx(light_intensity(light), (FX_ONE as int) - shadow);
    let diff_int = clamp_fx(dot_v(i.normal, light_dir), 0, FX_ONE as int);
    let diffuse = scale_col(
        scale_col(scale_col(i.color, i.material.albedo_d), diff_int),
        light_int,
    );
    let spec_base = clamp_fx(dot_v(view_dir, reflect_dir), 0, FX_ONE as int);
    let spec_int = pow_fx(spec_base, i.material.specular as nat);
    let specular = scale_col(
        scale_col(scale_col(light_color(light), i.material.albedo_s), spec_int),
        light_int,
    );
    add_col(add_col(acc, diffuse), specular)
}

/// Every light's contribution from index `i` on, folded left to right.
pub open spec fn shade_from(
    objs: Seq<ObjectS>,
    ts: Seq<TexS>,
    lights: Seq<LightS>,
    isect: IsectS,
    o: V3i,
    acc: ColS,
    i: int,
) -> ColS
    decreases lights.len() - i,
{
    if i < 0 || i >= lights.len() {
        acc
    } else {
        shade_from(objs, ts, lights, isect, o, shade_one(objs, ts, lights[i], isect, o, acc), i + 1)
    }
}

/// The color a ray comes back with: past the depth limit the fixed deep
/// background; on a miss the day sky; on a hit the ambient base plus every
/// light's contribution, blended with the recursively traced reflection
/// and refraction.
pub open spec fn cast_ray_s(
    objs: Seq<ObjectS>,
    lights: Seq<LightS>,
    day_angle: int,
    ambient: AmbientS,
    ts: Seq<TexS>,
    o: V3i,
    d: V3i,
    depth: int,
) -> ColS
    decreases (REFLECTION_DEPTH + 1) - depth,
{
    if depth > REFLECTION_DEPTH as int {
        deep_bg()
    } else {
        let isect = nearest_upto(objs, ts, o, d, objs.len() as int);
        if !isect.hit {
            sky_color(day_angle)
        } else {
            let shaded = shade_from(
                objs,
                ts,
                lights,
                isect,
                o,
                scale_col(isect.color, ambient.intensity),
                0,
            );
            let reflectivity = isect.material.reflectivity;
            let reflect_color = if reflectivity > 0 {
                let rd = normalize_v(reflect_v(neg_v(d), isect.normal));
                cast_ray_s(objs, lights, day_angle, ambient, ts, isect.point, rd, depth + 1)
            } else {
                ColS { r: 0, g: 0, b: 0 }
            };
            let transparency = isect.material.transparency;
            let refract_color = if transparency > 0 {
                let rd = normalize_v(refract_v(d, isect.normal, isect.material.refractive_index));
                let ro = offset_origin_v(isect, rd);
                cast_ray_s(objs, lights, day_angle, ambient, ts, ro, rd, depth + 1)
            } else {
                ColS { r: 0, g: 0, b: 0 }
            };
            add_col(
                add_col(
                    scale_col(shaded, (FX_ONE as int) - reflectivity),
                    scale_col(reflect_color, reflectivity),
                ),
                scale_col(refract_color, transparency),
            )
        }
    }
}

/// The sky behind a missed ray; mirrors `sky_color`.
pub fn calculate_background_color(day_angle: Fx) -> (c: Color)
    requires
        0 <= day_angle@ < FX_TWO_PI as int,
    ensures
        c@ == sky_color(day_angle@),
{
    let night: (u8, u8, u8) = (0, 0, 50);
    let orange: (u8, u8, u8) = (220, 162, 30);
    let day: (u8, u8, u8) = (135, 206, 250);
    if day_angle.0 < SKY_DAY_MID {
        proof {
            lemma_div_fx_unit(day_angle@, SKY_DAY_MID as int);
        }
        let ratio = day_angle.div(Fx(SKY_DAY_MID));
        if ratio.0 < 32768 {
            lerp3_e(night, orange, Fx(2 * ratio.0))
        } else {
            lerp3_e(orange, day, Fx(2 * (ratio.0 - 32768)))
        }
    } else if day_angle.0 < SKY_DAY_END {
        Color::new(135, 206, 250)
    } else if day_angle.0 < SKY_NIGHT_START {
        proof {
            lemma_div_fx_unit(day_angle@ - SKY_DAY_END as int, (SKY_NIGHT_START - SKY_DAY_END) as int);
        }
        let ratio = day_angle.sub(Fx(SKY_DAY_END)).div(Fx(SKY_NIGHT_START - SKY_DAY_END));
        if ratio.0 < 32768 {
            lerp3_e(day, orange, Fx(2 * ratio.0))
        } else {
            lerp3_e(orange, night, Fx(2 * (ratio.0 - 32768)))
        }
    } else {
        Color::new(0, 0, 50)
    }
}

/// One interpolated color between two anchors; mirrors `lerp3`.
fn lerp3_e(start: (u8, u8, u8), end: (u8, u8, u8), ratio: Fx) -> (c: Color)
    requires
        0 <= ratio@ <= FX_ONE as int,
    ensures
        c@ == lerp3(
            ColS { r: start.0 as int, g: start.1 as int, b: start.2 as int },
            ColS { r: end.0 as int, g: end.1 as int, b: end.2 as int },
            ratio@,
        ),
{
    Color::new(
        lerp_ch_e(start.0, end.0, ratio),
        lerp_ch_e(start.1, end.1, ratio),
        lerp_ch_e(start.2, end.2, ratio),
    )
}

/// The reflection of a direction about a normal; mirrors `reflect_v`.
pub fn reflect(incident: Vec3, normal: Vec3) -> (r: Vec3)
    requires
        v3_in(incident@, DIR_CAP as int),
        v3_in(normal@, V3_UNIT_CAP as int),
    ensures
        r@ == reflect_v(incident@, normal@),
        v3_in(r@, BOUNCE_CAP as int),
{
    proof {
        lemma_dot_bound(incident@, normal@, DIR_CAP as int, V3_UNIT_CAP as int);
        lemma_scale_bound(
            normal@,
            2 * dot_v(incident@, normal@),
            V3_UNIT_CAP as int,
            100663296,
        );
    }
    let d = incident.dot(normal);
    incident.sub(normal.scale(d.add(d)))
}

/// The refracted direction through a surface; mirrors `refract_v`.
pub fn refract(incident: Vec3, normal: Vec3, eta_t: Fx) -> (r: Vec3)
    requires
        v3_in(incident@, DIR_CAP as int),
        v3_in(normal@, V3_UNIT_CAP as int),
        16384 <= eta_t@ <= 16 * (FX_ONE as int),
    ensures
        r@ == refract_v(incident@, normal@, eta_t@),
        v3_in(r@, BOUNCE_CAP as int),
{
    proof {
        lemma_dot_bound(incident@, normal@, DIR_CAP as int, V3_UNIT_CAP as int);
    }
    let cosi = incident.dot(normal).neg().clamp(Fx(-FX_ONE), Fx(FX_ONE));
    if cosi.0 < 0 {
        proof {
            vstd::arithmetic::div_mod::lemma_div_is_ordered_by_denominator(
                65536int * 65536int,
                16384int,
                eta_t@,
            );
            lemma_div_fx_bound(FX_ONE as int, eta_t@, FX_ONE as int);
            vstd::arithmetic::div_mod::lemma_div_pos_is_pos(65536int * 65536int, eta_t@);
        }
        let eta = Fx(FX_ONE).div(eta_t);
        refract_with(incident, normal.neg(), eta, cosi.neg())
    } else {
        refract_with(incident, normal, eta_t, cosi)
    }
}

/// Snell's law once the orientation is settled; mirrors `refract_core`.
fn refract_with(incident: Vec3, nn: Vec3, eta: Fx, n_cosi: Fx) -> (r: Vec3)
    requires
        v3_in(incident@, DIR_CAP as int),
        v3_in(nn@, V3_UNIT_CAP as int),
        0 <= eta@ <= 1048576,
        0 <= n_cosi@ <= FX_ONE as int,
    ensures
        r@ == refract_core(incident@, nn@, eta@, n_cosi@),
        v3_in(r@, BOUNCE_CAP as int),
{
    proof {
        lemma_mul_fx_bound(eta@, eta@, 1048576, 1048576);
        lemma_mul_fx_nonneg(eta@, eta@);
        lemma_mul_fx_unit(n_cosi@, n_cosi@);
    }
    let eta2 = eta.mul(eta);
    let sin2 = Fx(FX_ONE).sub(n_cosi.mul(n_cosi));
    proof {
        lemma_mul_fx_bound(eta2@, sin2@, 16777216, FX_ONE as int);
        lemma_mul_fx_nonneg(eta2@, sin2@);
    }
    let k = Fx(FX_ONE).sub(eta2.mul(sin2));
    if k.0 < 0 {
        reflect(incident, nn)
    } else {
        let thc = k.sqrt();
        proof {
            lemma_sqrt_floor_props(k@ * (FX_ONE as int));
            assert(thc@ <= 262144) by (nonlinear_arith)
                requires
                    0 <= thc@,
                    thc@ * thc@ <= k@ * 65536,
                    k@ <= 65536,
            ;
            lemma_mul_fx_bound(eta@, n_cosi@, 1048576, FX_ONE as int);
            lemma_scale_bound(incident@, eta@, DIR_CAP as int, 1048576);
            lemma_scale_bound(
                nn@,
                mul_fx(eta@, n_cosi@) - sqrt_fx(k@),
                V3_UNIT_CAP as int,
                2097152,
            );
        }
        let coef = eta.mul(n_cosi).sub(thc);
        incident.scale(eta).add(nn.scale(coef))
    }
}

/// A secondary-ray origin lifted off the surface; mirrors
/// `offset_origin_v`.
fn offset_origin(isect: &Intersect, direction: Vec3) -> (r: Vec3)
    requires
        isect_wf(isect@),
        v3_in(isect@.point, SHADE_CAP as int),
        v3_in(direction@, BOUNCE_CAP as int),
    ensures
        r@ == offset_origin_v(isect@, direction@),
        v3_in(r@, ORIGIN_CAP as int),
{
    proof {
        lemma_scale_bound(isect@.normal, ORIGIN_BIAS as int, V3_UNIT_CAP as int, ORIGIN_BIAS as int);
        lemma_dot_bound(direction@, isect@.normal, BOUNCE_CAP as int, V3_UNIT_CAP as int);
    }
    let off = isect.normal.scale(Fx(ORIGIN_BIAS));
    if direction.dot(isect.normal).0 < 0 {
        isect.point.sub(off)
    } else {
        isect.point.add(off)
    }
}

/// An integer power of a scaled value in `[0, 1]`; mirrors `pow_fx`.
fn pow_unit(b: Fx, e: u32) -> (r: Fx)
    requires
        0 <= b@ <= FX_ONE as int,
    ensures
        r@ == pow_fx(b@, e as nat),
        0 <= r@ <= FX_ONE as int,
{
    let mut acc = Fx(FX_ONE);
    let mut i: u32 = 0;
    while i < e
        invariant
            0 <= b@ <= FX_ONE as int,
            i <= e,
            acc@ == pow_fx(b@, i as nat),
            0 <= acc@ <= FX_ONE as int,
        decreases e - i,
    {
        proof {
            lemma_mul_fx_unit(b@, acc@);
        }
        acc = b.mul(acc);
        i = i + 1;
    }
    acc
}

/// The shadow factor a light sees at a hit; mirrors `cast_shadow_s`. The
/// factor always lies in `[0, 1]`, whatever the occluders. An occluder
/// ratio below the scale's grain (one part in 2^16) truncates to exactly
/// zero.
#[verifier::rlimit(50)]
pub fn cast_shadow(
    intersect: &Intersect,
    light: &Light,
    objects: &Vec<Object>,
    textures: &Vec<Texture>,
) -> (s: Fx)
    requires
        objects_wf(obj_views(objects@)),
        texs_wf(tex_views(textures@)),
        light_wf(light@),
        isect_wf(intersect@),
        v3_in(intersect@.point, SHADE_CAP as int),
    ensures
        s@ == cast_shadow_s(intersect@, light@, obj_views(objects@), tex_views(textures@)),
        0 <= s@ <= FX_ONE as int,
{
    let ghost ovs = obj_views(objects@);
    let ghost tvs = tex_views(textures@);
    let lpos = light.get_position();
    let light_dir = lpos.sub(intersect.point).normalize();
    proof {
        lemma_scale_bound(
            intersect@.normal,
            ORIGIN_BIAS as int,
            V3_UNIT_CAP as int,
            ORIGIN_BIAS as int,
        );
    }
    let shadow_origin = intersect.point.add(intersect.normal.scale(Fx(ORIGIN_BIAS)));
    let light_distance = lpos.sub(shadow_origin).norm();
    proof {
        assert(cast_shadow_s(intersect@, light@, ovs, tvs) == shadow_from(
            ovs,
            tvs,
            shadow_origin@,
            light_dir@,
            light_distance@,
            0,
        ));
    }
    let mut j: usize = 0;
    while j < objects.len()
        invariant
            objects_wf(ovs),
            texs_wf(tvs),
            ovs == obj_views(objects@),
            tvs == tex_views(textures@),
            ovs.len() == objects@.len(),
            v3_in(shadow_origin@, ORIGIN_CAP as int),
            v3_in(light_dir@, DIR_CAP as int),
            0 <= light_distance@ <= FX_MUL_CAP as int,
            j <= objects.len(),
            cast_shadow_s(intersect@, light@, ovs, tvs) == shadow_from(
                ovs,
                tvs,
                shadow_origin@,
                light_dir@,
                light_distance@,
                0,
            ),
            shadow_from(ovs, tvs, shadow_origin@, light_dir@, light_distance@, 0)
                == shadow_from(ovs, tvs, shadow_origin@, light_dir@, light_distance@, j as int),
        decreases objects.len() - j,
    {
        proof {
            assert(ovs[j as int] == objects@[j as int]@);
        }
        let h = objects[j].ray_intersect(shadow_origin, light_dir, textures);
        if h.is_intersecting {
            proof {
                assert(object_cast(ovs[j as int], tvs, shadow_origin@, light_dir@) == h@);
            }
            if light_distance.0 == 0 {
                proof {
                    assert(shadow_from(
                        ovs,
                        tvs,
                        shadow_origin@,
                        light_dir@,
                        light_distance@,
                        j as int,
                    ) == FX_ONE as int);
                }
                return Fx(FX_ONE);
            }
            proof {
                lemma_div_fx_bound(h@.distance, light_distance@, DIST_FAR as int);
                assert(shadow_from(ovs, tvs, shadow_origin@, light_dir@, light_distance@, j as int)
                    == clamp_fx(div_fx(h@.distance, light_distance@), 0, FX_ONE as int));
            }
            let attenuation = h.distance.div(light_distance).clamp(Fx(0), Fx(FX_ONE));
            return attenuation;
        }
        proof {
            assert(shadow_from(ovs, tvs, shadow_origin@, light_dir@, light_distance@, j as int)
                == shadow_from(
                ovs,
                tvs,
                shadow_origin@,
                light_dir@,
                light_distance@,
                j as int + 1,
            ));
        }
        j = j + 1;
    }
    Fx(0)
}

/// One light's contribution folded onto the running color; mirrors
/// `shade_one`.
fn shade_light(
    intersect: &Intersect,
    light: &Light,
    objects: &Vec<Object>,
    textures: &Vec<Texture>,
    ray_origin: Vec3,
    acc: Color,
) -> (c: Color)
    requires
        objects_wf(obj_views(objects@)),
        texs_wf(tex_views(textures@)),
        light_wf(light@),
        isect_wf(intersect@),
        v3_in(intersect@.point, SHADE_CAP as int),
        v3_in(ray_origin@, ORIGIN_CAP as int),
    ensures
        c@ == shade_one(
            obj_views(objects@),
            tex_views(textures@),
            light@,
            intersect@,
            ray_origin@,
            acc@,
        ),
{
    let lpos = light.get_position();
    let light_dir = lpos.sub(intersect.point).normalize();
    let view_dir = ray_origin.sub(intersect.point).normalize();
    let reflect_dir = reflect(light_dir.neg(), intersect.normal);
    let shadow_intensity = cast_shadow(intersect, light, objects, textures);
    proof {
        lemma_mul_fx_bound(
            light_intensity(light@),
            (FX_ONE as int) - shadow_intensity@,
            16 * (FX_ONE as int),
            FX_ONE as int,
        );
        lemma_mul_fx_nonneg(light_intensity(light@), (FX_ONE as int) - shadow_intensity@);
        lemma_dot_bound(intersect@.normal, light_dir@, V3_UNIT_CAP as int, V3_UNIT_CAP as int);
        lemma_dot_bound(view_dir@, reflect_dir@, V3_UNIT_CAP as int, BOUNCE_CAP as int);
    }
    let light_int = light.get_intensity().mul(Fx(FX_ONE).sub(shadow_intensity));
    let diff_int = intersect.normal.dot(light_dir).clamp(Fx(0), Fx(FX_ONE));
    let diffuse = intersect.color.scale(intersect.material.albedo.0).scale(diff_int).scale(
        light_int,
    );
    let spec_base = view_dir.dot(reflect_dir).clamp(Fx(0), Fx(FX_ONE));
    let spec_int = pow_unit(spec_base, intersect.material.specular);
    let specular = light.get_color().scale(intersect.material.albedo.1).scale(spec_int).scale(
        light_int,
    );
    acc.add(diffuse).add(specular)
}

/// The color a ray comes back with; mirrors `cast_ray_s`. Past the depth
/// limit the answer is the fixed deep background color, immediately and
/// unconditionally, so mutually facing mirrors terminate.
pub fn cast_ray(
    ray_origin: Vec3,
    ray_direction: Vec3,
    objects: &Vec<Object>,
    lights: &Vec<Light>,
    day_angle: Fx,
    ambient_light: &AmbientLight,
    depth: u32,
    textures: &Vec<Texture>,
) -> (c: Color)
    requires
        objects_wf(obj_views(objects@)),
        lights_wf(light_views(lights@)),
        texs_wf(tex_views(textures@)),
        ambient_wf(ambient_light@),
        0 <= day_angle@ < FX_TWO_PI as int,
        depth > REFLECTION_DEPTH || (v3_in(ray_origin@, origin_cap_at(depth as int)) && v3_in(
            ray_direction@,
            DIR_CAP as int,
        )),
    ensures
        c@ == cast_ray_s(
            obj_views(objects@),
            light_views(lights@),
            day_angle@,
            ambient_light@,
            tex_views(textures@),
            ray_origin@,
            ray_direction@,
            depth as int,
        ),
        depth > REFLECTION_DEPTH ==> c@ == deep_bg(),
    decreases (REFLECTION_DEPTH + 1) - depth,
{
    let ghost ovs = obj_views(objects@);
    let ghost lvs = light_views(lights@);
    let ghost tvs = tex_views(textures@);
    if depth > REFLECTION_DEPTH {
        return Color::new(25, 25, 120);
    }
    let mut intersect = Intersect::empty();
    let mut j: usize = 0;
    while j < objects.len()
        invariant
            objects_wf(ovs),
            texs_wf(tvs),
            ovs == obj_views(objects@),
            tvs == tex_views(textures@),
            ovs.len() == objects@.len(),
            v3_in(ray_origin@, origin_cap_at(depth as int)),
            v3_in(ray_direction@, DIR_CAP as int),
            depth <= REFLECTION_DEPTH,
            j <= objects.len(),
            intersect@ == nearest_upto(ovs, tvs, ray_origin@, ray_direction@, j as int),
            isect_wf(intersect@),
            intersect@.hit ==> v3_in(sub_v(intersect@.point, ray_origin@), HOP_CAP as int),
        decreases objects.len() - j,
    {
        proof {
            assert(ovs[j as int] == objects@[j as int]@);
            assert(origin_cap_at(depth as int) <= origin_cap_at(3)) by (nonlinear_arith)
                requires
                    0 <= depth as int <= 3,
                    origin_cap_at(depth as int) == (EYE_CAP as int) + (depth as int) * (
                    DIST_STEP as int),
                    origin_cap_at(3) == (EYE_CAP as int) + 3 * (DIST_STEP as int),
            ;
        }
        let h = objects[j].ray_intersect(ray_origin, ray_direction, textures);
        if h.is_intersecting && h.distance.0 < intersect.distance.0 {
            intersect = h;
        }
        j = j + 1;
    }
    if !intersect.is_intersecting {
        return calculate_background_color(day_angle);
    }
    proof {
        assert(origin_cap_at(depth as int) <= origin_cap_at(3)) by (nonlinear_arith)
            requires
                0 <= depth as int <= 3,
                origin_cap_at(depth as int) == (EYE_CAP as int) + (depth as int) * (
                DIST_STEP as int),
                origin_cap_at(3) == (EYE_CAP as int) + 3 * (DIST_STEP as int),
        ;
    }
    let mut final_color = intersect.color.scale(ambient_light.intensity);
    let mut li: usize = 0;
    while li < lights.len()
        invariant
            objects_wf(ovs),
            lights_wf(lvs),
            texs_wf(tvs),
            ovs == obj_views(objects@),
            lvs == light_views(lights@),
            tvs == tex_views(textures@),
            ovs.len() == objects@.len(),
            lvs.len() == lights@.len(),
            v3_in(ray_origin@, origin_cap_at(depth as int)),
            origin_cap_at(depth as int) <= origin_cap_at(3),
            v3_in(ray_direction@, DIR_CAP as int),
            depth <= REFLECTION_DEPTH,
            isect_wf(intersect@),
            intersect@.hit,
            v3_in(intersect@.point, SHADE_CAP as int),
            li <= lights.len(),
            shade_from(
                ovs,
                tvs,
                lvs,
                intersect@,
                ray_origin@,
                scale_col(intersect@.color, ambient_light@.intensity),
                0,
            ) == shade_from(ovs, tvs, lvs, intersect@, ray_origin@, final_color@, li as int),
        decreases lights.len() - li,
    {
        proof {
            assert(lvs[li as int] == lights@[li as int]@);
        }
        final_color = shade_light(
            &intersect,
            &lights[li],
            objects,
            textures,
            ray_origin,
            final_color,
        );
        li = li + 1;
    }
    let mut reflect_color = Color::new(0, 0, 0);
    let reflectivity = intersect.material.reflectivity;
    if reflectivity.0 > 0 {
        let reflect_dir = reflect(ray_direction.neg(), intersect.normal).normalize();
        reflect_color = cast_ray(
            intersect.point,
            reflect_dir,
            objects,
            lights,
            day_angle,
            ambient_light,
            depth + 1,
            textures,
        );
    }
    let mut refract_color = Color::new(0, 0, 0);
    let transparency = intersect.material.transparency;
    if transparency.0 > 0 {
        let refract_dir = refract(
            ray_direction,
            intersect.normal,
            intersect.material.refractive_index,
        ).normalize();
        proof {
            lemma_scale_bound(
                intersect@.normal,
                ORIGIN_BIAS as int,
                V3_UNIT_CAP as int,
                ORIGIN_BIAS as int,
            );
        }
        let refract_origin = offset_origin(&intersect, refract_dir);
        refract_color = cast_ray(
            refract_origin,
            refract_dir,
            objects,
            lights,
            day_angle,
            ambient_light,
            depth + 1,
            textures,
        );
    }
    final_color.scale(Fx(FX_ONE).sub(reflectivity)).add(reflect_color.scale(reflectivity)).add(
        refract_color.scale(transparency),
    )
}


/// The camera-space direction for a framebuffer cell: normalized device
/// coordinates, corrected by the aspect ratio and the perspective scale,
/// looking down the negative z axis.
pub open spec fn ray_dir_v(w: int, h: int, x: int, y: int) -> V3i {
    let sx0 = div_fx((2 * x - w) * (FX_ONE as int), w * (FX_ONE as int));
    let aspect = div_fx(w * (FX_ONE as int), h * (FX_ONE as int));
    let sx = mul_fx(mul_fx(sx0, aspect), PERSPECTIVE_SCALE as int);
    let sy = mul_fx(
        div_fx((h - 2 * y) * (FX_ONE as int), h * (FX_ONE as int)),
        PERSPECTIVE_SCALE as int,
    );
    normalize_v(V3i { x: sx, y: sy, z: -(FX_ONE as int) })
}

/// The packed color of one framebuffer cell: its ray, carried through the
/// camera basis and cast from the eye at depth zero, so the full
/// three-bounce recursion budget is available to it.
pub open spec fn pixel_hex(
    objs: Seq<ObjectS>,
    lights: Seq<LightS>,
    day_angle: int,
    ambient: AmbientS,
    ts: Seq<TexS>,
    cam: CameraS,
    w: int,
    h: int,
    x: int,
    y: int,
) -> int {
    hex_of(
        cast_ray_s(
            objs,
            lights,
            day_angle,
            ambient,
            ts,
            cam.eye,
            change_basis_v(cam, ray_dir_v(w, h, x, y)),
            0,
        ),
    )
}

/// The camera-space direction for a cell; mirrors `ray_dir_v`.
fn ray_dir_e(w: usize, h: usize, x: usize, y: usize) -> (r: Vec3)
    requires
        1 <= w <= MAX_DIM,
        1 <= h <= MAX_DIM,
        x < w,
        y < h,
    ensures
        r@ == ray_dir_v(w as int, h as int, x as int, y as int),
        v3_in(r@, V3_UNIT_CAP as int),
{
    let wfx = Fx::from_int(w as i64);
    let hfx = Fx::from_int(h as i64);
    proof {
        lemma_div_fx_ratio((2 * (x as int) - w as int) * (FX_ONE as int), (w as int) * (
        FX_ONE as int));
        lemma_div_fx_ratio((h as int - 2 * (y as int)) * (FX_ONE as int), (h as int) * (
        FX_ONE as int));
        lemma_div_fx_bound((w as int) * (FX_ONE as int), (h as int) * (FX_ONE as int),
            268435456);
    }
    let sx0 = Fx::from_int(2 * (x as i64) - (w as i64)).div(wfx);
    let aspect = wfx.div(hfx);
    proof {
        lemma_mul_fx_bound(sx0@, aspect@, FX_ONE as int, 17592186044416);
        lemma_mul_fx_bound(mul_fx(sx0@, aspect@), PERSPECTIVE_SCALE as int, 17592186044416,
            PERSPECTIVE_SCALE as int);
        lemma_mul_fx_bound(
            div_fx((h as int - 2 * (y as int)) * (FX_ONE as int), (h as int) * (FX_ONE as int)),
            PERSPECTIVE_SCALE as int,
            FX_ONE as int,
            PERSPECTIVE_SCALE as int,
        );
    }
    let sx = sx0.mul(aspect).mul(Fx(PERSPECTIVE_SCALE));
    let sy = Fx::from_int((h as i64) - 2 * (y as i64)).div(hfx).mul(Fx(PERSPECTIVE_SCALE));
    Vec3::new(sx, sy, Fx(-FX_ONE)).normalize()
}

/// One framebuffer row of packed pixels; rows are independent, so a
/// scheduler may compute them in any order or in parallel.
pub fn render_row(
    objects: &Vec<Object>,
    camera: &Camera,
    lights: &Vec<Light>,
    day_angle: Fx,
    ambient_light: &AmbientLight,
    textures: &Vec<Texture>,
    width: usize,
    height: usize,
    y: usize,
) -> (row: Vec<u32>)
    requires
        objects_wf(obj_views(objects@)),
        lights_wf(light_views(lights@)),
        texs_wf(tex_views(textures@)),
        ambient_wf(ambient_light@),
        camera_wf(camera@),
        0 <= day_angle@ < FX_TWO_PI as int,
        1 <= width <= MAX_DIM,
        1 <= height <= MAX_DIM,
        y < height,
    ensures
        row@.len() == width as int,
        forall|x: int|
            0 <= x < width as int ==> #[trigger] row@[x] as int == pixel_hex(
                obj_views(objects@),
                light_views(lights@),
                day_angle@,
                ambient_light@,
                tex_views(textures@),
                camera@,
                width as int,
                height as int,
                x,
                y as int,
            ),
{
    let mut row: Vec<u32> = Vec::new();
    let mut x: usize = 0;
    while x < width
        invariant
            objects_wf(obj_views(objects@)),
            lights_wf(light_views(lights@)),
            texs_wf(tex_views(textures@)),
            ambient_wf(ambient_light@),
            camera_wf(camera@),
            0 <= day_angle@ < FX_TWO_PI as int,
            1 <= width <= MAX_DIM,
            1 <= height <= MAX_DIM,
            y < height,
            x <= width,
            row@.len() == x as int,
            forall|k: int|
                0 <= k < x as int ==> #[trigger] row@[k] as int == pixel_hex(
                    obj_views(objects@),
                    light_views(lights@),
                    day_angle@,
                    ambient_light@,
                    tex_views(textures@),
                    camera@,
                    width as int,
                    height as int,
                    k,
                    y as int,
                ),
        decreases width - x,
    {
        let dir = ray_dir_e(width, height, x, y);
        let world_dir = camera.change_basis(dir);
        let color = cast_ray(
            camera.eye,
            world_dir,
            objects,
            lights,
            day_angle,
            ambient_light,
            0,
            textures,
        );
        row.push(color.to_hex());
        x = x + 1;
    }
    row
}

/// Renders the whole frame: every cell's ray is cast from the camera eye
/// and the packed color lands in the row-major buffer. Only the buffer
/// changes; its size and the frame's dimensions stay.
pub fn render(
    framebuffer: &mut Framebuffer,
    objects: &Vec<Object>,
    camera: &Camera,
    lights: &Vec<Light>,
    day_light: &DayLight,
    ambient_light: &AmbientLight,
    textures: &Vec<Texture>,
)
    requires
        objects_wf(obj_views(objects@)),
        lights_wf(light_views(lights@)),
        texs_wf(tex_views(textures@)),
        ambient_wf(ambient_light@),
        day_wf(day_light@),
        camera_wf(camera@),
        1 <= old(framebuffer).width <= MAX_DIM,
        1 <= old(framebuffer).height <= MAX_DIM,
    ensures
        final(framebuffer).width == old(framebuffer).width,
        final(framebuffer).height == old(framebuffer).height,
        final(framebuffer).pen == old(framebuffer).pen,
        final(framebuffer).buffer@.len() == (old(framebuffer).height as int) * (old(
            framebuffer).width as int),
        forall|i: int|
            0 <= i < final(framebuffer).buffer@.len() ==> #[trigger] final(
                framebuffer).buffer@[i] as int == pixel_hex(
                obj_views(objects@),
                light_views(lights@),
                day_light@.day_angle,
                ambient_light@,
                tex_views(textures@),
                camera@,
                old(framebuffer).width as int,
                old(framebuffer).height as int,
                i % (old(framebuffer).width as int),
                i / (old(framebuffer).width as int),
            ),
{
    let width = framebuffer.width;
    let height = framebuffer.height;
    let day_angle = day_light.day_angle;
    let mut buffer: Vec<u32> = Vec::new();
    let mut y: usize = 0;
    while y < height
        invariant
            objects_wf(obj_views(objects@)),
            lights_wf(light_views(lights@)),
            texs_wf(tex_views(textures@)),
            ambient_wf(ambient_light@),
            camera_wf(camera@),
            0 <= day_angle@ < FX_TWO_PI as int,
            1 <= width <= MAX_DIM,
            1 <= height <= MAX_DIM,
            y <= height,
            buffer@.len() == y as int * (width as int),
            forall|i: int|
                0 <= i < buffer@.len() ==> #[trigger] buffer@[i] as int == pixel_hex(
                    obj_views(objects@),
                    light_views(lights@),
                    day_angle@,
                    ambient_light@,
                    tex_views(textures@),
                    camera@,
                    width as int,
                    height as int,
                    i % (width as int),
                    i / (width as int),
                ),
        decreases height - y,
    {
        let ghost prefix = buffer@;
        let mut row = render_row(
            objects,
            camera,
            lights,
            day_angle,
            ambient_light,
            textures,
            width,
            height,
            y,
        );
        let ghost rowview = row@;
        proof {
            assert((y as int) * (width as int) + (width as int) == (y as int + 1) * (
            width as int)) by (nonlinear_arith);
            assert((y as int + 1) * (width as int) <= (height as int) * (width as int))
                by (nonlinear_arith)
                requires
                    y as int + 1 <= height as int,
                    0 <= width as int,
            ;
        }
        buffer.append(&mut row);
        proof {
            assert forall|i: int| 0 <= i < buffer@.len() implies #[trigger] buffer@[i] as int
                == pixel_hex(
                obj_views(objects@),
                light_views(lights@),
                day_angle@,
                ambient_light@,
                tex_views(textures@),
                camera@,
                width as int,
                height as int,
                i % (width as int),
                i / (width as int),
            ) by {
                if i < prefix.len() {
                    assert(buffer@[i] == prefix[i]);
                } else {
                    let k = i - prefix.len();
                    assert(buffer@[i] == rowview[k]);
                    vstd::arithmetic::div_mod::lemma_fundamental_div_mod_converse_mod(
                        i,
                        width as int,
                        y as int,
                        k,
                    );
                    vstd::arithmetic::div_mod::lemma_fundamental_div_mod_converse_div(
                        i,
                        width as int,
                        y as int,
                        k,
                    );
                }
            }
        }
        y = y + 1;
    }
    proof {
        assert((height as int) * (width as int) == (old(framebuffer).height as int) * (old(
        framebuffer).width as int));
    }
    framebuffer.buffer = buffer;
}


/// An exact unit vector along one coordinate axis - the only normals a
/// cube face answers.
pub open spec fn axis_unit(n: V3i) -> bool {
    ||| (iabs(n.x) == FX_ONE as int && n.y == 0 && n.z == 0)
    ||| (n.x == 0 && iabs(n.y) == FX_ONE as int && n.z == 0)
    ||| (n.x == 0 && n.y == 0 && iabs(n.z) == FX_ONE as int)
}

/// The dot product of any direction with an exact axis unit picks the
/// direction's component along that axis, signed.
proof fn lemma_dot_axis(d: V3i, n: V3i)
    requires
        axis_unit(n),
    ensures
        (iabs(n.x) == FX_ONE as int && n.y == 0 && n.z == 0) ==> dot_v(d, n) == (if n.x
            == FX_ONE as int { d.x } else { -d.x }),
        (n.x == 0 && iabs(n.y) == FX_ONE as int && n.z == 0) ==> dot_v(d, n) == (if n.y
            == FX_ONE as int { d.y } else { -d.y }),
        (n.x == 0 && n.y == 0 && iabs(n.z) == FX_ONE as int) ==> dot_v(d, n) == (if n.z
            == FX_ONE as int { d.z } else { -d.z }),
{
    lemma_mul_fx_axis(n.x, d.x);
    lemma_mul_fx_axis(n.y, d.y);
    lemma_mul_fx_axis(n.z, d.z);
    if iabs(n.x) == FX_ONE as int && n.y == 0 && n.z == 0 {
        assert(d.x * n.x + d.y * n.y + d.z * n.z == d.x * n.x) by (nonlinear_arith)
            requires
                n.y == 0,
                n.z == 0,
        ;
    } else if n.x == 0 && iabs(n.y) == FX_ONE as int && n.z == 0 {
        assert(d.x * n.x + d.y * n.y + d.z * n.z == d.y * n.y) by (nonlinear_arith)
            requires
                n.x == 0,
                n.z == 0,
        ;
    } else {
        assert(d.x * n.x + d.y * n.y + d.z * n.z == d.z * n.z) by (nonlinear_arith)
            requires
                n.x == 0,
                n.y == 0,
        ;
    }
}

/// Reflecting about an exact axis normal flips the direction's component
/// along the normal - `dot(reflect(d, n), n) == -dot(d, n)` - and doing
/// it twice returns the original direction, for every direction `d`. A
/// rounded non-axis unit normal can miss these by a few units in the last
/// place; cube faces always answer axis normals, where both identities
/// are exact.
pub proof fn lemma_reflect_flips_normal_component(d: V3i, n: V3i)
    requires
        axis_unit(n),
    ensures
        dot_v(reflect_v(d, n), n) == -dot_v(d, n),
        reflect_v(reflect_v(d, n), n) == d,
{
    let t = 2 * dot_v(d, n);
    lemma_dot_axis(d, n);
    lemma_mul_fx_axis(n.x, t);
    lemma_mul_fx_axis(n.y, t);
    lemma_mul_fx_axis(n.z, t);
    lemma_mul_fx_zero(t);
    let r = reflect_v(d, n);
    lemma_dot_axis(r, n);
    let t2 = 2 * dot_v(r, n);
    lemma_mul_fx_axis(n.x, t2);
    lemma_mul_fx_axis(n.y, t2);
    lemma_mul_fx_axis(n.z, t2);
    lemma_mul_fx_zero(t2);
}

/// What an axis unit's own reflection machinery needs of a square root:
/// the root of exactly one is one.
proof fn lemma_sqrt_of_one()
    ensures
        sqrt_fx(FX_ONE as int) == FX_ONE as int,
{
    assert(is_sqrt(65536int * 65536int, 65536int)) by (nonlinear_arith);
    lemma_sqrt_floor_unique((FX_ONE as int) * (FX_ONE as int), FX_ONE as int);
}

/// Refraction at normal incidence leaves the ray unchanged: a ray that
/// meets a face head-on (along the face normal, entering or leaving)
/// continues straight for every admissible refractive index. Carrying a
/// ray into a medium and out through a parallel exit face therefore
/// returns a direction parallel to - indeed equal to - the original.
/// Oblique rays refract with rounding, where no exact round-trip identity
/// holds.
pub proof fn lemma_refract_normal_incidence(d: V3i, n: V3i, eta_t: int)
    requires
        axis_unit(n),
        d == n || d == neg_v(n),
        16384 <= eta_t <= 16 * (FX_ONE as int),
    ensures
        refract_v(d, n, eta_t) == d,
{
    lemma_dot_axis(d, n);
    lemma_mul_fx_one(FX_ONE as int);
    lemma_sqrt_of_one();
    let dd = dot_v(d, n);
    assert(d == n ==> dd == FX_ONE as int);
    assert(d == neg_v(n) ==> dd == -(FX_ONE as int));
    if d == n {
        let eta = div_fx(FX_ONE as int, eta_t);
        lemma_qdiv_le((FX_ONE as int) * (FX_ONE as int), eta_t);
        let nn = neg_v(n);
        let s2 = (FX_ONE as int) - mul_fx(FX_ONE as int, FX_ONE as int);
        lemma_mul_fx_zero(mul_fx(eta, eta));
        lemma_mul_fx_one(eta);
        lemma_mul_fx_axis(d.x, eta);
        lemma_mul_fx_axis(d.y, eta);
        lemma_mul_fx_axis(d.z, eta);
        lemma_mul_fx_axis(nn.x, eta - (FX_ONE as int));
        lemma_mul_fx_axis(nn.y, eta - (FX_ONE as int));
        lemma_mul_fx_axis(nn.z, eta - (FX_ONE as int));
    } else {
        lemma_mul_fx_zero(mul_fx(eta_t, eta_t));
        lemma_mul_fx_one(eta_t);
        lemma_mul_fx_axis(d.x, eta_t);
        lemma_mul_fx_axis(d.y, eta_t);
        lemma_mul_fx_axis(d.z, eta_t);
        lemma_mul_fx_axis(n.x, eta_t - (FX_ONE as int));
        lemma_mul_fx_axis(n.y, eta_t - (FX_ONE as int));
        lemma_mul_fx_axis(n.z, eta_t - (FX_ONE as int));
    }
}

} // verus!
