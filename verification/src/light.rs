//! Light sources: point lights, the ambient light, and the day-cycle
//! light whose position and intensity follow a time-of-day angle.
//!
//! The day-cycle light rides a circle around a fixed center; its intensity
//! ramps linearly from zero up to one and back to zero across the daytime
//! window and is held at zero into the night. Its sky color is a
//! piecewise-linear blend between night, dawn and day anchors, with a
//! two-stage sub-blend inside each transition so no hue jumps at the
//! midpoints.

use vstd::prelude::*;

verus! {

use vstd::arithmetic::div_mod::lemma_div_is_ordered;
use vstd::arithmetic::div_mod::lemma_div_multiples_vanish;
use vstd::arithmetic::div_mod::lemma_div_pos_is_pos;
use crate::color::{Color, ColS};
use crate::fx::{
    Fx, FX_ONE, FX_MUL_CAP, fx_in, mul_fx, div_fx, qdiv, lemma_div_fx_unit, lemma_mul_fx_bound,
};
use crate::intersect::{SCENE_CAP, ORIGIN_CAP};
use crate::trig::{FX_TWO_PI, wrap_2pi, cos_fx, sin_fx, wrap_angle, cos, sin};
use crate::vec3::{Vec3, V3i, v3_in};

/// Sunrise: where the daytime intensity window opens.
pub const DAY_START: i128 = 0;

/// Midday (pi / 3): where the intensity peaks.
pub const DAY_MID: i128 = 68629;

/// Sunset (2 * pi / 3): where the intensity window closes.
pub const DAY_END: i128 = 137258;

/// Where the night proper begins for the intensity ramp (3 * pi / 2).
pub const NIGHT_START: i128 = 308830;

/// The spec-level image of a point light.
pub struct PointS {
    pub position: V3i,
    pub color: ColS,
    pub intensity: int,
}

/// The spec-level image of the ambient light.
pub struct AmbientS {
    pub color: ColS,
    pub intensity: int,
}

/// The spec-level image of the day-cycle light.
pub struct DayS {
    pub position: V3i,
    pub center: V3i,
    pub radius: int,
    pub day_angle: int,
    pub color: ColS,
    pub intensity: int,
}

/// A positional light with a color and a dimming factor.
#[derive(Clone, Copy, Debug)]
pub struct PointLight {
    pub position: Vec3,
    pub color: Color,
    pub intensity: Fx,
}

/// The directionless base illumination.
#[derive(Clone, Copy, Debug)]
pub struct AmbientLight {
    pub color: Color,
    pub intensity: Fx,
}

/// The sun: a light riding a circle, dimmed by the time of day.
#[derive(Clone, Copy, Debug)]
pub struct DayLight {
    pub position: Vec3,
    pub center: Vec3,
    pub radius: Fx,
    pub day_angle: Fx,
    pub color: Color,
    pub intensity: Fx,
}

impl View for PointLight {
    type V = PointS;

    open spec fn view(&self) -> PointS {
        PointS { position: self.position@, color: self.color@, intensity: self.intensity@ }
    }
}

impl View for AmbientLight {
    type V = AmbientS;

    open spec fn view(&self) -> AmbientS {
        AmbientS { color: self.color@, intensity: self.intensity@ }
    }
}

impl View for DayLight {
    type V = DayS;

    open spec fn view(&self) -> DayS {
        DayS {
            position: self.position@,
            center: self.center@,
            radius: self.radius@,
            day_angle: self.day_angle@,
            color: self.color@,
            intensity: self.intensity@,
        }
    }
}

/// The bounds a scene's point light obeys.
pub open spec fn point_wf(l: PointS) -> bool {
    &&& v3_in(l.position, ORIGIN_CAP as int)
    &&& 0 <= l.intensity <= 16 * (FX_ONE as int)
}

/// The bounds the ambient light obeys.
pub open spec fn ambient_wf(l: AmbientS) -> bool {
    0 <= l.intensity <= 16 * (FX_ONE as int)
}

/// The bounds the day-cycle light obeys.
pub open spec fn day_wf(l: DayS) -> bool {
    &&& v3_in(l.position, ORIGIN_CAP as int)
    &&& v3_in(l.center, SCENE_CAP as int)
    &&& 0 <= l.radius <= SCENE_CAP as int
    &&& 0 <= l.day_angle < FX_TWO_PI as int
    &&& 0 <= l.intensity <= 16 * (FX_ONE as int)
}

impl PointLight {
    pub fn new(position: Vec3, color: Color, intensity: Fx) -> (l: PointLight)
        ensures
            l@ == (PointS { position: position@, color: color@, intensity: intensity@ }),
    {
        PointLight { position, color, intensity }
    }

    pub fn get_position(&self) -> (p: Vec3)
        ensures
            p@ == self@.position,
    {
        self.position
    }

    pub fn get_color(&self) -> (c: Color)
        ensures
            c@ == self@.color,
    {
        self.color
    }

    pub fn get_intensity(&self) -> (i: Fx)
        ensures
            i@ == self@.intensity,
    {
        self.intensity
    }
}

impl AmbientLight {
    pub fn new(color: Color, intensity: Fx) -> (l: AmbientLight)
        ensures
            l@ == (AmbientS { color: color@, intensity: intensity@ }),
    {
        AmbientLight { color, intensity }
    }

    pub fn get_position(&self) -> (p: Vec3)
        ensures
            p@ == (V3i { x: 0, y: 0, z: 0 }),
    {
        Vec3::zero()
    }

    pub fn get_color(&self) -> (c: Color)
        ensures
            c@ == self@.color,
    {
        self.color
    }

    pub fn get_intensity(&self) -> (i: Fx)
        ensures
            i@ == self@.intensity,
    {
        self.intensity
    }
}

/// Where the day-cycle light stands after its angle advances by `delta`:
/// the angle wraps into `[0, 2 pi)`, the light moves to its place on the
/// orbit circle, and the intensity follows the daytime ramp: rising to
/// midday, falling to sunset, and held at zero everywhere outside the
/// daytime window.
pub open spec fn day_translate(d: DayS, delta: int) -> DayS {
    let a = wrap_2pi(d.day_angle + delta);
    let px = d.center.x + mul_fx(d.radius, cos_fx(a));
    let py = d.center.y + mul_fx(d.radius, sin_fx(a));
    let intensity = if a <= DAY_END as int {
        if a < DAY_MID as int {
            div_fx(a, DAY_MID as int)
        } else {
            (FX_ONE as int) - div_fx(a - DAY_MID as int, (DAY_END - DAY_MID) as int)
        }
    } else {
        0
    };
    DayS {
        position: V3i { x: px, y: py, z: d.position.z },
        center: d.center,
        radius: d.radius,
        day_angle: a,
        color: d.color,
        intensity,
    }
}

/// One interpolated channel: `s (1 - t) + e t` at scale 2^16.
pub open spec fn lerp_ch(s: int, e: int, t: int) -> int {
    qdiv(s * ((FX_ONE as int) - t) + e * t, FX_ONE as int)
}

/// Channel-wise interpolation between two anchor colors.
pub open spec fn lerp3(s: ColS, e: ColS, t: int) -> ColS {
    ColS { r: lerp_ch(s.r, e.r, t), g: lerp_ch(s.g, e.g, t), b: lerp_ch(s.b, e.b, t) }
}

/// The sky the day-cycle light paints for an angle in `[0, 2 pi)`: night
/// blue to dawn orange to day blue across the morning, flat at midday,
/// back through dusk, dark night elsewhere.
pub open spec fn day_sky(a: int) -> ColS {
    let night = ColS { r: 0, g: 0, b: 50 };
    let dawn = ColS { r: 237, g: 135, b: 88 };
    let day = ColS { r: 135, g: 206, b: 250 };
    if 0 <= a && a < DAY_MID as int {
        let ratio = div_fx(a, DAY_MID as int);
        if ratio < 32768 {
            lerp3(night, dawn, 2 * ratio)
        } else {
            lerp3(dawn, day, 2 * (ratio - 32768))
        }
    } else if DAY_MID as int <= a && a < DAY_END as int {
        day
    } else if DAY_END as int <= a && a < NIGHT_START as int {
        let ratio = div_fx(a - DAY_END as int, (NIGHT_START - DAY_END) as int);
        if ratio < 32768 {
            lerp3(day, dawn, 2 * ratio)
        } else {
            lerp3(dawn, night, 2 * (ratio - 32768))
        }
    } else {
        night
    }
}

/// One interpolated exec channel; mirrors `lerp_ch`.
pub(crate) fn lerp_ch_e(s: u8, e: u8, t: Fx) -> (r: u8)
    requires
        0 <= t@ <= FX_ONE as int,
    ensures
        r as int == lerp_ch(s as int, e as int, t@),
        r <= 255,
{
    proof {
        assert(0 <= (s as int) * (65536 - t@) + (e as int) * t@ <= 255 * 65536)
            by (nonlinear_arith)
            requires
                0 <= (s as int) <= 255,
                0 <= (e as int) <= 255,
                0 <= t@ <= 65536,
        ;
    }
    let p: i128 = (s as i128) * (65536 - t.0) + (e as i128) * t.0;
    proof {
        lemma_div_is_ordered(p as int, 255int * 65536int, 65536int);
        lemma_div_multiples_vanish(255int, 65536int);
        lemma_div_pos_is_pos(p as int, 65536int);
    }
    let q: i128 = crate::fx::scale_down(p);
    q as u8
}

impl DayLight {
    pub fn new(
        position: Vec3,
        center: Vec3,
        radius: Fx,
        day_angle: Fx,
        color: Color,
        intensity: Fx,
    ) -> (l: DayLight)
        ensures
            l@ == (DayS {
                position: position@,
                center: center@,
                radius: radius@,
                day_angle: day_angle@,
                color: color@,
                intensity: intensity@,
            }),
    {
        DayLight { position, center, radius, day_angle, color, intensity }
    }

    pub fn get_position(&self) -> (p: Vec3)
        ensures
            p@ == self@.position,
    {
        self.position
    }

    pub fn get_color(&self) -> (c: Color)
        ensures
            c@ == self@.color,
    {
        self.color
    }

    pub fn get_intensity(&self) -> (i: Fx)
        ensures
            i@ == self@.intensity,
    {
        self.intensity
    }

    /// Advances the time of day; mirrors `day_translate`. Whatever the
    /// light carried before, the new intensity follows the ramp alone,
    /// so it always lands in `[0, 1]`.
    pub fn translate_day_light(&mut self, delta_angle: Fx)
        requires
            day_wf(old(self)@),
            fx_in(delta_angle@, FX_MUL_CAP as int),
        ensures
            final(self)@ == day_translate(old(self)@, delta_angle@),
            day_wf(final(self)@),
            0 <= final(self)@.intensity <= FX_ONE as int,
    {
        let a = wrap_angle(self.day_angle.add(delta_angle));
        self.day_angle = a;
        let c = cos(a);
        let s = sin(a);
        proof {
            lemma_mul_fx_bound(self@.radius, c@, SCENE_CAP as int, FX_ONE as int);
            lemma_mul_fx_bound(self@.radius, s@, SCENE_CAP as int, FX_ONE as int);
        }
        self.position = Vec3::new(
            self.center.x.add(self.radius.mul(c)),
            self.center.y.add(self.radius.mul(s)),
            self.position.z,
        );
        if a.0 <= DAY_END {
            let ratio = if a.0 < DAY_MID {
                proof {
                    lemma_div_fx_unit(a@, DAY_MID as int);
                }
                a.div(Fx(DAY_MID))
            } else {
                proof {
                    lemma_div_fx_unit(a@ - DAY_MID as int, (DAY_END - DAY_MID) as int);
                }
                Fx(FX_ONE).sub(a.sub(Fx(DAY_MID)).div(Fx(DAY_END - DAY_MID)))
            };
            self.intensity = ratio;
        } else {
            self.intensity = Fx(0);
        }
    }

    /// One interpolated color between two anchors; mirrors `lerp3`.
    fn interpolate_color(&self, start: (u8, u8, u8), end: (u8, u8, u8), ratio: Fx) -> (c: Color)
        requires
            0 <= ratio@ <= FX_ONE as int,
        ensures
            c@ == lerp3(
                ColS { r: start.0 as int, g: start.1 as int, b: start.2 as int },
                ColS { r: end.0 as int, g: end.1 as int, b: end.2 as int },
                ratio@,
            ),
    {
        Color::new(
            lerp_ch_e(start.0, end.0, ratio),
            lerp_ch_e(start.1, end.1, ratio),
            lerp_ch_e(start.2, end.2, ratio),
        )
    }

    /// The sky color for a time of day; mirrors `day_sky`.
    pub fn calculate_background_color(&self, day_angle: Fx) -> (c: Color)
        requires
            0 <= day_angle@ < FX_TWO_PI as int,
        ensures
            c@ == day_sky(day_angle@),
    {
        let night: (u8, u8, u8) = (0, 0, 50);
        let dawn: (u8, u8, u8) = (237, 135, 88);
        let day: (u8, u8, u8) = (135, 206, 250);
        if day_angle.0 < DAY_MID {
            proof {
                lemma_div_fx_unit(day_angle@, DAY_MID as int);
            }
            let ratio = day_angle.div(Fx(DAY_MID));
            if ratio.0 < 32768 {
                self.interpolate_color(night, dawn, Fx(2 * ratio.0))
            } else {
                self.interpolate_color(dawn, day, Fx(2 * (ratio.0 - 32768)))
            }
        } else if day_angle.0 < DAY_END {
            Color::new(135, 206, 250)
        } else if day_angle.0 < NIGHT_START {
            proof {
                lemma_div_fx_unit(day_angle@ - DAY_END as int, (NIGHT_START - DAY_END) as int);
            }
            let ratio = day_angle.sub(Fx(DAY_END)).div(Fx(NIGHT_START - DAY_END));
            if ratio.0 < 32768 {
                self.interpolate_color(day, dawn, Fx(2 * ratio.0))
            } else {
                self.interpolate_color(dawn, night, Fx(2 * (ratio.0 - 32768)))
            }
        } else {
            Color::new(0, 0, 50)
        }
    }
}

/// A closed sum over the light kinds, dispatched by match.
#[derive(Clone, Copy, Debug)]
pub enum Light {
    Point(PointLight),
    Ambient(AmbientLight),
    Day(DayLight),
}

/// The spec-level image of a light.
pub enum LightS {
    Point(PointS),
    Ambient(AmbientS),
    Day(DayS),
}

impl View for Light {
    type V = LightS;

    open spec fn view(&self) -> LightS {
        match *self {
            Light::Point(l) => LightS::Point(l@),
            Light::Ambient(l) => LightS::Ambient(l@),
            Light::Day(l) => LightS::Day(l@),
        }
    }
}

/// The spec-level images of a scene's light list.
pub open spec fn light_views(s: Seq<Light>) -> Seq<LightS> {
    s.map_values(|l: Light| l@)
}

/// Every light of a scene is well-formed.
pub open spec fn lights_wf(s: Seq<LightS>) -> bool {
    forall|i: int| 0 <= i < s.len() ==> light_wf(#[trigger] s[i])
}

/// The bounds a scene light obeys.
pub open spec fn light_wf(l: LightS) -> bool {
    match l {
        LightS::Point(p) => point_wf(p),
        LightS::Ambient(a) => ambient_wf(a),
        LightS::Day(d) => day_wf(d),
    }
}

/// Where a light shines from; the ambient light has no place.
pub open spec fn light_position(l: LightS) -> V3i {
    match l {
        LightS::Point(p) => p.position,
        LightS::Ambient(_) => V3i { x: 0, y: 0, z: 0 },
        LightS::Day(d) => d.position,
    }
}

pub open spec fn light_color(l: LightS) -> ColS {
    match l {
        LightS::Point(p) => p.color,
        LightS::Ambient(a) => a.color,
        LightS::Day(d) => d.color,
    }
}

pub open spec fn light_intensity(l: LightS) -> int {
    match l {
        LightS::Point(p) => p.intensity,
        LightS::Ambient(a) => a.intensity,
        LightS::Day(d) => d.intensity,
    }
}

impl Light {
    pub fn get_position(&self) -> (p: Vec3)
        ensures
            p@ == light_position(self@),
    {
        match self {
            Light::Point(l) => l.get_position(),
            Light::Ambient(l) => l.get_position(),
            Light::Day(l) => l.get_position(),
        }
    }

    pub fn get_color(&self) -> (c: Color)
        ensures
            c@ == light_color(self@),
    {
        match self {
            Light::Point(l) => l.get_color(),
            Light::Ambient(l) => l.get_color(),
            Light::Day(l) => l.get_color(),
        }
    }

    pub fn get_intensity(&self) -> (i: Fx)
        ensures
            i@ == light_intensity(self@),
    {
        match self {
            Light::Point(l) => l.get_intensity(),
            Light::Ambient(l) => l.get_intensity(),
            Light::Day(l) => l.get_intensity(),
        }
    }
}

} // verus!
