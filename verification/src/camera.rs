//! The camera: a view basis for turning screen rays into world rays, and
//! orbit / zoom movement around a look-at target.
//!
//! The camera keeps its spherical state - yaw, pitch and radius around the
//! target - beside the eye point, and rebuilds the eye from that state
//! whenever it moves: orbit adds to the angles, zoom walks the radius
//! along the view axis. The pitch is clamped away from the poles on every
//! move, so no sequence of orbits can flip the camera over. A change flag
//! tells the renderer when a new frame is worth drawing, and reading the
//! flag clears it.

use vstd::prelude::*;

verus! {

use crate::fx::{Fx, FX_ONE, FX_MUL_CAP, fx_in, mul_fx, clamp_fx};
use crate::intersect::{SCENE_CAP, DIR_CAP};
use crate::trig::{
    FX_HALF_PI, wrap_2pi, cos_fx, sin_fx, atan2_fx, wrap_angle, cos, sin, atan2,
};
use crate::vec3::{
    Vec3, V3i, v3_in, add_v, sub_v, scale_v, cross_v, norm_v, normalize_v, lemma_norm_bound,
    lemma_cross_bound, lemma_scale_bound, V3_UNIT_CAP,
};

/// How far the pitch must stay from a straight-up or straight-down view:
/// the angle 0.1.
pub const PITCH_EPS: i128 = 6554;

/// The largest pitch the camera can take: pi / 2 minus the margin.
pub const PITCH_LIMIT: i128 = FX_HALF_PI - PITCH_EPS;

/// Cap on the orbit radius (2^48).
pub const RADIUS_CAP: i128 = 281474976710656;

/// Cap on a yaw angle: wrapped angles and arc tangents both fit it.
pub const YAW_CAP: i128 = 700000;

/// Cap on the eye position: the target plus the orbit radius.
pub const EYE_CAP: i128 = SCENE_CAP + RADIUS_CAP;

/// The spec-level image of a camera.
pub struct CameraS {
    pub eye: V3i,
    pub center: V3i,
    pub up: V3i,
    pub yaw: int,
    pub pitch: int,
    pub radius: int,
    pub changed: bool,
}

/// The bounds a camera obeys; in particular the pitch never leaves
/// `[-(pi/2 - 0.1), pi/2 - 0.1]`.
pub open spec fn camera_wf(c: CameraS) -> bool {
    &&& v3_in(c.eye, EYE_CAP as int)
    &&& v3_in(c.center, SCENE_CAP as int)
    &&& v3_in(c.up, SCENE_CAP as int)
    &&& fx_in(c.yaw, YAW_CAP as int)
    &&& -(PITCH_LIMIT as int) <= c.pitch <= PITCH_LIMIT as int
    &&& fx_in(c.radius, RADIUS_CAP as int)
}

/// The eye rebuilt from the spherical state:
/// `center + radius * (cos yaw cos pitch, -sin pitch, sin yaw cos pitch)`.
pub open spec fn eye_from(center: V3i, radius: int, yaw: int, pitch: int) -> V3i {
    V3i {
        x: center.x + mul_fx(radius, mul_fx(cos_fx(yaw), cos_fx(pitch))),
        y: center.y - mul_fx(radius, sin_fx(pitch)),
        z: center.z + mul_fx(radius, mul_fx(sin_fx(yaw), cos_fx(pitch))),
    }
}

/// The camera a constructor builds: spherical state recovered from the
/// eye-to-center offset, the pitch clamped away from the poles, and the
/// change flag raised.
pub open spec fn camera_new_s(eye: V3i, center: V3i, up: V3i) -> CameraS {
    let off = sub_v(eye, center);
    let rxz = norm_v(V3i { x: off.x, y: 0, z: off.z });
    CameraS {
        eye,
        center,
        up,
        yaw: atan2_fx(off.z, off.x),
        pitch: clamp_fx(atan2_fx(-off.y, rxz), -(PITCH_LIMIT as int), PITCH_LIMIT as int),
        radius: norm_v(off),
        changed: true,
    }
}

/// The camera after an orbit step: the yaw wraps, the pitch is clamped,
/// and the eye is rebuilt on the same radius.
pub open spec fn camera_orbit_s(c: CameraS, dy: int, dp: int) -> CameraS {
    let yaw = wrap_2pi(c.yaw + dy);
    let pitch = clamp_fx(c.pitch + dp, -(PITCH_LIMIT as int), PITCH_LIMIT as int);
    CameraS {
        eye: eye_from(c.center, c.radius, yaw, pitch),
        center: c.center,
        up: c.up,
        yaw,
        pitch,
        radius: c.radius,
        changed: true,
    }
}

/// The camera after a zoom step: the radius shrinks by `delta` (positive
/// `delta` moves toward the target, with no stop at the center) and the
/// eye is rebuilt on the view axis.
pub open spec fn camera_zoom_s(c: CameraS, delta: int) -> CameraS {
    let radius = clamp_fx(c.radius - delta, -(RADIUS_CAP as int), RADIUS_CAP as int);
    CameraS {
        eye: eye_from(c.center, radius, c.yaw, c.pitch),
        center: c.center,
        up: c.up,
        yaw: c.yaw,
        pitch: c.pitch,
        radius,
        changed: true,
    }
}

/// However the camera is orbited, and however often, the pitch stays in
/// the clamped band: every orbit step lands it inside
/// `[-(pi/2 - 0.1), pi/2 - 0.1]` whatever the deltas, so no cumulative
/// input can tip the view over a pole.
pub proof fn lemma_orbit_pitch_stays_clamped(c: CameraS, dy: int, dp: int)
    ensures
        -(PITCH_LIMIT as int) <= camera_orbit_s(c, dy, dp).pitch <= PITCH_LIMIT as int,
{
}

/// A camera-space direction carried into world space through the
/// orthonormal view basis, renormalized.
pub open spec fn change_basis_v(c: CameraS, v: V3i) -> V3i {
    let forward = normalize_v(sub_v(c.center, c.eye));
    let right = normalize_v(cross_v(forward, c.up));
    let upv = normalize_v(cross_v(right, forward));
    normalize_v(sub_v(add_v(scale_v(right, v.x), scale_v(upv, v.y)), scale_v(forward, v.z)))
}

/// The movable viewpoint.
#[derive(Clone, Copy, Debug)]
pub struct Camera {
    /// Where the camera stands.
    pub eye: Vec3,
    /// What it looks at.
    pub center: Vec3,
    /// Which way is up for it.
    pub up: Vec3,
    /// The yaw of the eye around the target.
    pub yaw: Fx,
    /// The pitch of the eye above the target plane.
    pub pitch: Fx,
    /// The distance from the target.
    pub radius: Fx,
    /// Whether the camera moved since the last render.
    pub has_changed: bool,
}

impl View for Camera {
    type V = CameraS;

    open spec fn view(&self) -> CameraS {
        CameraS {
            eye: self.eye@,
            center: self.center@,
            up: self.up@,
            yaw: self.yaw@,
            pitch: self.pitch@,
            radius: self.radius@,
            changed: self.has_changed,
        }
    }
}

impl Camera {
    /// A camera at `eye` looking at `center`; mirrors `camera_new_s`.
    pub fn new(eye: Vec3, center: Vec3, up: Vec3) -> (c: Camera)
        requires
            v3_in(eye@, SCENE_CAP as int),
            v3_in(center@, SCENE_CAP as int),
            v3_in(up@, SCENE_CAP as int),
        ensures
            c@ == camera_new_s(eye@, center@, up@),
            camera_wf(c@),
    {
        let off = eye.sub(center);
        proof {
            lemma_norm_bound(off@, 2 * (SCENE_CAP as int));
            lemma_norm_bound(V3i { x: off@.x, y: 0, z: off@.z }, 2 * (SCENE_CAP as int));
        }
        let radius = off.norm();
        let rxz = Vec3::new(off.x, Fx(0), off.z).norm();
        let yaw = atan2(off.z, off.x);
        let pitch = atan2(off.y.neg(), rxz).clamp(Fx(-PITCH_LIMIT), Fx(PITCH_LIMIT));
        Camera { eye, center, up, yaw, pitch, radius, has_changed: true }
    }

    /// Rebuilds the eye from the spherical state; shared by orbit and zoom.
    fn rebuild_eye(&mut self)
        requires
            camera_wf(old(self)@),
        ensures
            final(self)@ == (CameraS {
                eye: eye_from(
                    old(self)@.center,
                    old(self)@.radius,
                    old(self)@.yaw,
                    old(self)@.pitch,
                ),
                ..old(self)@
            }),
            camera_wf(final(self)@),
    {
        let cy = cos(self.yaw);
        let sy = sin(self.yaw);
        let cp = cos(self.pitch);
        let sp = sin(self.pitch);
        proof {
            crate::fx::lemma_mul_fx_bound(cy@, cp@, FX_ONE as int, FX_ONE as int);
            crate::fx::lemma_mul_fx_bound(sy@, cp@, FX_ONE as int, FX_ONE as int);
            crate::fx::lemma_mul_fx_bound(
                self@.radius,
                mul_fx(cy@, cp@),
                RADIUS_CAP as int,
                FX_ONE as int,
            );
            crate::fx::lemma_mul_fx_bound(self@.radius, sp@, RADIUS_CAP as int, FX_ONE as int);
            crate::fx::lemma_mul_fx_bound(
                self@.radius,
                mul_fx(sy@, cp@),
                RADIUS_CAP as int,
                FX_ONE as int,
            );
        }
        self.eye = Vec3::new(
            self.center.x.add(self.radius.mul(cy.mul(cp))),
            self.center.y.sub(self.radius.mul(sp)),
            self.center.z.add(self.radius.mul(sy.mul(cp))),
        );
    }

    /// Swings the camera around its target; mirrors `camera_orbit_s`. The
    /// pitch never leaves the clamped band, whatever the deltas.
    pub fn orbit(&mut self, delta_yaw: Fx, delta_pitch: Fx)
        requires
            camera_wf(old(self)@),
            fx_in(delta_yaw@, FX_MUL_CAP as int),
            fx_in(delta_pitch@, FX_MUL_CAP as int),
        ensures
            final(self)@ == camera_orbit_s(old(self)@, delta_yaw@, delta_pitch@),
            camera_wf(final(self)@),
            -(PITCH_LIMIT as int) <= final(self)@.pitch <= PITCH_LIMIT as int,
    {
        self.yaw = wrap_angle(self.yaw.add(delta_yaw));
        self.pitch = self.pitch.add(delta_pitch).clamp(Fx(-PITCH_LIMIT), Fx(PITCH_LIMIT));
        self.rebuild_eye();
        self.has_changed = true;
    }

    /// Moves the eye along the view axis; mirrors `camera_zoom_s`.
    pub fn zoom(&mut self, delta: Fx)
        requires
            camera_wf(old(self)@),
            fx_in(delta@, FX_MUL_CAP as int),
        ensures
            final(self)@ == camera_zoom_s(old(self)@, delta@),
            camera_wf(final(self)@),
    {
        self.radius = self.radius.sub(delta).clamp(Fx(-RADIUS_CAP), Fx(RADIUS_CAP));
        self.rebuild_eye();
        self.has_changed = true;
    }

    /// Reports whether the camera moved, and clears the flag: true at most
    /// once per change.
    pub fn check_if_changed(&mut self) -> (r: bool)
        ensures
            r == old(self)@.changed,
            final(self)@ == (CameraS { changed: false, ..old(self)@ }),
    {
        if self.has_changed {
            self.has_changed = false;
            true
        } else {
            false
        }
    }

    /// Carries a camera-space ray direction into world space; mirrors
    /// `change_basis_v`. Does not touch the camera.
    pub fn change_basis(&self, vector: Vec3) -> (r: Vec3)
        requires
            camera_wf(self@),
            v3_in(vector@, DIR_CAP as int),
        ensures
            r@ == change_basis_v(self@, vector@),
            v3_in(r@, V3_UNIT_CAP as int),
    {
        let forward = self.center.sub(self.eye).normalize();
        proof {
            lemma_cross_bound(forward@, self@.up, V3_UNIT_CAP as int, SCENE_CAP as int);
        }
        let right = forward.cross(self.up).normalize();
        proof {
            lemma_cross_bound(right@, forward@, V3_UNIT_CAP as int, V3_UNIT_CAP as int);
        }
        let upv = right.cross(forward).normalize();
        proof {
            lemma_scale_bound(right@, vector@.x, V3_UNIT_CAP as int, DIR_CAP as int);
            lemma_scale_bound(upv@, vector@.y, V3_UNIT_CAP as int, DIR_CAP as int);
            lemma_scale_bound(forward@, vector@.z, V3_UNIT_CAP as int, DIR_CAP as int);
        }
        let rotated = right.scale(vector.x).add(upv.scale(vector.y)).sub(forward.scale(vector.z));
        rotated.normalize()
    }
}

} // verus!
