use raytracer::camera::{Camera, PITCH_LIMIT};
use raytracer::fx::Fx;
use raytracer::vec3::Vec3;

fn v(x: i64, y: i64, z: i64) -> Vec3 {
    Vec3::new(Fx::from_int(x), Fx::from_int(y), Fx::from_int(z))
}

#[test]
fn orbit_pitch_never_leaves_the_clamped_band() {
    // Repeated orbits with a large positive pitch delta: the pitch always
    // stays strictly inside (-pi/2, pi/2), clamped at the fixed margin.
    let mut camera = Camera::new(v(0, 0, 10), v(0, 0, 0), v(0, 1, 0));
    for _ in 0..100 {
        camera.orbit(Fx(0), Fx(19661));
        assert!(-PITCH_LIMIT <= camera.pitch.0 && camera.pitch.0 <= PITCH_LIMIT);
    }
    for _ in 0..300 {
        camera.orbit(Fx(3277), Fx(-19661));
        assert!(-PITCH_LIMIT <= camera.pitch.0 && camera.pitch.0 <= PITCH_LIMIT);
    }
}

#[test]
fn orbit_wraps_yaw_into_one_turn() {
    let mut camera = Camera::new(v(0, 0, 10), v(0, 0, 0), v(0, 1, 0));
    for _ in 0..50 {
        camera.orbit(Fx(100000), Fx(0));
        assert!(0 <= camera.yaw.0 && camera.yaw.0 < 411774);
    }
}

#[test]
fn zoom_walks_the_radius() {
    let mut camera = Camera::new(v(0, 0, 10), v(0, 0, 0), v(0, 1, 0));
    let before = camera.radius.0;
    camera.zoom(Fx::from_int(2));
    assert_eq!(camera.radius.0, before - 2 * 65536);
    camera.zoom(Fx::from_int(-3));
    assert_eq!(camera.radius.0, before + 65536);
}

#[test]
fn change_flag_reports_once_per_change() {
    let mut camera = Camera::new(v(0, 0, 10), v(0, 0, 0), v(0, 1, 0));
    assert!(camera.check_if_changed());
    assert!(!camera.check_if_changed());
    camera.zoom(Fx::from_int(1));
    assert!(camera.check_if_changed());
    assert!(!camera.check_if_changed());
}

#[test]
fn change_basis_turns_screen_forward_into_view_direction() {
    // Looking from +z toward the origin, the camera-space forward ray
    // (0, 0, -1) must come out pointing along world -z.
    let camera = Camera::new(v(0, 0, 10), v(0, 0, 0), v(0, 1, 0));
    let d = camera.change_basis(v(0, 0, -1));
    assert_eq!((d.x.0, d.y.0), (0, 0));
    assert!(d.z.0 < -60000, "forward ray must point into the scene");
}
