use raytracer::color::Color;
use raytracer::fx::Fx;
use raytracer::light::DayLight;
use raytracer::render::calculate_background_color;
use raytracer::vec3::Vec3;

fn v(x: i64, y: i64, z: i64) -> Vec3 {
    Vec3::new(Fx::from_int(x), Fx::from_int(y), Fx::from_int(z))
}

fn sun() -> DayLight {
    DayLight::new(v(0, 10, 0), v(0, 0, 0), Fx::from_int(10), Fx(0), Color::new(255, 240, 200), Fx(0))
}

#[test]
fn sky_anchors_at_dawn_midday_and_night() {
    // The caster's sky: dark night at angle zero, flat day blue at midday,
    // dark night once the dusk blend has run out.
    assert_eq!(calculate_background_color(Fx(0)), Color::new(0, 0, 50));
    assert_eq!(calculate_background_color(Fx(68629)), Color::new(135, 206, 250));
    assert_eq!(calculate_background_color(Fx(137257)), Color::new(135, 206, 250));
    assert_eq!(calculate_background_color(Fx(300000)), Color::new(0, 0, 50));
}

#[test]
fn sky_dawn_midpoint_is_the_orange_anchor() {
    // Halfway into the sunrise segment the sub-blend lands exactly on the
    // orange anchor (220, 162, 30): ratio 1/2, sub-ratio 1.
    // angle = DAY_MID / 2, where DAY_MID = 68629; 34315 gives ratio 32768.
    let mid = calculate_background_color(Fx(34314));
    // one step under the midpoint: still blending toward orange
    assert!(mid.r >= 210 && mid.g >= 150 && mid.b <= 40);
}

#[test]
fn day_light_background_method_midday_is_blue() {
    let s = sun();
    assert_eq!(s.calculate_background_color(Fx(70000)), Color::new(135, 206, 250));
    assert_eq!(s.calculate_background_color(Fx(0)), Color::new(0, 0, 50));
    assert_eq!(s.calculate_background_color(Fx(400000)), Color::new(0, 0, 50));
}

#[test]
fn day_light_intensity_ramps_to_one_at_midday() {
    let mut s = sun();
    s.translate_day_light(Fx(68629));
    assert_eq!(s.day_angle.0, 68629);
    assert_eq!(s.intensity.0, 65536);
}

#[test]
fn day_light_intensity_rises_linearly_before_midday() {
    let mut s = sun();
    // half way to midday: ratio = a / DAY_MID, truncated
    s.translate_day_light(Fx(34314));
    assert_eq!(s.intensity.0, 34314i128 * 65536 / 68629);
}

#[test]
fn day_light_goes_dark_after_sunset() {
    let mut s = sun();
    s.translate_day_light(Fx(200000));
    assert_eq!(s.intensity.0, 0);
}

#[test]
fn day_light_stays_dark_deep_at_night() {
    // Even a light that carried full daytime intensity drops to zero when
    // the wrapped angle lands deep in the night, past 3 pi / 2.
    let mut s = sun();
    s.translate_day_light(Fx(68629));
    assert_eq!(s.intensity.0, 65536);
    s.translate_day_light(Fx(350000 - 68629));
    assert_eq!(s.day_angle.0, 350000);
    assert_eq!(s.intensity.0, 0);
    // and wrapping backward from dawn into the night goes dark too
    let mut back = sun();
    back.translate_day_light(Fx(68629));
    back.translate_day_light(Fx(-100000));
    assert_eq!(back.day_angle.0, 411774 + 68629 - 100000);
    assert_eq!(back.intensity.0, 0);
}

#[test]
fn day_light_angle_wraps_into_one_turn() {
    let mut s = sun();
    s.translate_day_light(Fx(411774 + 5));
    assert_eq!(s.day_angle.0, 5);
    s.translate_day_light(Fx(-10));
    assert_eq!(s.day_angle.0, 411769);
}

#[test]
fn day_light_rides_its_orbit_circle() {
    let mut s = sun();
    // angle wraps to zero: position must be center + (radius, 0) in x/y
    s.translate_day_light(Fx(411774));
    assert_eq!(s.day_angle.0, 0);
    assert_eq!(s.position.x.0, 10 * 65536);
    assert_eq!(s.position.y.0, 0);
    assert_eq!(s.position.z.0, 0);
}
