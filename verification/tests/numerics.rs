use raytracer::color::Color;
use raytracer::framebuffer::Framebuffer;
use raytracer::framebuffer::Line;
use raytracer::fx::{Fx, FX_ONE};
use raytracer::grid::Grid;
use raytracer::material::{Diffuse, Material};
use raytracer::texture::Texture;
use raytracer::trig;
use raytracer::vec3::Vec3;

#[test]
fn fixed_point_arithmetic_is_exact_on_integers() {
    let three = Fx::from_int(3);
    let four = Fx::from_int(-4);
    assert_eq!(three.add(four).0, -65536);
    assert_eq!(three.mul(four).0, -12 * 65536);
    assert_eq!(three.sub(four).0, 7 * 65536);
    assert_eq!(Fx::from_int(12).div(three).0, 4 * 65536);
    assert_eq!(Fx::from_int(4).sqrt().0, 2 * 65536);
    assert_eq!(Fx::from_int(2).sqrt().0, 92681);
    assert_eq!(Fx(-5).abs().0, 5);
    assert_eq!(Fx(7).clamp(Fx(0), Fx(3)).0, 3);
}

#[test]
fn trig_hits_its_anchor_values() {
    assert_eq!(trig::cos(Fx(0)).0, 65536);
    assert_eq!(trig::sin(Fx(0)).0, 0);
    assert_eq!(trig::wrap_angle(Fx(-1)).0, 411773);
    assert_eq!(trig::wrap_angle(Fx(411774)).0, 0);
    // cos(pi) and sin(pi/2) land within a few thousandths of the poles
    let cpi = trig::cos(Fx(trig::FX_PI)).0;
    assert!((cpi + 65536).abs() < 300, "cos(pi) was {cpi}");
    let sp2 = trig::sin(Fx(trig::FX_HALF_PI)).0;
    assert!((sp2 - 65536).abs() < 300, "sin(pi/2) was {sp2}");
    // atan2 quadrant anchors
    assert_eq!(trig::atan2(Fx(65536), Fx(0)).0, trig::FX_HALF_PI);
    assert_eq!(trig::atan2(Fx(0), Fx(0)).0, 0);
    let q = trig::atan2(Fx(65536), Fx(65536)).0;
    assert!((q - trig::FX_QUARTER_PI).abs() < 300, "atan2(1,1) was {q}");
}

#[test]
fn color_arithmetic_saturates_and_packs() {
    let a = Color::new(200, 100, 0);
    let b = Color::new(100, 100, 100);
    assert_eq!(a.add(b), Color::new(255, 200, 100));
    assert_eq!(a.scale(Fx(32768)), Color::new(100, 50, 0));
    assert_eq!(a.scale(Fx(4 * 65536)), Color::new(255, 255, 0));
    assert_eq!(a.to_hex(), 0x00C86400);
    assert_eq!(Color::from_hex(0x00C86400), a);
    assert_eq!(Color::from_hex(Color::new(3, 5, 7).to_hex()), Color::new(3, 5, 7));
}

#[test]
fn normalize_gives_unit_axis_vectors() {
    let v = Vec3::new(Fx::from_int(0), Fx::from_int(-9), Fx::from_int(0));
    let u = v.normalize();
    assert_eq!((u.x.0, u.y.0, u.z.0), (0, -65536, 0));
    let z = Vec3::zero().normalize();
    assert_eq!((z.x.0, z.y.0, z.z.0), (0, 0, 0));
}

#[test]
fn texture_lookup_answers_sentinel_outside() {
    let pixels = vec![Color::new(1, 2, 3), Color::new(4, 5, 6)];
    let t = Texture::from_pixels(2, 1, pixels);
    assert_eq!(t.get_color(0, 0), Color::new(1, 2, 3));
    assert_eq!(t.get_color(1, 0), Color::new(4, 5, 6));
    assert_eq!(t.get_color(2, 0), Color::new(255, 0, 255));
    assert_eq!(t.get_color(0, 1), Color::new(255, 0, 255));
    let b = Texture::black();
    assert_eq!(b.get_color(0, 0), Color::new(0, 0, 0));
}

#[test]
fn framebuffer_fills_and_draws_lines() {
    let mut fb = Framebuffer::new(8, 8, Color::new(0, 0, 0));
    assert_eq!(fb.buffer.len(), 64);
    assert!(fb.buffer.iter().all(|p| *p == 0));
    fb.set_pen(Color::new(255, 255, 255));
    fb.line(
        Vec3::new(Fx::from_int(1), Fx::from_int(1), Fx(0)),
        Vec3::new(Fx::from_int(6), Fx::from_int(6), Fx(0)),
    );
    // the diagonal cells got the pen, a corner did not
    assert_eq!(fb.buffer[1 * 8 + 1], 0x00FFFFFF);
    assert_eq!(fb.buffer[6 * 8 + 6], 0x00FFFFFF);
    assert_eq!(fb.buffer[7 * 8 + 0], 0);
}

#[test]
fn grid_places_cubes_only_inside_bounds() {
    let mat = Material::new(
        Diffuse::Color(Color::new(9, 9, 9)),
        10,
        (Fx(39322), Fx(19661)),
        Fx(0),
        Fx(0),
        Fx(FX_ONE),
    );
    let mut grid = Grid::new(Fx(FX_ONE), 4, 4, 4);
    grid.add_cube(1, 2, 3, mat);
    assert_eq!(grid.objects.len(), 1);
    grid.add_cube(4, 0, 0, mat);
    assert_eq!(grid.objects.len(), 1, "out-of-bounds cell must be ignored");
    let layer = vec![(0usize, 0usize, mat), (1, 1, mat), (9, 9, mat)];
    grid.add_layer(0, &layer);
    assert_eq!(grid.objects.len(), 3, "layer adds only in-bounds cells");
    grid.add_layer(7, &layer);
    assert_eq!(grid.objects.len(), 3, "out-of-bounds layer is ignored");
}
