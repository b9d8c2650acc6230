use raytracer::camera::Camera;
use raytracer::color::Color;
use raytracer::framebuffer::Framebuffer;
use raytracer::fx::{Fx, FX_ONE};
use raytracer::light::{AmbientLight, DayLight, Light, PointLight};
use raytracer::material::{Diffuse, Material};
use raytracer::object::Object;
use raytracer::render::{render, render_row};
use raytracer::sphere::Sphere;
use raytracer::texture::Texture;
use raytracer::vec3::Vec3;

fn v(x: i64, y: i64, z: i64) -> Vec3 {
    Vec3::new(Fx::from_int(x), Fx::from_int(y), Fx::from_int(z))
}

fn white_matte() -> Material {
    Material::new(
        Diffuse::Color(Color::new(255, 255, 255)),
        10,
        (Fx(39322), Fx(19661)),
        Fx(0),
        Fx(0),
        Fx(FX_ONE),
    )
}

fn brightness(p: u32) -> u32 {
    let c = Color::from_hex(p);
    c.r as u32 + c.g as u32 + c.b as u32
}

#[test]
fn lit_sphere_center_outshines_its_silhouette() {
    // One white sphere in front of the camera, one point light directly in
    // front of it: the screen-center pixel is not the background and is
    // brighter than a pixel at the sphere's silhouette edge.
    let sphere = Object::Sphere(Sphere::new(v(0, 0, -5), Fx::from_int(2), white_matte()));
    let objects = vec![sphere];
    let textures: Vec<Texture> = Vec::new();
    let lights = vec![Light::Point(PointLight::new(
        v(0, 0, 0),
        Color::new(255, 255, 255),
        Fx(FX_ONE),
    ))];
    let ambient = AmbientLight::new(Color::new(255, 255, 255), Fx(6554));
    let camera = Camera::new(v(0, 0, 5), v(0, 0, -5), v(0, 1, 0));
    let day_angle = Fx(68629);  // midday: a flat blue background
    let w = 81usize;
    let h = 81usize;
    let row = render_row(&objects, &camera, &lights, day_angle, &ambient, &textures, w, h, 40);
    let background = Color::new(135, 206, 250).to_hex();
    let center = row[40];
    assert_ne!(center, background, "center pixel must show the sphere");
    // the sphere spans about 8 pixels of half-width here; sample near the rim
    let rim = row[47];
    assert!(
        brightness(center) > brightness(rim),
        "center {} must be brighter than rim {}",
        brightness(center),
        brightness(rim)
    );
    // far off to the side the ray misses and the sky shows
    assert_eq!(row[2], background);
}

#[test]
fn render_fills_the_framebuffer_with_the_scene() {
    let sphere = Object::Sphere(Sphere::new(v(0, 0, -5), Fx::from_int(2), white_matte()));
    let objects = vec![sphere];
    let textures: Vec<Texture> = Vec::new();
    let lights = vec![Light::Point(PointLight::new(
        v(0, 0, 2),
        Color::new(255, 255, 255),
        Fx(FX_ONE),
    ))];
    let ambient = AmbientLight::new(Color::new(255, 255, 255), Fx(6554));
    let camera = Camera::new(v(0, 0, 5), v(0, 0, -5), v(0, 1, 0));
    let sun = DayLight::new(v(0, 10, 0), v(0, 0, 0), Fx::from_int(10), Fx(68629), Color::new(255, 240, 200), Fx(0));
    let mut fb = Framebuffer::new(33, 33, Color::new(0, 0, 0));
    render(&mut fb, &objects, &camera, &lights, &sun, &ambient, &textures);
    assert_eq!(fb.buffer.len(), 33 * 33);
    let background = Color::new(135, 206, 250).to_hex();
    // a corner shows the sky, the middle shows the sphere
    assert_eq!(fb.buffer[0], background);
    let center = fb.buffer[16 * 33 + 16];
    assert_ne!(center, background);
    assert!(brightness(center) > 0);
}

#[test]
fn fully_occluded_object_still_shows_partial_shadow_softness() {
    // Occluder between the light and the lit sphere: the lit point's
    // shadow factor scales with occluder distance over light distance, so
    // the sphere is darker than without the occluder but not black.
    let lit = Object::Sphere(Sphere::new(v(0, 0, -5), Fx::from_int(2), white_matte()));
    // off the camera axis, but on the segment from the lit point to the light
    let blocker = Object::Sphere(Sphere::new(v(3, 0, 0), Fx::from_int(1), white_matte()));
    let with_blocker = vec![lit, blocker];
    let without_blocker = vec![lit];
    let textures: Vec<Texture> = Vec::new();
    let lights = vec![Light::Point(PointLight::new(
        v(6, 0, 2),
        Color::new(255, 255, 255),
        Fx(FX_ONE),
    ))];
    let ambient = AmbientLight::new(Color::new(255, 255, 255), Fx(6554));
    let camera = Camera::new(v(0, 0, 5), v(0, 0, -5), v(0, 1, 0));
    let day_angle = Fx(68629);
    let w = 33usize;
    let h = 33usize;
    let shaded = render_row(&with_blocker, &camera, &lights, day_angle, &ambient, &textures, w, h, 16);
    let unshaded = render_row(&without_blocker, &camera, &lights, day_angle, &ambient, &textures, w, h, 16);
    let b_shaded = brightness(shaded[16]);
    let b_unshaded = brightness(unshaded[16]);
    assert!(b_shaded < b_unshaded, "occlusion must darken the lit pixel");
    assert!(b_shaded > brightness(Color::new(0, 0, 0).to_hex()), "soft shadow keeps some light");
}
