use raytracer::color::Color;
use raytracer::fx::{Fx, FX_ONE};
use raytracer::intersect::Intersect;
use raytracer::light::{AmbientLight, Light, PointLight};
use raytracer::material::{Diffuse, Material};
use raytracer::object::Object;
use raytracer::render::{cast_ray, cast_shadow, reflect, refract};
use raytracer::sphere::Sphere;
use raytracer::texture::Texture;
use raytracer::vec3::Vec3;

fn v(x: i64, y: i64, z: i64) -> Vec3 {
    Vec3::new(Fx::from_int(x), Fx::from_int(y), Fx::from_int(z))
}

fn matte(color: Color) -> Material {
    Material::new(
        Diffuse::Color(color),
        10,
        (Fx(39322), Fx(19661)),
        Fx(0),
        Fx(0),
        Fx(FX_ONE),
    )
}

fn mirror() -> Material {
    Material::new(
        Diffuse::Color(Color::new(255, 255, 255)),
        10,
        (Fx(39322), Fx(19661)),
        Fx(FX_ONE),
        Fx(0),
        Fx(FX_ONE),
    )
}

#[test]
fn reflect_flips_the_normal_component() {
    // dot(reflect(d, n), n) == -dot(d, n) for a face normal, exactly, and
    // reflecting twice gives the original direction back.
    let n = v(0, 0, 1);
    let samples = [v(1, 2, -3), v(-7, 5, -1), v(0, 0, -1), v(3, -4, 12)];
    for d in samples {
        let r = reflect(d, n);
        assert_eq!(r.dot(n).0, -d.dot(n).0);
        let back = reflect(r, n);
        assert_eq!((back.x.0, back.y.0, back.z.0), (d.x.0, d.y.0, d.z.0));
    }
    let nx = v(-1, 0, 0);
    for d in samples {
        let r = reflect(d, nx);
        assert_eq!(r.dot(nx).0, -d.dot(nx).0);
        let back = reflect(r, nx);
        assert_eq!((back.x.0, back.y.0, back.z.0), (d.x.0, d.y.0, d.z.0));
    }
}

#[test]
fn refract_normal_incidence_goes_straight_through() {
    // A head-on ray refracts into the medium and back out unchanged,
    // whatever the index: the round trip through parallel faces stays
    // parallel to the original direction.
    let d = v(0, 0, -1);
    let n = v(0, 0, 1);
    for eta in [Fx(98304), Fx(FX_ONE), Fx(32768), Fx(300000)] {
        let into = refract(d, n, eta);
        assert_eq!((into.x.0, into.y.0, into.z.0), (0, 0, -65536));
        // leaving through the parallel exit face, whose outward normal
        // points the other way
        let out = refract(into, v(0, 0, -1), eta);
        assert_eq!((out.x.0, out.y.0, out.z.0), (0, 0, -65536));
    }
}

#[test]
fn shadow_attenuation_stays_within_unit_and_matches_formula() {
    // An occluder between the surface and the light: the shadow factor is
    // occluder distance over light distance, strictly inside (0, 1).
    let occluder = Object::Sphere(Sphere::new(v(0, 3, 0), Fx::from_int(1), matte(Color::new(50, 50, 50))));
    let objects = vec![occluder];
    let textures: Vec<Texture> = Vec::new();
    let light = Light::Point(PointLight::new(v(0, 10, 0), Color::new(255, 255, 255), Fx(FX_ONE)));
    let surface = Intersect::new(
        v(0, 0, 0),
        v(0, 1, 0),
        Fx::from_int(5),
        matte(Color::new(200, 200, 200)),
        Color::new(200, 200, 200),
    );
    let s = cast_shadow(&surface, &light, &objects, &textures);
    assert!(0 < s.0 && s.0 < 65536);

    // the declared formula: first occluder's distance over light distance
    let shadow_origin = surface.point.add(surface.normal.scale(Fx(7)));
    let light_dir = light.get_position().sub(surface.point).normalize();
    let light_distance = light.get_position().sub(shadow_origin).norm();
    let occ = objects[0].ray_intersect(shadow_origin, light_dir, &textures);
    assert!(occ.is_intersecting);
    let expected = occ.distance.div(light_distance).clamp(Fx(0), Fx(FX_ONE));
    assert_eq!(s.0, expected.0);
}

#[test]
fn shadow_is_zero_without_occluders() {
    let objects: Vec<Object> = Vec::new();
    let textures: Vec<Texture> = Vec::new();
    let light = Light::Point(PointLight::new(v(0, 10, 0), Color::new(255, 255, 255), Fx(FX_ONE)));
    let surface = Intersect::new(
        v(0, 0, 0),
        v(0, 1, 0),
        Fx::from_int(5),
        matte(Color::new(200, 200, 200)),
        Color::new(200, 200, 200),
    );
    let s = cast_shadow(&surface, &light, &objects, &textures);
    assert_eq!(s.0, 0);
}

#[test]
fn occluded_surface_sees_partial_shadow() {
    // Occluder far from the surface relative to the light: shadow strictly
    // between zero and one (soft, not binary).
    let occluder = Object::Sphere(Sphere::new(v(0, 8, 0), Fx::from_int(1), matte(Color::new(1, 1, 1))));
    let objects = vec![occluder];
    let textures: Vec<Texture> = Vec::new();
    let light = Light::Point(PointLight::new(v(0, 12, 0), Color::new(255, 255, 255), Fx(FX_ONE)));
    let surface = Intersect::new(
        v(0, 0, 0),
        v(0, 1, 0),
        Fx::from_int(3),
        matte(Color::new(10, 10, 10)),
        Color::new(10, 10, 10),
    );
    let s = cast_shadow(&surface, &light, &objects, &textures);
    assert!(s.0 > 0, "occluded surface must show some shadow");
    assert!(s.0 < 65536, "distant occluder must not shade fully");
}

#[test]
fn recursion_depth_cap_answers_deep_background() {
    // Past the maximum depth the caster answers the fixed deep background
    // immediately, whatever the scene.
    let a = Object::Sphere(Sphere::new(v(0, 0, -3), Fx::from_int(1), mirror()));
    let b = Object::Sphere(Sphere::new(v(0, 0, 3), Fx::from_int(1), mirror()));
    let objects = vec![a, b];
    let textures: Vec<Texture> = Vec::new();
    let lights: Vec<Light> = Vec::new();
    let ambient = AmbientLight::new(Color::new(255, 255, 255), Fx(6554));
    let c = cast_ray(v(0, 0, 0), v(0, 0, -1), &objects, &lights, Fx(0), &ambient, 4, &textures);
    assert_eq!(c, Color::new(25, 25, 120));
}

#[test]
fn facing_mirrors_terminate_at_the_depth_cap() {
    // Two fully mirrored spheres facing each other: casting terminates
    // within the fixed bound; a cast already at the cap sees the deep
    // background through the mirror after its one remaining bounce, and a
    // primary cast at depth zero bottoms out instead of looping.
    let a = Object::Sphere(Sphere::new(v(0, 0, -3), Fx::from_int(1), mirror()));
    let b = Object::Sphere(Sphere::new(v(0, 0, 3), Fx::from_int(1), mirror()));
    let objects = vec![a, b];
    let textures: Vec<Texture> = Vec::new();
    let lights: Vec<Light> = Vec::new();
    let ambient = AmbientLight::new(Color::new(255, 255, 255), Fx(6554));
    let c = cast_ray(v(0, 0, 0), v(0, 0, -1), &objects, &lights, Fx(0), &ambient, 3, &textures);
    assert_eq!(c, Color::new(25, 25, 120));
    let deep = cast_ray(v(0, 0, 0), v(0, 0, -1), &objects, &lights, Fx(0), &ambient, 0, &textures);
    // a finite color came back: the recursion bottomed out instead of looping
    let _ = deep;
}
