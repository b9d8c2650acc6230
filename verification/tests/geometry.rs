use raytracer::color::Color;
use raytracer::cube::Cube;
use raytracer::fx::{Fx, FX_ONE};
use raytracer::material::{Diffuse, Material};
use raytracer::sphere::Sphere;
use raytracer::texture::Texture;
use raytracer::vec3::Vec3;

fn plain_material(color: Color) -> Material {
    Material::new(
        Diffuse::Color(color),
        10,
        (Fx(39322), Fx(19661)),
        Fx(0),
        Fx(0),
        Fx(FX_ONE),
    )
}

fn v(x: i64, y: i64, z: i64) -> Vec3 {
    Vec3::new(Fx::from_int(x), Fx::from_int(y), Fx::from_int(z))
}

#[test]
fn sphere_head_on_hit_distance_and_normal() {
    // A sphere of radius r at the origin, a ray from (0,0,5) toward
    // (0,0,-1): the hit is exactly at distance 5 - r with normal (0,0,1).
    for r in 1i64..4 {
        let sphere = Sphere::new(v(0, 0, 0), Fx::from_int(r), plain_material(Color::new(255, 255, 255)));
        let hit = sphere.ray_intersect(v(0, 0, 5), v(0, 0, -1));
        assert!(hit.is_intersecting);
        assert_eq!(hit.distance.0, (5 - r as i128) * 65536);
        assert_eq!(hit.normal.x.0, 0);
        assert_eq!(hit.normal.y.0, 0);
        assert_eq!(hit.normal.z.0, 65536);
    }
}

#[test]
fn sphere_behind_ray_misses() {
    let sphere = Sphere::new(v(0, 0, 10), Fx::from_int(1), plain_material(Color::new(9, 9, 9)));
    let hit = sphere.ray_intersect(v(0, 0, 5), v(0, 0, -1));
    assert!(!hit.is_intersecting);
}

#[test]
fn cube_parallel_slab_outside_misses() {
    // Direction component exactly 0 on the x axis, origin outside the
    // cube's x slab: the slab method must report no hit.
    let cube = Cube::new(v(-1, -1, -1), v(1, 1, 1), plain_material(Color::new(200, 10, 10)));
    let textures: Vec<Texture> = Vec::new();
    let hit = cube.ray_intersect(v(5, 0, 5), v(0, 0, -1), &textures);
    assert!(!hit.is_intersecting);
    let hit_y = cube.ray_intersect(v(0, -3, 5), v(-1, 0, -1), &textures);
    assert!(!hit_y.is_intersecting);
}

#[test]
fn cube_head_on_hit_face_normal() {
    let cube = Cube::new(v(-1, -1, -1), v(1, 1, 1), plain_material(Color::new(200, 10, 10)));
    let textures: Vec<Texture> = Vec::new();
    let hit = cube.ray_intersect(v(0, 0, 5), v(0, 0, -1), &textures);
    assert!(hit.is_intersecting);
    assert_eq!(hit.distance.0, 4 * 65536);
    assert_eq!((hit.normal.x.0, hit.normal.y.0, hit.normal.z.0), (0, 0, 65536));
    assert_eq!(hit.color, Color::new(200, 10, 10));
}

#[test]
fn cube_parallel_slab_inside_still_hits() {
    // A ray parallel to the x slab but inside it must still hit the cube.
    let cube = Cube::new(v(-1, -1, -1), v(1, 1, 1), plain_material(Color::new(1, 2, 3)));
    let textures: Vec<Texture> = Vec::new();
    let hit = cube.ray_intersect(v(0, 0, 5), v(0, 0, -1), &textures);
    assert!(hit.is_intersecting);
}

#[test]
fn textured_cube_samples_atlas_face() {
    // A 96x16 atlas: each 16-pixel column one flat color; the +z face
    // reads face 3, so a head-on hit from +z must answer column 3's color.
    let mut pixels: Vec<Color> = Vec::new();
    let face_colors = [
        Color::new(10, 0, 0),
        Color::new(0, 10, 0),
        Color::new(0, 0, 10),
        Color::new(40, 40, 0),
        Color::new(0, 40, 40),
        Color::new(40, 0, 40),
    ];
    for _y in 0..16 {
        for x in 0..96 {
            pixels.push(face_colors[x / 16]);
        }
    }
    let atlas = Texture::from_pixels(96, 16, pixels);
    let textures = vec![atlas];
    let mat = Material::new(
        Diffuse::Texture(0),
        10,
        (Fx(39322), Fx(19661)),
        Fx(0),
        Fx(0),
        Fx(FX_ONE),
    );
    let cube = Cube::new(v(-1, -1, -1), v(1, 1, 1), mat);
    let hit = cube.ray_intersect(v(0, 0, 5), v(0, 0, -1), &textures);
    assert!(hit.is_intersecting);
    assert_eq!(hit.color, Color::new(40, 40, 0));
}

#[test]
fn textured_cube_with_dangling_index_answers_sentinel() {
    let textures: Vec<Texture> = Vec::new();
    let mat = Material::new(
        Diffuse::Texture(7),
        10,
        (Fx(39322), Fx(19661)),
        Fx(0),
        Fx(0),
        Fx(FX_ONE),
    );
    let cube = Cube::new(v(-1, -1, -1), v(1, 1, 1), mat);
    let hit = cube.ray_intersect(v(0, 0, 5), v(0, 0, -1), &textures);
    assert!(hit.is_intersecting);
    assert_eq!(hit.color, Color::new(255, 0, 255));
}
