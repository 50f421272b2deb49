use lux::camera::Camera;
use lux::fixed::{self, HALF, LIMIT, SCALE};
use lux::random::{ball_candidate, random_in_unit_sphere, uniform};
use lux::ray::{HitRecord, Ray};
use lux::render::{quantize, render, sample_fraction, to_channel};
use lux::scatter::{reflect, refract, scatter, schlick};
use lux::scene::{Geometry, Material, Object, Scene};
use lux::trace::{shade, trace, trace_step, Step, MAX_DEPTH};
use lux::vec3::Vec3;
use rand::rngs::StdRng;
use rand::SeedableRng;

fn v(x: i64, y: i64, z: i64) -> Vec3 {
    Vec3::new(x, y, z)
}

fn sphere(center: Vec3, radius: i64, material: Material) -> Object {
    Object { geometry: Geometry::Sphere(center, radius), material }
}

fn one_sphere_scene(material: Material) -> Scene {
    let mut scene = Scene::new();
    scene.add_object(sphere(v(0, 0, -SCALE), HALF, material));
    scene
}

fn grey() -> Material {
    Material::Lambert(v(HALF, HALF, HALF))
}

#[test]
fn fixed_point_arithmetic() {
    assert_eq!(fixed::mul(HALF, HALF), 250_000);
    assert_eq!(fixed::mul(-HALF, HALF), -250_000);
    assert_eq!(fixed::div(SCALE, 4 * SCALE), 250_000);
    assert_eq!(fixed::div(SCALE, -4 * SCALE), -250_000);
    assert_eq!(fixed::div(SCALE, 0), 0);
    assert_eq!(fixed::sqrt(250_000), HALF);
    assert_eq!(fixed::sqrt(2 * SCALE), 1_414_213);
    assert_eq!(fixed::sqrt(-SCALE), 0);
    assert_eq!(fixed::add(LIMIT, LIMIT), LIMIT);
    assert_eq!(fixed::sub(-LIMIT, LIMIT), -LIMIT);
    assert_eq!(fixed::neg(i64::MIN), LIMIT);
    assert_eq!(fixed::min(3 * SCALE, SCALE), SCALE);
    assert_eq!(fixed::div_count(-7, 2), -3);
}

#[test]
fn vector_operations() {
    let a = v(SCALE, 2 * SCALE, 3 * SCALE);
    let b = v(4 * SCALE, 5 * SCALE, 6 * SCALE);
    assert_eq!(a.dot(&b), 32 * SCALE);
    assert_eq!(a.cross(&b), v(-3 * SCALE, 6 * SCALE, -3 * SCALE));
    assert_eq!(a.add(&b), v(5 * SCALE, 7 * SCALE, 9 * SCALE));
    assert_eq!(b.sub(&a), v(3 * SCALE, 3 * SCALE, 3 * SCALE));
    assert_eq!(a.scale(HALF), v(HALF, SCALE, 1_500_000));
    assert_eq!(a.mul_elem(&b), v(4 * SCALE, 10 * SCALE, 18 * SCALE));
    assert_eq!(v(3 * SCALE, 4 * SCALE, 0).length(), 5 * SCALE);
    assert_eq!(v(3 * SCALE, 4 * SCALE, 0).normalize(), v(600_000, 800_000, 0));
    assert_eq!(v(0, 0, 0).normalize(), v(0, 0, 0));
    assert_eq!(a.neg(), v(-SCALE, -2 * SCALE, -3 * SCALE));
}

#[test]
fn scene_keeps_insertion_order() {
    let mut scene = Scene::new();
    assert_eq!(scene.objects().len(), 0);
    let first = sphere(v(0, 0, -SCALE), HALF, grey());
    let second = sphere(v(SCALE, 0, -SCALE), HALF, Material::Dielectric(1_500_000));
    scene.add_object(first);
    scene.add_object(second);
    assert_eq!(scene.objects().len(), 2);
    assert_eq!(scene.objects()[0], first);
    assert_eq!(scene.objects()[1], second);
}

#[test]
fn sphere_intersection_exactness() {
    let scene = one_sphere_scene(grey());
    let ray = Ray::new(v(0, 0, 0), v(0, 0, -SCALE));
    let hit = ray.closest_intersection(&scene).unwrap();
    assert_eq!(hit.distance, HALF);
    assert_eq!(hit.normal, v(0, 0, SCALE));
    assert_eq!(hit.material, grey());
    assert_eq!(ray.point_along_ray(hit.distance), v(0, 0, -HALF));
}

#[test]
fn nearest_of_two_spheres_wins() {
    let mut scene = Scene::new();
    scene.add_object(sphere(v(0, 0, -3 * SCALE), HALF, Material::Dielectric(1_500_000)));
    scene.add_object(sphere(v(0, 0, -SCALE), HALF, grey()));
    let ray = Ray::new(v(0, 0, 0), v(0, 0, -SCALE));
    let hit = ray.closest_intersection(&scene).unwrap();
    assert_eq!(hit.distance, HALF);
    assert_eq!(hit.material, grey());
}

#[test]
fn equal_distance_first_object_wins() {
    let mut scene = Scene::new();
    scene.add_object(sphere(v(0, 0, -SCALE), HALF, grey()));
    scene.add_object(sphere(v(0, 0, -SCALE), HALF, Material::Dielectric(1_500_000)));
    let ray = Ray::new(v(0, 0, 0), v(0, 0, -SCALE));
    assert_eq!(ray.closest_intersection(&scene).unwrap().material, grey());
}

#[test]
fn origin_inside_sphere_takes_far_root() {
    let scene = one_sphere_scene(grey());
    let ray = Ray::new(v(0, 0, -SCALE), v(0, 0, -SCALE));
    assert!(ray.closest_intersection(&scene).is_none());
    let ray = Ray::new(v(0, 0, -900_000), v(0, 0, -SCALE));
    let hit = ray.closest_intersection(&scene).unwrap();
    assert_eq!(hit.distance, 600_000);
    assert_eq!(hit.normal, v(0, 0, -SCALE));
}

#[test]
fn no_hit_returns_sky() {
    let scene = one_sphere_scene(grey());
    let ray = Ray::new(v(0, 0, 0), v(0, 0, SCALE));
    assert!(ray.closest_intersection(&scene).is_none());
    let sky = v(750_000, 850_000, SCALE);
    assert_eq!(ray.sample_skybox(), sky);
    let mut rng = StdRng::seed_from_u64(1);
    assert_eq!(trace(&scene, &ray, 0, &mut rng), sky);
    let up = Ray::new(v(0, 0, 0), v(0, SCALE, 0));
    assert_eq!(up.sample_skybox(), v(HALF, 700_000, SCALE));
}

#[test]
fn hollow_shell_normal_inversion() {
    let ray = Ray::new(v(0, 0, 0), v(0, 0, -SCALE));
    let solid = ray.hit_object(&sphere(v(0, 0, -SCALE), HALF, grey())).unwrap();
    let hollow = ray.hit_object(&sphere(v(0, 0, -SCALE), -HALF, grey())).unwrap();
    assert_eq!(hollow.distance, solid.distance);
    assert_eq!(hollow.normal, solid.normal.neg());
    assert_eq!(hollow.normal, v(0, 0, -SCALE));
}

#[test]
fn metallic_absorption() {
    let hit = HitRecord { distance: 0, normal: v(0, 0, SCALE), material: Material::Metalic(v(HALF, HALF, HALF), SCALE) };
    let ray = Ray::new(v(0, 0, 0), v(600_000, 0, -800_000));
    assert!(scatter(&ray, &hit, &v(0, 0, -900_000), 0).is_none());
    let (out, attenuation) = scatter(&ray, &hit, &v(0, 0, 0), 0).unwrap();
    assert_eq!(out.direction, v(600_000, 0, 800_000));
    assert_eq!(attenuation, v(HALF, HALF, HALF));
}

#[test]
fn metallic_fuzz_clamped_to_one() {
    let base = HitRecord { distance: 0, normal: v(0, 0, SCALE), material: Material::Metalic(v(HALF, HALF, HALF), SCALE) };
    let fuzzy = HitRecord { material: Material::Metalic(v(HALF, HALF, HALF), 5 * SCALE), ..base };
    let ray = Ray::new(v(0, 0, 0), v(600_000, 0, -800_000));
    let p = v(0, 500_000, 0);
    assert_eq!(scatter(&ray, &base, &p, 0), scatter(&ray, &fuzzy, &p, 0));
}

#[test]
fn lambert_scatter_follows_normal() {
    let hit = HitRecord { distance: HALF, normal: v(0, 0, SCALE), material: grey() };
    let ray = Ray::new(v(0, 0, 0), v(0, 0, -SCALE));
    let (out, attenuation) = scatter(&ray, &hit, &v(0, 0, 0), 0).unwrap();
    assert_eq!(out.origin, v(0, 0, -HALF));
    assert_eq!(out.direction, v(0, 0, SCALE));
    assert_eq!(attenuation, v(HALF, HALF, HALF));
}

#[test]
fn schlick_boundary() {
    assert_eq!(schlick(SCALE, 1_500_000), 40_000);
    assert_eq!(schlick(SCALE, SCALE), 0);
    assert_eq!(schlick(0, 1_500_000), SCALE);
}

#[test]
fn reflect_and_refract() {
    assert_eq!(reflect(&v(600_000, -800_000, 0), &v(0, SCALE, 0)), v(600_000, 800_000, 0));
    assert_eq!(refract(&v(0, -SCALE, 0), &v(0, SCALE, 0), 666_666), Some(v(0, -SCALE, 0)));
    assert_eq!(refract(&v(600_000, -800_000, 0), &v(0, SCALE, 0), SCALE), Some(v(600_000, -800_000, 0)));
    assert_eq!(refract(&v(800_000, -600_000, 0), &v(0, SCALE, 0), 1_500_000), None);
}

#[test]
fn dielectric_reflects_or_refracts() {
    let hit = HitRecord { distance: HALF, normal: v(0, 0, SCALE), material: Material::Dielectric(1_500_000) };
    let ray = Ray::new(v(0, 0, 0), v(0, 0, -SCALE));
    let (reflected, white) = scatter(&ray, &hit, &v(0, 0, 0), 0).unwrap();
    assert_eq!(reflected.direction, v(0, 0, SCALE));
    assert_eq!(white, v(SCALE, SCALE, SCALE));
    let (refracted, _) = scatter(&ray, &hit, &v(0, 0, 0), SCALE - 1).unwrap();
    assert_eq!(refracted.direction, v(0, 0, -SCALE));
    assert_eq!(refracted.origin, v(0, 0, -HALF));
}

#[test]
fn dielectric_total_internal_reflection() {
    let hit = HitRecord { distance: 0, normal: v(0, SCALE, 0), material: Material::Dielectric(1_500_000) };
    let ray = Ray::new(v(0, 0, 0), v(800_000, 600_000, 0));
    let (out, _) = scatter(&ray, &hit, &v(0, 0, 0), SCALE - 1).unwrap();
    assert_eq!(out.direction, v(800_000, -600_000, 0));
}

#[test]
fn depth_bound_gives_black() {
    let ray = Ray::new(v(0, 0, 0), v(0, 0, -SCALE));
    let materials = [grey(), Material::Metalic(v(SCALE, SCALE, SCALE), 0), Material::Dielectric(1_500_000)];
    for m in materials {
        let scene = one_sphere_scene(m);
        let mut rng = StdRng::seed_from_u64(3);
        assert_eq!(trace(&scene, &ray, MAX_DEPTH, &mut rng), v(0, 0, 0));
        assert_eq!(trace_step(&scene, &ray, MAX_DEPTH, &v(0, 0, 0), 0), Step::Finish(v(0, 0, 0)));
    }
}

#[test]
fn trace_step_bounces_below_depth() {
    let scene = one_sphere_scene(grey());
    let ray = Ray::new(v(0, 0, 0), v(0, 0, -SCALE));
    let step = trace_step(&scene, &ray, MAX_DEPTH - 1, &v(0, 0, 0), 0);
    assert_eq!(step, Step::Bounce(Ray::new(v(0, 0, -HALF), v(0, 0, SCALE)), v(HALF, HALF, HALF)));
}

#[test]
fn one_bounce_to_sky() {
    let scene = one_sphere_scene(Material::Metalic(v(HALF, SCALE, SCALE), 0));
    let ray = Ray::new(v(0, 0, 0), v(0, 0, -SCALE));
    let mut rng = StdRng::seed_from_u64(9);
    assert_eq!(trace(&scene, &ray, 0, &mut rng), v(375_000, 850_000, SCALE));
}

#[test]
fn shade_applies_attenuations() {
    let atts = vec![v(HALF, SCALE, SCALE), v(HALF, HALF, SCALE)];
    assert_eq!(shade(&atts, &v(SCALE, SCALE, 2 * SCALE)), v(250_000, HALF, 2 * SCALE));
    assert_eq!(shade(&Vec::new(), &v(1, 2, 3)), v(1, 2, 3));
}

#[test]
fn camera_basis() {
    let cam = Camera::new(v(0, 0, 0), v(0, 0, -SCALE), v(0, SCALE, 0), SCALE, 2 * SCALE);
    assert_eq!(cam.position, v(0, 0, 0));
    assert_eq!(cam.lower_left_corner, v(-2 * SCALE, -SCALE, -SCALE));
    assert_eq!(cam.width, v(4 * SCALE, 0, 0));
    assert_eq!(cam.height, v(0, 2 * SCALE, 0));
    let centre = cam.ray_for(HALF, HALF);
    assert_eq!(centre, Ray::new(v(0, 0, 0), v(0, 0, -SCALE)));
}

#[test]
fn gamma_round_trip() {
    assert_eq!(to_channel(250_000), 127);
    assert_eq!(to_channel(SCALE), 255);
    assert_eq!(to_channel(4 * SCALE), 255);
    assert_eq!(to_channel(0), 0);
    assert_eq!(to_channel(-SCALE), 0);
    assert_eq!(to_channel(10_000), 25);
    assert_eq!(quantize(&v(250_000, SCALE, 0), 1), (127, 255, 0));
    assert_eq!(quantize(&v(SCALE, 4 * SCALE, 0), 4), (127, 255, 0));
}

#[test]
fn sample_fractions_flip_rows() {
    assert_eq!(sample_fraction(1, 4, 0), 250_000);
    assert_eq!(sample_fraction(1, 4, HALF), 375_000);
    assert_eq!(sample_fraction(4, 4, 0), SCALE);
}

#[test]
fn random_draws_in_range() {
    let mut rng = StdRng::seed_from_u64(5);
    let mut seen = Vec::new();
    for _ in 0..100 {
        let u = uniform(&mut rng);
        assert!((0..SCALE).contains(&u));
        seen.push(u);
        let p = random_in_unit_sphere(&mut rng);
        assert!(p.dot(&p) < SCALE);
    }
    assert!(seen.iter().any(|&u| u != seen[0]));
}

#[test]
fn determinism_under_fixed_seed() {
    let mut scene = Scene::new();
    scene.add_object(sphere(v(0, 0, -SCALE), HALF, grey()));
    scene.add_object(sphere(v(0, -100_500_000, -SCALE), 100 * SCALE, Material::Lambert(v(0, 800_000, 0))));
    scene.add_object(sphere(v(SCALE, 0, -SCALE), HALF, Material::Metalic(v(400_000, 400_000, 400_000), 0)));
    scene.add_object(sphere(v(-SCALE, 0, -SCALE), HALF, Material::Dielectric(1_500_000)));
    scene.add_object(sphere(v(-SCALE, 0, -SCALE), -450_000, Material::Dielectric(1_500_000)));
    let cam = Camera::new(v(0, 0, 0), v(0, 0, -SCALE), v(0, SCALE, 0), SCALE, 2 * SCALE);
    let a = render(&scene, &cam, 8, 4, 3, 42);
    let b = render(&scene, &cam, 8, 4, 3, 42);
    assert_eq!(a.len(), 3 * 8 * 4);
    assert_eq!(a, b);
}

#[test]
fn empty_scene_renders_sky() {
    let scene = Scene::new();
    let cam = Camera::new(v(0, 0, 0), v(0, 0, -SCALE), v(0, SCALE, 0), SCALE, SCALE);
    let img = render(&scene, &cam, 2, 2, 1, 0);
    assert_eq!(img.len(), 12);
    for px in img.chunks(3) {
        assert!(px[2] == 255 && px[0] <= px[1] && px[1] <= px[2]);
    }
    assert!(render(&scene, &cam, 0, 5, 1, 0).is_empty());
}

#[test]
fn ray_pointing_away_from_all_objects_sees_sky() {
    let mut scene = Scene::new();
    scene.add_object(sphere(v(0, 0, -SCALE), HALF, grey()));
    scene.add_object(sphere(v(0, -100_500_000, -SCALE), 100 * SCALE, grey()));
    let ray = Ray::new(v(0, 0, 0), v(0, 600_000, 800_000));
    assert!(ray.closest_intersection(&scene).is_none());
    let mut rng = StdRng::seed_from_u64(11);
    assert_eq!(trace(&scene, &ray, 0, &mut rng), v(600_000, 760_000, SCALE));
}

#[test]
fn ball_candidate_accepts_inside_only() {
    assert_eq!(ball_candidate(HALF, HALF, HALF), Some(v(0, 0, 0)));
    assert_eq!(ball_candidate(750_000, HALF, 250_000), Some(v(HALF, 0, -HALF)));
    assert_eq!(ball_candidate(0, HALF, HALF), None);
    assert_eq!(ball_candidate(0, 0, 0), None);
    assert_eq!(ball_candidate(999_999, HALF, HALF), Some(v(999_998, 0, 0)));
}

#[test]
fn render_of_missing_scene_has_full_blue() {
    let mut scene = Scene::new();
    scene.add_object(sphere(v(0, 0, 10 * SCALE), HALF, grey()));
    let cam = Camera::new(v(0, 0, 0), v(0, 0, -SCALE), v(0, SCALE, 0), SCALE, 2 * SCALE);
    let img = render(&scene, &cam, 4, 2, 1, 7);
    assert_eq!(img.len(), 24);
    for px in img.chunks(3) {
        assert_eq!(px[2], 255);
    }
}
