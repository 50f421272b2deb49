//! The path integrator: follows a ray from bounce to bounce, up to a fixed
//! depth, and multiplies the attenuations into the colour it ends on.
use vstd::prelude::*;
use rand::rngs::StdRng;
use crate::random::{random_in_unit_sphere, uniform};
use crate::ray::{closest_hit, sky_color, Ray};
use crate::scatter::{scatter, scatter_spec};
use crate::scene::{Object, Scene};
use crate::vec3::{vdot, vmul, Vec3};
use crate::fixed::SCALE;

verus! {

/// Bounces after which a path that still hits something is taken as black.
pub const MAX_DEPTH: u32 = 50;

pub open spec fn black() -> Vec3 {
    Vec3 { x: 0, y: 0, z: 0 }
}

/// One step of a path: it ends on a colour, or goes on along a new ray with an
/// attenuation.
#[derive(Clone, Copy, Debug, PartialEq, Eq, Structural)]
pub enum Step {
    Finish(Vec3),
    Bounce(Ray, Vec3),
}

/// A miss ends on the sky; a hit that is absorbed, or that is met at depth
/// `MAX_DEPTH` or beyond, ends on black; any other hit bounces.
pub open spec fn step_spec(objs: Seq<Object>, ray: Ray, depth: u32, sphere_point: Vec3, choice: i64) -> Step {
    match closest_hit(ray, objs) {
        None => Step::Finish(sky_color(ray)),
        Some(hit) => match scatter_spec(ray, hit, sphere_point, choice) {
            Some((next, attenuation)) => if depth < MAX_DEPTH {
                Step::Bounce(next, attenuation)
            } else {
                Step::Finish(black())
            },
            None => Step::Finish(black()),
        },
    }
}

/// `atts[0] * (atts[1] * (... * c))`, component-wise, innermost first.
pub open spec fn shade_spec(atts: Seq<Vec3>, c: Vec3) -> Vec3
    decreases atts.len(),
{
    if atts.len() == 0 {
        c
    } else {
        vmul(shade_spec(atts.subrange(1, atts.len() as int), c), atts[0])
    }
}

/// A random draw the sampler may hand a step: a point of the open unit ball and
/// a uniform value in `[0, 1)`.
pub open spec fn is_draw(draw: (Vec3, i64)) -> bool {
    vdot(draw.0, draw.0) < SCALE && 0 <= draw.1 < SCALE
}

/// `rays` and `atts` are a path that starts on `ray` at `depth`: under the draws
/// `draws`, each step bounces onto the next ray with the next attenuation, and
/// the last one ends on `c`.
pub open spec fn is_path(
    objs: Seq<Object>,
    ray: Ray,
    depth: int,
    draws: Seq<(Vec3, i64)>,
    rays: Seq<Ray>,
    atts: Seq<Vec3>,
    c: Vec3,
) -> bool {
    &&& rays.len() == atts.len() + 1
    &&& draws.len() == rays.len()
    &&& rays[0] == ray
    &&& forall|i: int| 0 <= i < draws.len() ==> is_draw(#[trigger] draws[i])
    &&& forall|i: int|
        0 <= i < atts.len() ==> step_spec(objs, #[trigger] rays[i], (depth + i) as u32, draws[i].0, draws[i].1)
            == Step::Bounce(rays[i + 1], atts[i])
    &&& step_spec(objs, rays.last(), (depth + atts.len()) as u32, draws.last().0, draws.last().1)
        == Step::Finish(c)
}

pub fn trace_step(scene: &Scene, ray: &Ray, depth: u32, sphere_point: &Vec3, choice: i64) -> (r: Step)
    ensures
        r == step_spec(scene.view(), *ray, depth, *sphere_point, choice),
{
    match ray.closest_intersection(scene) {
        None => Step::Finish(ray.sample_skybox()),
        Some(hit) => match scatter(ray, &hit, sphere_point, choice) {
            Some((next, attenuation)) => if depth < MAX_DEPTH {
                Step::Bounce(next, attenuation)
            } else {
                Step::Finish(Vec3::new(0, 0, 0))
            },
            None => Step::Finish(Vec3::new(0, 0, 0)),
        },
    }
}

/// Applies the attenuations of a path to the colour it ended on, the last
/// bounce first.
pub fn shade(atts: &Vec<Vec3>, c: &Vec3) -> (r: Vec3)
    ensures
        r == shade_spec(atts@, *c),
{
    let mut acc = *c;
    let mut i: usize = atts.len();
    assert(atts@.subrange(i as int, atts@.len() as int).len() == 0);
    while i > 0
        invariant
            i <= atts@.len(),
            acc == shade_spec(atts@.subrange(i as int, atts@.len() as int), *c),
        decreases i,
    {
        proof {
            let s = atts@.subrange(i - 1, atts@.len() as int);
            assert(s.subrange(1, s.len() as int) =~= atts@.subrange(i as int, atts@.len() as int));
            assert(s[0] == atts@[i - 1]);
        }
        acc = acc.mul_elem(&atts[i - 1]);
        i = i - 1;
    }
    assert(atts@.subrange(0, atts@.len() as int) =~= atts@);
    acc
}

pub open spec fn min_depth(depth: u32) -> int {
    if depth > MAX_DEPTH { MAX_DEPTH as int } else { depth as int }
}

/// The colour seen along `ray`, found by following it from `depth` on. A ray
/// that hits nothing gives the sky; one that hits something at `MAX_DEPTH` or
/// beyond gives black; otherwise the path's attenuations are applied to the
/// colour it ends on.
pub fn trace(scene: &Scene, ray: &Ray, depth: u32, rng: &mut StdRng) -> (r: Vec3)
    ensures
        closest_hit(*ray, scene.view()) is None ==> r == sky_color(*ray),
        closest_hit(*ray, scene.view()) is Some && depth >= MAX_DEPTH ==> r == black(),
        exists|draws: Seq<(Vec3, i64)>, rays: Seq<Ray>, atts: Seq<Vec3>, c: Vec3|
            is_path(scene.view(), *ray, min_depth(depth), draws, rays, atts, c)
                && r == shade_spec(atts, c),
{
    let mut atts: Vec<Vec3> = Vec::new();
    let mut cur = *ray;
    let mut d: u32 = if depth > MAX_DEPTH { MAX_DEPTH } else { depth };
    let ghost d0 = d;
    let ghost mut rays: Seq<Ray> = seq![*ray];
    let ghost mut draws: Seq<(Vec3, i64)> = Seq::empty();
    loop
        invariant
            d0 == min_depth(depth),
            rays.len() == atts@.len() + 1,
            draws.len() == atts@.len(),
            rays[0] == *ray,
            rays.last() == cur,
            forall|i: int| 0 <= i < draws.len() ==> is_draw(#[trigger] draws[i]),
            forall|i: int|
                0 <= i < atts@.len() ==> step_spec(
                    scene.view(),
                    #[trigger] rays[i],
                    (d0 + i) as u32,
                    draws[i].0,
                    draws[i].1,
                ) == Step::Bounce(rays[i + 1], atts@[i]),
            d <= MAX_DEPTH,
            atts@.len() + d0 == d,
            atts@.len() > 0 ==> closest_hit(*ray, scene.view()) is Some,
        decreases MAX_DEPTH - d,
    {
        let sphere_point = random_in_unit_sphere(rng);
        let choice = uniform(rng);
        proof {
            draws = draws.push((sphere_point, choice));
        }
        match trace_step(scene, &cur, d, &sphere_point, choice) {
            Step::Finish(c) => {
                let r = shade(&atts, &c);
                proof {
                    assert(is_path(scene.view(), *ray, d0 as int, draws, rays, atts@, c));
                    if atts@.len() == 0 {
                        assert(r == c);
                    }
                }
                return r;
            },
            Step::Bounce(next, attenuation) => {
                let ghost old_atts = atts@;
                let ghost old_rays = rays;
                atts.push(attenuation);
                proof {
                    rays = rays.push(next);
                    assert forall|i: int| 0 <= i < atts@.len() implies step_spec(
                        scene.view(),
                        #[trigger] rays[i],
                        (d0 + i) as u32,
                        draws[i].0,
                        draws[i].1,
                    ) == Step::Bounce(rays[i + 1], atts@[i]) by {
                        if i < old_atts.len() {
                            assert(rays[i] == old_rays[i] && rays[i + 1] == old_rays[i + 1]);
                            assert(atts@[i] == old_atts[i]);
                        }
                    }
                }
                cur = next;
                d = d + 1;
            },
        }
    }
}

} // verus!
