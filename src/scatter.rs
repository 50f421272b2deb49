//! The material models: how a ray that hits a surface goes on, and what share
//! of each colour channel it keeps.
use vstd::prelude::*;
use crate::fixed;
use crate::fixed::{add_spec, div_spec, min_spec, mul_spec, neg_spec, sqrt_spec, sub_spec, SCALE};
use crate::ray::{point_at, HitRecord, Ray};
use crate::scene::Material;
use crate::vec3::{vadd, vdot, vlength, vneg, vnormalize, vscale, vsub, Vec3};

verus! {

/// Mirror reflection of `d` about the normal `n`.
pub open spec fn reflect_spec(d: Vec3, n: Vec3) -> Vec3 {
    vsub(d, vscale(mul_spec(2_000_000, vdot(d, n)), n))
}

/// Snell refraction of `d` through a surface with normal `n` and index ratio
/// `ratio`; `None` on total internal reflection.
pub open spec fn refract_spec(d: Vec3, n: Vec3, ratio: i64) -> Option<Vec3> {
    let pd = vdot(d, n);
    let disc = sub_spec(SCALE, mul_spec(mul_spec(ratio, ratio), sub_spec(SCALE, mul_spec(pd, pd))));
    if disc > 0 {
        Some(vsub(vscale(ratio, vsub(d, vscale(pd, n))), vscale(sqrt_spec(disc), n)))
    } else {
        None
    }
}

/// Reflectance at normal incidence: `((1 - n) / (1 + n))^2`.
pub open spec fn r0_spec(ref_idx: i64) -> i64 {
    let r = div_spec(sub_spec(SCALE, ref_idx), add_spec(SCALE, ref_idx));
    mul_spec(r, r)
}

pub open spec fn pow5_spec(x: i64) -> i64 {
    mul_spec(mul_spec(mul_spec(mul_spec(x, x), x), x), x)
}

/// Schlick's approximation: `r0 + (1 - r0) * (1 - cosine)^5`.
pub open spec fn schlick_spec(cosine: i64, ref_idx: i64) -> i64 {
    let r0 = r0_spec(ref_idx);
    add_spec(r0, mul_spec(sub_spec(SCALE, r0), pow5_spec(sub_spec(SCALE, cosine))))
}

pub open spec fn white() -> Vec3 {
    Vec3 { x: SCALE, y: SCALE, z: SCALE }
}

/// Scattering off a dielectric, reflecting when `choice` falls below the
/// reflect probability.
pub open spec fn dielectric_scatter(ray: Ray, hit: HitRecord, ri: i64, choice: i64) -> (Ray, Vec3) {
    let d = ray.direction;
    let n = hit.normal;
    let dn = vdot(d, n);
    let outward = if dn > 0 { vneg(n) } else { n };
    let ratio = if dn > 0 { ri } else { div_spec(SCALE, ri) };
    let cosine = if dn > 0 {
        div_spec(mul_spec(ri, dn), vlength(d))
    } else {
        div_spec(neg_spec(dn), vlength(d))
    };
    let prob = match refract_spec(d, outward, ratio) {
        Some(_) => schlick_spec(cosine, ri),
        None => SCALE,
    };
    let refracted = match refract_spec(d, outward, ratio) {
        Some(v) => v,
        None => Vec3 { x: 0, y: 0, z: 0 },
    };
    let p = point_at(ray, hit.distance);
    if choice < prob {
        (Ray { origin: p, direction: vnormalize(reflect_spec(d, n)) }, white())
    } else {
        (Ray { origin: p, direction: vnormalize(refracted) }, white())
    }
}

/// The scattered ray and attenuation, or `None` when the surface absorbs the
/// ray. `sphere_point` is a random point in the unit ball, `choice` a uniform
/// draw in `[0, 1)`.
pub open spec fn scatter_spec(ray: Ray, hit: HitRecord, sphere_point: Vec3, choice: i64) -> Option<(Ray, Vec3)> {
    let p = point_at(ray, hit.distance);
    match hit.material {
        Material::Lambert(albedo) => Some(
            (Ray { origin: p, direction: vnormalize(vadd(hit.normal, sphere_point)) }, albedo),
        ),
        Material::Metalic(albedo, fuzz) => {
            let dir = vnormalize(
                vadd(reflect_spec(ray.direction, hit.normal), vscale(min_spec(fuzz, SCALE), sphere_point)),
            );
            if vdot(dir, hit.normal) > 0 {
                Some((Ray { origin: p, direction: dir }, albedo))
            } else {
                None
            }
        },
        Material::Dielectric(ri) => Some(dielectric_scatter(ray, hit, ri, choice)),
    }
}

pub fn reflect(d: &Vec3, n: &Vec3) -> (r: Vec3)
    ensures
        r == reflect_spec(*d, *n),
{
    d.sub(&n.scale(fixed::mul(2_000_000, d.dot(n))))
}

pub fn refract(d: &Vec3, n: &Vec3, ratio: i64) -> (r: Option<Vec3>)
    ensures
        r == refract_spec(*d, *n, ratio),
{
    let pd = d.dot(n);
    let disc = fixed::sub(
        SCALE,
        fixed::mul(fixed::mul(ratio, ratio), fixed::sub(SCALE, fixed::mul(pd, pd))),
    );
    if disc > 0 {
        Some(d.sub(&n.scale(pd)).scale(ratio).sub(&n.scale(fixed::sqrt(disc))))
    } else {
        None
    }
}

pub fn schlick(cosine: i64, ref_idx: i64) -> (r: i64)
    ensures
        r == schlick_spec(cosine, ref_idx),
{
    let r = fixed::div(fixed::sub(SCALE, ref_idx), fixed::add(SCALE, ref_idx));
    let r0 = fixed::mul(r, r);
    let x = fixed::sub(SCALE, cosine);
    let p5 = fixed::mul(fixed::mul(fixed::mul(fixed::mul(x, x), x), x), x);
    fixed::add(r0, fixed::mul(fixed::sub(SCALE, r0), p5))
}

/// At normal incidence (`cosine == 1`) Schlick's approximation gives exactly `r0`.
pub proof fn lemma_schlick_normal_incidence(ref_idx: i64)
    ensures
        schlick_spec(SCALE, ref_idx) == r0_spec(ref_idx),
{
    let r0 = r0_spec(ref_idx);
    assert(sub_spec(SCALE, SCALE) == 0);
    assert(pow5_spec(0) == 0);
    assert(mul_spec(sub_spec(SCALE, r0), 0) == 0);
}

fn dielectric(ray: &Ray, hit: &HitRecord, ri: i64, choice: i64) -> (r: (Ray, Vec3))
    ensures
        r == dielectric_scatter(*ray, *hit, ri, choice),
{
    let d = ray.direction;
    let n = hit.normal;
    let dn = d.dot(&n);
    let (outward, ratio, cosine) = if dn > 0 {
        (n.neg(), ri, fixed::div(fixed::mul(ri, dn), d.length()))
    } else {
        (n, fixed::div(SCALE, ri), fixed::div(fixed::neg(dn), d.length()))
    };
    let (prob, refracted) = match refract(&d, &outward, ratio) {
        Some(v) => (schlick(cosine, ri), v),
        None => (SCALE, Vec3::new(0, 0, 0)),
    };
    let p = ray.point_along_ray(hit.distance);
    let white = Vec3::new(SCALE, SCALE, SCALE);
    if choice < prob {
        (Ray::new(p, reflect(&d, &n).normalize()), white)
    } else {
        (Ray::new(p, refracted.normalize()), white)
    }
}

/// Scatters `ray` off the surface it hit. Metals absorb exactly when the
/// perturbed reflection does not leave the surface; the other materials never
/// absorb.
pub fn scatter(ray: &Ray, hit: &HitRecord, sphere_point: &Vec3, choice: i64) -> (r: Option<(Ray, Vec3)>)
    ensures
        r == scatter_spec(*ray, *hit, *sphere_point, choice),
        hit.material is Metalic ==> (r is None <==> vdot(
            vnormalize(vadd(
                reflect_spec(ray.direction, hit.normal),
                vscale(min_spec(hit.material->Metalic_1, SCALE), *sphere_point),
            )),
            hit.normal,
        ) <= 0),
        !(hit.material is Metalic) ==> r is Some,
{
    let p = ray.point_along_ray(hit.distance);
    match hit.material {
        Material::Lambert(albedo) => {
            Some((Ray::new(p, hit.normal.add(sphere_point).normalize()), albedo))
        },
        Material::Metalic(albedo, fuzz) => {
            let perturb = sphere_point.scale(fixed::min(fuzz, SCALE));
            let dir = reflect(&ray.direction, &hit.normal).add(&perturb).normalize();
            if dir.dot(&hit.normal) > 0 {
                Some((Ray::new(p, dir), albedo))
            } else {
                None
            }
        },
        Material::Dielectric(ri) => Some(dielectric(ray, hit, ri, choice)),
    }
}

} // verus!
