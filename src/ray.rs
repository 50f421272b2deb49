//! Rays and the nearest-hit search over a scene.
use vstd::prelude::*;
use crate::fixed;
use crate::fixed::{add_spec, clamp, div_spec, mul_spec, neg_spec, sqrt_spec, sub_spec, tdiv, HALF, SCALE};
use crate::scene::{Geometry, Material, Object, Scene};
use crate::vec3::{vadd, vdiv, vdot, vneg, vscale, vsub, Vec3};

verus! {

/// Hits closer than this (0.001) are ignored, so that a bounced ray does not
/// meet the surface it leaves.
pub const EPSILON: i64 = 1_000;

#[derive(Clone, Copy, Debug, PartialEq, Eq, Structural)]
pub struct Ray {
    pub origin: Vec3,
    pub direction: Vec3,
}

/// Where a ray meets a surface: the distance along the ray, the surface normal
/// there, and the surface's material.
#[derive(Clone, Copy, Debug, PartialEq, Eq, Structural)]
pub struct HitRecord {
    pub distance: i64,
    pub normal: Vec3,
    pub material: Material,
}

pub open spec fn point_at(ray: Ray, t: i64) -> Vec3 {
    vadd(ray.origin, vscale(t, ray.direction))
}

/// Distance to the hit of `ray` on the sphere, by projecting the centre onto
/// the (unit) direction: the near root, or the far one when the near one lies
/// behind the origin.
pub open spec fn sphere_distance(ray: Ray, center: Vec3, radius: i64) -> Option<i64> {
    let hyp = vsub(center, ray.origin);
    let t = vdot(hyp, ray.direction);
    let opp = vsub(hyp, vscale(t, ray.direction));
    let sq_len = vdot(opp, opp);
    let sq_radius = mul_spec(radius, radius);
    if sq_len > sq_radius || t < EPSILON {
        None
    } else {
        let internal = sqrt_spec(sub_spec(sq_radius, sq_len));
        let near = sub_spec(t, internal);
        if near < 0 {
            Some(add_spec(t, internal))
        } else {
            Some(near)
        }
    }
}

/// Normal at distance `t` on a sphere; its sign follows the radius's.
pub open spec fn sphere_normal(ray: Ray, center: Vec3, radius: i64, t: i64) -> Vec3 {
    vdiv(vsub(point_at(ray, t), center), radius)
}

pub open spec fn object_hit(ray: Ray, o: Object) -> Option<HitRecord> {
    match o.geometry {
        Geometry::Sphere(c, r) => match sphere_distance(ray, c, r) {
            Some(t) => Some(HitRecord { distance: t, normal: sphere_normal(ray, c, r, t), material: o.material }),
            None => None,
        },
    }
}

/// The nearest hit over `objs`; of two hits at one distance the earlier object wins.
pub open spec fn closest_hit(ray: Ray, objs: Seq<Object>) -> Option<HitRecord>
    decreases objs.len(),
{
    if objs.len() == 0 {
        None
    } else {
        let prev = closest_hit(ray, objs.drop_last());
        match object_hit(ray, objs.last()) {
            None => prev,
            Some(h) => match prev {
                None => Some(h),
                Some(p) => if h.distance < p.distance { Some(h) } else { prev },
            },
        }
    }
}

/// The ray points away from the object: its centre projects onto the ray
/// before `EPSILON`.
pub open spec fn points_away(ray: Ray, o: Object) -> bool {
    match o.geometry {
        Geometry::Sphere(c, _) => vdot(vsub(c, ray.origin), ray.direction) < EPSILON,
    }
}

/// A ray that points away from every object of a scene hits nothing.
pub proof fn lemma_pointing_away_misses(ray: Ray, objs: Seq<Object>)
    requires
        forall|i: int| 0 <= i < objs.len() ==> points_away(ray, #[trigger] objs[i]),
    ensures
        closest_hit(ray, objs) is None,
    decreases objs.len(),
{
    if objs.len() > 0 {
        let rest = objs.drop_last();
        assert forall|i: int| 0 <= i < rest.len() implies points_away(ray, #[trigger] rest[i]) by {
            assert(rest[i] == objs[i]);
        }
        lemma_pointing_away_misses(ray, rest);
        assert(points_away(ray, objs[objs.len() - 1]));
    }
}

/// Sky colour for a direction: white at the bottom blending into light blue.
pub open spec fn sky_color(ray: Ray) -> Vec3 {
    let t = mul_spec(HALF, add_spec(ray.direction.y, SCALE));
    vadd(
        vscale(sub_spec(SCALE, t), Vec3 { x: SCALE, y: SCALE, z: SCALE }),
        vscale(t, Vec3 { x: 500_000, y: 700_000, z: SCALE }),
    )
}

proof fn lemma_div_by_negated(a: i64, r: i64)
    requires
        r > i64::MIN,
    ensures
        div_spec(a, -r as i64) == neg_spec(div_spec(a, r)),
{
    if r > 0 {
        let v = tdiv(a * SCALE, r as int);
        assert(neg_spec(clamp(v)) == clamp(-v));
    } else if r < 0 {
        let v = tdiv(a * SCALE, -r);
        assert(neg_spec(clamp(-v)) == clamp(v));
    }
}

/// A hollow shell: negating a sphere's radius keeps whether and where a ray
/// hits it, and turns the normal at that point around.
pub proof fn lemma_hollow_shell(ray: Ray, center: Vec3, radius: i64, material: Material)
    requires
        radius > i64::MIN,
    ensures
        ({
            let solid = object_hit(ray, Object { geometry: Geometry::Sphere(center, radius), material });
            let hollow = object_hit(ray, Object { geometry: Geometry::Sphere(center, -radius as i64), material });
            &&& (hollow is Some <==> solid is Some)
            &&& solid is Some ==> hollow->0.distance == solid->0.distance
                && hollow->0.normal == vneg(solid->0.normal)
                && hollow->0.material == solid->0.material
        }),
{
    let nr = -radius as i64;
    assert((nr as int) * (nr as int) == (radius as int) * (radius as int)) by (nonlinear_arith)
        requires
            nr as int == -(radius as int),
    ;
    assert(mul_spec(nr, nr) == mul_spec(radius, radius));
    assert(sphere_distance(ray, center, nr) == sphere_distance(ray, center, radius));
    if let Some(t) = sphere_distance(ray, center, radius) {
        let a = vsub(point_at(ray, t), center);
        lemma_div_by_negated(a.x, radius);
        lemma_div_by_negated(a.y, radius);
        lemma_div_by_negated(a.z, radius);
        assert(sphere_normal(ray, center, nr, t) == vneg(sphere_normal(ray, center, radius, t)));
    }
}

impl Ray {
    pub fn new(origin: Vec3, direction: Vec3) -> (r: Ray)
        ensures
            r == (Ray { origin, direction }),
    {
        Ray { origin, direction }
    }

    pub fn point_along_ray(&self, t: i64) -> (r: Vec3)
        ensures
            r == point_at(*self, t),
    {
        self.origin.add(&self.direction.scale(t))
    }

    pub fn hit_sphere(&self, center: &Vec3, radius: i64) -> (r: Option<i64>)
        ensures
            r == sphere_distance(*self, *center, radius),
    {
        let hyp = center.sub(&self.origin);
        let t = hyp.dot(&self.direction);
        let opp = hyp.sub(&self.direction.scale(t));
        let sq_len = opp.dot(&opp);
        let sq_radius = fixed::mul(radius, radius);
        if sq_len > sq_radius || t < EPSILON {
            return None;
        }
        let internal = fixed::sqrt(fixed::sub(sq_radius, sq_len));
        let near = fixed::sub(t, internal);
        if near < 0 {
            Some(fixed::add(t, internal))
        } else {
            Some(near)
        }
    }

    pub fn hit_object(&self, o: &Object) -> (r: Option<HitRecord>)
        ensures
            r == object_hit(*self, *o),
    {
        match o.geometry {
            Geometry::Sphere(c, radius) => match self.hit_sphere(&c, radius) {
                Some(t) => {
                    let normal = self.point_along_ray(t).sub(&c).div_scalar(radius);
                    Some(HitRecord { distance: t, normal, material: o.material })
                },
                None => None,
            },
        }
    }

    /// The nearest hit of this ray over all objects of the scene.
    pub fn closest_intersection(&self, scene: &Scene) -> (r: Option<HitRecord>)
        ensures
            r == closest_hit(*self, scene.view()),
    {
        let objects = scene.objects();
        let mut closest: Option<HitRecord> = None;
        let mut i: usize = 0;
        while i < objects.len()
            invariant
                i <= objects@.len(),
                objects@ == scene.view(),
                closest == closest_hit(*self, objects@.subrange(0, i as int)),
            decreases objects@.len() - i,
        {
            let h = self.hit_object(&objects[i]);
            proof {
                let s = objects@.subrange(0, i + 1);
                assert(s.drop_last() =~= objects@.subrange(0, i as int));
                assert(s.last() == objects@[i as int]);
            }
            match h {
                Some(hit) => {
                    let take = match closest {
                        None => true,
                        Some(p) => hit.distance < p.distance,
                    };
                    if take {
                        closest = Some(hit);
                    }
                },
                None => {},
            }
            i = i + 1;
        }
        assert(objects@.subrange(0, objects@.len() as int) =~= objects@);
        closest
    }

    /// The sky colour seen along this ray.
    pub fn sample_skybox(&self) -> (r: Vec3)
        ensures
            r == sky_color(*self),
    {
        let t = fixed::mul(HALF, fixed::add(self.direction.y, SCALE));
        let white = Vec3::new(SCALE, SCALE, SCALE);
        let blue = Vec3::new(500_000, 700_000, SCALE);
        white.scale(fixed::sub(SCALE, t)).add(&blue.scale(t))
    }
}

} // verus!
