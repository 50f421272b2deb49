//! The pinhole camera: maps image-plane fractions to primary rays.
use vstd::prelude::*;
use crate::fixed;
use crate::fixed::mul_spec;
use crate::ray::Ray;
use crate::vec3::{vadd, vcross, vnormalize, vscale, vsub, Vec3};

verus! {

/// A camera at `position` whose image plane spans `width` across and `height`
/// up from `lower_left_corner`.
#[derive(Clone, Copy, Debug, PartialEq, Eq, Structural)]
pub struct Camera {
    pub position: Vec3,
    pub lower_left_corner: Vec3,
    pub width: Vec3,
    pub height: Vec3,
}

/// The camera looking from `position` at `lookat` with `up` as the upward hint,
/// where `half_height` is the tangent of half the vertical field of view and
/// `aspect` the width over the height of the image.
pub open spec fn camera_spec(position: Vec3, lookat: Vec3, up: Vec3, half_height: i64, aspect: i64) -> Camera {
    let half_width = mul_spec(aspect, half_height);
    let w = vnormalize(vsub(position, lookat));
    let u = vnormalize(vcross(up, w));
    let v = vcross(w, u);
    Camera {
        position,
        lower_left_corner: vsub(vsub(vsub(position, vscale(half_width, u)), vscale(half_height, v)), w),
        width: vscale(mul_spec(2_000_000, half_width), u),
        height: vscale(mul_spec(2_000_000, half_height), v),
    }
}

/// The ray through the image-plane point at fractions `s` across and `t` up.
pub open spec fn camera_ray(cam: Camera, s: i64, t: i64) -> Ray {
    Ray {
        origin: cam.position,
        direction: vnormalize(
            vsub(vadd(vadd(cam.lower_left_corner, vscale(s, cam.width)), vscale(t, cam.height)), cam.position),
        ),
    }
}

impl Camera {
    /// Builds the look-at basis. `up` must not be parallel to the view
    /// direction, or the basis is degenerate.
    pub fn new(position: Vec3, lookat: Vec3, up: Vec3, half_height: i64, aspect: i64) -> (r: Camera)
        ensures
            r == camera_spec(position, lookat, up, half_height, aspect),
    {
        let half_width = fixed::mul(aspect, half_height);
        let w = position.sub(&lookat).normalize();
        let u = up.cross(&w).normalize();
        let v = w.cross(&u);
        Camera {
            position,
            lower_left_corner: position.sub(&u.scale(half_width)).sub(&v.scale(half_height)).sub(&w),
            width: u.scale(fixed::mul(2_000_000, half_width)),
            height: v.scale(fixed::mul(2_000_000, half_height)),
        }
    }

    pub fn ray_for(&self, s: i64, t: i64) -> (r: Ray)
        ensures
            r == camera_ray(*self, s, t),
    {
        let target = self.lower_left_corner.add(&self.width.scale(s)).add(&self.height.scale(t));
        Ray::new(self.position, target.sub(&self.position).normalize())
    }
}

} // verus!
