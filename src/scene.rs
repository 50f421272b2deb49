//! The renderable surfaces, their materials, and the scene that holds them.
use vstd::prelude::*;
use crate::vec3::Vec3;

verus! {

/// A surface. A sphere with a negative radius is a hollow shell: its normals
/// point inward.
#[derive(Clone, Copy, Debug, PartialEq, Eq, Structural)]
pub enum Geometry {
    Sphere(Vec3, i64),
}

/// How a surface scatters light. Colours and parameters are fixed-point.
#[derive(Clone, Copy, Debug, PartialEq, Eq, Structural)]
pub enum Material {
    /// A diffuse reflector with its albedo.
    Lambert(Vec3),
    /// A mirror with its albedo and fuzz (clamped to 1.0 from above when used).
    Metalic(Vec3, i64),
    /// A transparent medium with its refractive index.
    Dielectric(i64),
}

#[derive(Clone, Copy, Debug, PartialEq, Eq, Structural)]
pub struct Object {
    pub geometry: Geometry,
    pub material: Material,
}

/// An ordered collection of objects; every ray is tested against all of them.
pub struct Scene {
    objects: Vec<Object>,
}

impl Scene {
    pub closed spec fn view(&self) -> Seq<Object> {
        self.objects@
    }

    pub fn new() -> (r: Scene)
        ensures
            r.view() == Seq::<Object>::empty(),
    {
        Scene { objects: Vec::new() }
    }

    pub fn add_object(&mut self, object: Object)
        ensures
            final(self).view() == old(self).view().push(object),
    {
        self.objects.push(object);
    }

    pub fn objects(&self) -> (r: &Vec<Object>)
        ensures
            r@ == self.view(),
    {
        &self.objects
    }
}

} // verus!
