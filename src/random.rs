//! Random draws for the sampler, from a seedable generator of the `rand` crate.
use vstd::prelude::*;
use rand::rngs::StdRng;
use rand::Rng;
use rand::SeedableRng;
use crate::fixed::SCALE;
use crate::vec3::{vdot, Vec3};

verus! {

#[verifier::external_type_specification]
#[verifier::external_body]
pub struct ExStdRng(StdRng);

/// Relies on rand's `SeedableRng::seed_from_u64` to build a generator from a seed.
#[verifier::external_body]
pub(crate) fn seeded_rng(seed: u64) -> (r: StdRng) {
    StdRng::seed_from_u64(seed)
}

/// Relies on rand's `Rng::gen_range`: a uniform integer in `0..bound`, which it
/// returns for every non-empty range.
#[verifier::external_body]
pub(crate) fn draw_below(rng: &mut StdRng, bound: i64) -> (r: i64)
    requires
        bound > 0,
    ensures
        0 <= r < bound,
{
    rng.gen_range(0..bound)
}

/// Attempts of the rejection sampler before it settles for the centre.
pub const SPHERE_TRIES: u32 = 64;

/// A uniform draw in `[0, 1)`.
pub fn uniform(rng: &mut StdRng) -> (r: i64)
    ensures
        0 <= r < SCALE,
{
    draw_below(rng, SCALE)
}

/// The candidate point `2 * (a, b, c) - 1` of three uniform draws.
pub open spec fn candidate_spec(a: i64, b: i64, c: i64) -> Vec3 {
    Vec3 { x: (2 * a - SCALE) as i64, y: (2 * b - SCALE) as i64, z: (2 * c - SCALE) as i64 }
}

/// The candidate of three uniform draws in `[0, 1)`, kept when it lies in the
/// open unit ball and rejected otherwise.
pub fn ball_candidate(a: i64, b: i64, c: i64) -> (r: Option<Vec3>)
    requires
        0 <= a < SCALE,
        0 <= b < SCALE,
        0 <= c < SCALE,
    ensures
        r == (if vdot(candidate_spec(a, b, c), candidate_spec(a, b, c)) < SCALE {
            Some(candidate_spec(a, b, c))
        } else {
            None::<Vec3>
        }),
{
    let p = Vec3::new(2 * a - SCALE, 2 * b - SCALE, 2 * c - SCALE);
    if p.dot(&p) < SCALE {
        Some(p)
    } else {
        None
    }
}

/// A point of the open unit ball, by rejection sampling in `[-1, 1)^3`. After
/// `SPHERE_TRIES` rejected draws (probability below 1e-20) it returns the centre.
pub fn random_in_unit_sphere(rng: &mut StdRng) -> (r: Vec3)
    ensures
        vdot(r, r) < SCALE,
        -SCALE <= r.x < SCALE,
        -SCALE <= r.y < SCALE,
        -SCALE <= r.z < SCALE,
        r == (Vec3 { x: 0, y: 0, z: 0 }) || exists|a: i64, b: i64, c: i64|
            0 <= a < SCALE && 0 <= b < SCALE && 0 <= c < SCALE && r == candidate_spec(a, b, c)
                && vdot(r, r) < SCALE,
{
    let mut tries: u32 = 0;
    while tries < SPHERE_TRIES
        decreases SPHERE_TRIES - tries,
    {
        let a = uniform(rng);
        let b = uniform(rng);
        let c = uniform(rng);
        if let Some(p) = ball_candidate(a, b, c) {
            return p;
        }
        tries = tries + 1;
    }
    let origin = Vec3::new(0, 0, 0);
    assert(vdot(origin, origin) == 0);
    origin
}

} // verus!
