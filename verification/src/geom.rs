//! Rays, the scene sphere, and the analytic ray–sphere intersection
//! test.
//!
//! For a ray with origin `O` and direction `D` and a sphere with
//! center `P` and radius `R`, the intersection distances are the roots
//! of a quadratic with
//! `a = D·D`, `b = 2 (O - P)·D`, `c = P·P + O·O - 2 O·P - R²`,
//! and the ray hits the sphere exactly when the discriminant
//! `b² - 4ac` is positive (a tangent ray counts as a miss). All four
//! quantities are polynomial in the inputs, so they are computed
//! exactly here; only the hit branch's shading (square roots, the
//! orbiting light's sine and cosine) needs floating point and is
//! evaluated by the embedding program.

use vstd::prelude::*;
use crate::vec3::{
    Vec3, bounded, dot_spec, sub_spec, COORD_BOUND, DOT_BOUND, lemma_dot_bound,
    lemma_mul_abs_bound,
};

verus! {

/// A ray: an origin and a direction. The direction need not be
/// normalised; the quadratic's `a` coefficient accounts for its
/// magnitude.
#[derive(Clone, Copy, PartialEq, Eq, Structural, Debug)]
pub struct Ray {
    pub origin: Vec3,
    pub direction: Vec3,
}

/// A sphere: a center and a radius.
#[derive(Clone, Copy, PartialEq, Eq, Structural, Debug)]
pub struct Sphere {
    pub center: Vec3,
    pub radius: i64,
}

/// A well-formed ray keeps both vectors inside the coordinate bound.
pub open spec fn ray_wf(r: Ray) -> bool {
    &&& bounded(r.origin, COORD_BOUND as int)
    &&& bounded(r.direction, COORD_BOUND as int)
}

/// A well-formed sphere has a positive in-bound radius and an in-bound
/// center.
pub open spec fn sphere_wf(s: Sphere) -> bool {
    &&& 0 < s.radius <= COORD_BOUND
    &&& bounded(s.center, COORD_BOUND as int)
}

/// Quadratic coefficient `a = D·D`.
pub open spec fn quad_a(r: Ray) -> int {
    dot_spec(r.direction, r.direction)
}

/// Quadratic coefficient `b = 2 (O - P)·D`.
pub open spec fn quad_b(r: Ray, s: Sphere) -> int {
    2 * dot_spec(sub_spec(r.origin, s.center), r.direction)
}

/// Quadratic coefficient `c = P·P + O·O - 2 O·P - R²`.
pub open spec fn quad_c(r: Ray, s: Sphere) -> int {
    dot_spec(s.center, s.center) + dot_spec(r.origin, r.origin)
        - 2 * dot_spec(r.origin, s.center) - s.radius * s.radius
}

/// The discriminant `b² - 4ac` of the intersection quadratic.
pub open spec fn discriminant_spec(r: Ray, s: Sphere) -> int {
    quad_b(r, s) * quad_b(r, s) - 4 * quad_a(r) * quad_c(r, s)
}

impl Ray {
    /// The ray with the given origin and direction.
    pub fn new(origin: Vec3, direction: Vec3) -> (r: Ray)
        ensures
            r.origin == origin,
            r.direction == direction,
    {
        Ray { origin, direction }
    }

    /// The camera ray for a view-plane point `(view_x, view_y)`: the
    /// eye sits at `(0, 0, -near)` behind the view plane looking
    /// toward `+z`, and the direction runs to the view-plane point,
    /// `(view_x, view_y, near)`, unnormalised.
    pub fn for_pixel(view_x: i64, view_y: i64, near: i64) -> (r: Ray)
        requires
            -COORD_BOUND <= view_x <= COORD_BOUND,
            -COORD_BOUND <= view_y <= COORD_BOUND,
            -COORD_BOUND <= near <= COORD_BOUND,
        ensures
            r.origin.x == 0 && r.origin.y == 0 && r.origin.z == -near,
            r.direction == (Vec3 { x: view_x, y: view_y, z: near }),
            ray_wf(r),
    {
        Ray {
            origin: Vec3 { x: 0, y: 0, z: -near },
            direction: Vec3 { x: view_x, y: view_y, z: near },
        }
    }
}

/// The scene's one sphere: center `(0, -2, 4)`, radius `3/4`, held
/// in coordinates scaled by four so that every component is exact.
pub fn scene_sphere() -> (s: Sphere)
    ensures
        s == (Sphere { center: Vec3 { x: 0i64, y: -8i64, z: 16i64 }, radius: 3i64 }),
        sphere_wf(s),
{
    Sphere { center: Vec3 { x: 0, y: -8, z: 16 }, radius: 3 }
}

/// The exact discriminant of the intersection quadratic for `ray`
/// against `sphere`.
pub fn discriminant(ray: &Ray, sphere: &Sphere) -> (d: i128)
    requires
        ray_wf(*ray),
        sphere_wf(*sphere),
    ensures
        d == discriminant_spec(*ray, *sphere),
{
    let oc = ray.origin.sub(&sphere.center);
    let a: i64 = ray.direction.dot(&ray.direction);
    let half_b: i64 = oc.dot(&ray.direction);
    proof {
        lemma_dot_bound(oc, ray.direction, DOT_BOUND as int);
        lemma_dot_bound(ray.direction, ray.direction, DOT_BOUND as int);
        lemma_dot_bound(sphere.center, sphere.center, DOT_BOUND as int);
        lemma_dot_bound(ray.origin, ray.origin, DOT_BOUND as int);
        lemma_dot_bound(ray.origin, sphere.center, DOT_BOUND as int);
        lemma_mul_abs_bound(sphere.radius as int, sphere.radius as int, COORD_BOUND as int);
    }
    let b: i64 = 2 * half_b;
    let rr: i64 = sphere.radius * sphere.radius;
    let c: i64 = sphere.center.dot(&sphere.center) + ray.origin.dot(&ray.origin)
        - 2 * ray.origin.dot(&sphere.center) - rr;
    let bw: i128 = b as i128;
    let aw: i128 = a as i128;
    let cw: i128 = c as i128;
    proof {
        lemma_mul_abs_bound(bw as int, bw as int, 0x2000_0000_0000);
        lemma_mul_abs_bound(aw as int, cw as int, 0x4000_0000_0000);
    }
    let d: i128 = bw * bw - 4 * (aw * cw);
    proof {
        let qa: int = quad_a(*ray);
        let qb: int = quad_b(*ray, *sphere);
        let qc: int = quad_c(*ray, *sphere);
        assert(aw == qa && bw == qb && cw == qc);
        assert(qb * qb - 4 * (qa * qc) == qb * qb - 4 * qa * qc) by (nonlinear_arith);
    }
    d
}

/// Whether `ray` misses `sphere`: the discriminant is at most zero
/// (a tangent ray counts as a miss). A miss yields the background
/// pixel; a hit goes on to the shading step.
pub fn ray_misses(ray: &Ray, sphere: &Sphere) -> (m: bool)
    requires
        ray_wf(*ray),
        sphere_wf(*sphere),
    ensures
        m <==> discriminant_spec(*ray, *sphere) <= 0,
{
    let d = discriminant(ray, sphere);
    d <= 0
}

} // verus!
