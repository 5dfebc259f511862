//! The scene model: geometric elements, lights, and the nearest-intersection
//! query that serves both primary and shadow rays.

use vstd::prelude::*;
use crate::color::Color;
use crate::fixed::{
    clip, fx_add, fx_add_spec, fx_div, fx_div_spec, fx_mul, fx_mul_spec, fx_sqrt, fx_sqrt_spec,
    fx_sub, fx_sub_spec, isqrt, lemma_isqrt_bounds, PI_FX, SCALE,
};
use crate::render::Ray;
use crate::space::{Point3, Vector3};

verus! {

/// Default frame width in pixels.
pub const RESO_W: u32 = 1600;

/// Default frame height in pixels.
pub const RESO_H: u32 = 900;

/// Default vertical field of view, in fixed-point degrees.
pub const FOV: i64 = 70_000_000;

/// Offset along the surface normal given to secondary-ray origins, so that a
/// shadow or reflection ray does not meet the surface it starts on. One
/// ten-thousandth is a few grid units above the rounding of a hit point.
pub const SHADOW_BIAS: i64 = 100;

/// A plane accepts a ray only when the normal-direction dot product clears
/// this threshold (one millionth), which rejects both near-parallel rays and
/// back-facing hits.
pub const EPS: i64 = 1;

/// Greatest reflection recursion depth: a deeper call returns black.
pub const MAX_DEPTH: u8 = 6;

/// A light that shines along one fixed direction from infinitely far away.
#[derive(Clone, Copy, Debug)]
pub struct DirectionalLight {
    pub direction: Vector3,
    pub color: Color,
    pub intensity: i64,
}

/// A point light that radiates equally in all directions from one position.
#[derive(Clone, Copy, Debug)]
pub struct SphericalLight {
    pub position: Point3,
    pub color: Color,
    pub intensity: i64,
}

/// A light source of either kind.
#[derive(Clone, Copy, Debug)]
pub enum Light {
    Directional(DirectionalLight),
    Spherical(SphericalLight),
}

impl Light {
    /// Value of the light's color.
    pub open spec fn color_spec(self) -> Color {
        match self {
            Light::Directional(d) => d.color,
            Light::Spherical(s) => s.color,
        }
    }

    /// The light's color.
    pub fn color(&self) -> (r: Color)
        ensures
            r == self.color_spec(),
    {
        match self {
            Light::Directional(d) => d.color,
            Light::Spherical(s) => s.color,
        }
    }

    /// Value of the unit direction from a hit point toward the light: a
    /// directional light's travel direction reversed, or the normalized
    /// offset to a spherical light's position.
    pub open spec fn direction_from_spec(self, hit_point: Point3) -> Vector3 {
        match self {
            Light::Directional(d) => d.direction.normalized_spec().negated_spec(),
            Light::Spherical(s) => s.position.minus_spec(hit_point).normalized_spec(),
        }
    }

    /// The unit direction from `hit_point` toward the light.
    pub fn direction_from(&self, hit_point: &Point3) -> (r: Vector3)
        ensures
            r == self.direction_from_spec(*hit_point),
    {
        match self {
            Light::Directional(d) => d.direction.normalized().negated(),
            Light::Spherical(s) => s.position.minus(hit_point).normalized(),
        }
    }

    /// Value of the light's strength at a point: constant for a directional
    /// light; for a spherical light the stored intensity spread over the
    /// sphere of radius `d` around it, `intensity / (d2 * 4 * pi)` with `d2`
    /// the squared distance — the inverse-square falloff that turns a
    /// radiant intensity into an irradiance.
    pub open spec fn intensity_spec(self, hit_point: Point3) -> i64 {
        match self {
            Light::Directional(d) => d.intensity,
            Light::Spherical(s) => {
                let r2 = s.position.minus_spec(hit_point).magnitude2_spec();
                fx_div_spec(s.intensity, fx_mul_spec(fx_mul_spec(r2, 4_000_000), PI_FX))
            },
        }
    }

    /// The light's strength at `hit_point`.
    pub fn intensity(&self, hit_point: &Point3) -> (r: i64)
        ensures
            r == self.intensity_spec(*hit_point),
    {
        match self {
            Light::Directional(d) => d.intensity,
            Light::Spherical(s) => {
                let r2 = s.position.minus(hit_point).magnitude2();
                fx_div(s.intensity, fx_mul(fx_mul(r2, 4_000_000), PI_FX))
            },
        }
    }

    /// Value of the distance from a hit point to the light: the saturated
    /// top of the scalar range for a directional light (farther than every
    /// occluder), the Euclidean distance for a spherical one.
    pub open spec fn distance_spec(self, hit_point: Point3) -> i64 {
        match self {
            Light::Directional(_) => i64::MAX,
            Light::Spherical(s) => s.position.minus_spec(hit_point).magnitude_spec(),
        }
    }

    /// The distance from `hit_point` to the light.
    pub fn distance(&self, hit_point: &Point3) -> (r: i64)
        ensures
            r == self.distance_spec(*hit_point),
    {
        match self {
            Light::Directional(_) => i64::MAX,
            Light::Spherical(s) => s.position.minus(hit_point).magnitude(),
        }
    }
}

/// A single-sided infinite plane. Its shading normal is the stored normal
/// negated: the plane faces the side opposite its stored normal, and the
/// intersection test only accepts rays that approach from that front.
#[derive(Clone, Copy, Debug)]
pub struct Plane {
    pub origin: Point3,
    pub normal: Vector3,
    pub color: Color,
    pub diffuse: i64,
    pub specular: i64,
}

impl Plane {
    /// Builds a plane, normalizing the given normal.
    pub fn new(origin: Point3, normal: Vector3, color: Color, diffuse: i64, specular: i64) -> (r:
        Plane)
        ensures
            r == (Plane { origin, normal: normal.normalized_spec(), color, diffuse, specular }),
    {
        Plane { origin, normal: normal.normalized(), color, diffuse, specular }
    }
}

/// A sphere given by center and radius.
#[derive(Clone, Copy, Debug)]
pub struct Sphere {
    pub center: Point3,
    pub radius: i64,
    pub color: Color,
    pub diffuse: i64,
    pub specular: i64,
}

/// A geometric element of either kind. `diffuse` and `specular` are
/// independent non-negative weights; a weight of zero switches that
/// contribution off entirely.
#[derive(Clone, Copy, Debug)]
pub enum Element {
    Sphere(Sphere),
    Plane(Plane),
}

impl Element {
    /// Value of the element's surface color.
    pub open spec fn color_spec(self) -> Color {
        match self {
            Element::Sphere(s) => s.color,
            Element::Plane(p) => p.color,
        }
    }

    /// The element's surface color.
    pub fn color(&self) -> (r: Color)
        ensures
            r == self.color_spec(),
    {
        match self {
            Element::Sphere(s) => s.color,
            Element::Plane(p) => p.color,
        }
    }

    /// Value of the element's diffuse weight.
    pub open spec fn diffuse_spec(self) -> i64 {
        match self {
            Element::Sphere(s) => s.diffuse,
            Element::Plane(p) => p.diffuse,
        }
    }

    /// The element's diffuse weight.
    pub fn diffuse(&self) -> (r: i64)
        ensures
            r == self.diffuse_spec(),
    {
        match self {
            Element::Sphere(s) => s.diffuse,
            Element::Plane(p) => p.diffuse,
        }
    }

    /// Value of the element's specular weight.
    pub open spec fn specular_spec(self) -> i64 {
        match self {
            Element::Sphere(s) => s.specular,
            Element::Plane(p) => p.specular,
        }
    }

    /// The element's specular weight.
    pub fn specular(&self) -> (r: i64)
        ensures
            r == self.specular_spec(),
    {
        match self {
            Element::Sphere(s) => s.specular,
            Element::Plane(p) => p.specular,
        }
    }
}

/// What a geometric element answers: the distance to the nearest acceptable
/// hit along a ray, and the surface normal at a hit point.
pub trait Intersectable: Sized {
    /// Value of the intersection query.
    spec fn intersect_spec(self, ray: Ray) -> Option<i64>;

    /// Value of the surface normal at a hit point.
    spec fn surface_normal_spec(self, hit_point: Point3) -> Vector3;

    /// Distance along `ray` to the nearest acceptable hit, if any.
    fn intersect(&self, ray: &Ray) -> (r: Option<i64>)
        ensures
            r == self.intersect_spec(*ray),
    ;

    /// Unit surface normal at `hit_point`.
    fn surface_normal(&self, hit_point: &Point3) -> (r: Vector3)
        ensures
            r == self.surface_normal_spec(*hit_point),
    ;
}

impl Intersectable for Sphere {
    /// The analytic ray-sphere query: project the center onto the ray, test
    /// the squared miss distance against the squared radius, and of the two
    /// quadratic roots return the nearest non-negative one (from inside the
    /// sphere that is the positive exit root). A sphere entirely behind the
    /// origin is no hit.
    open spec fn intersect_spec(self, ray: Ray) -> Option<i64> {
        let l = self.center.minus_spec(ray.origin);
        let adj = l.dot_spec(ray.direction);
        let d2 = fx_sub_spec(l.dot_spec(l), fx_mul_spec(adj, adj));
        let radius2 = fx_mul_spec(self.radius, self.radius);
        if d2 > radius2 {
            None
        } else {
            let thc = fx_sqrt_spec(fx_sub_spec(radius2, d2));
            let t0 = fx_sub_spec(adj, thc);
            let t1 = fx_add_spec(adj, thc);
            if t0 < 0 && t1 < 0 {
                None
            } else if t0 >= 0 {
                Some(t0)
            } else {
                Some(t1)
            }
        }
    }

    /// The normal points from the center through the hit point.
    open spec fn surface_normal_spec(self, hit_point: Point3) -> Vector3 {
        hit_point.minus_spec(self.center).normalized_spec()
    }

    fn intersect(&self, ray: &Ray) -> (r: Option<i64>)
        ensures
            r == self.intersect_spec(*ray),
    {
        let l = self.center.minus(&ray.origin);
        let adj = l.dot(&ray.direction);
        let d2 = fx_sub(l.dot(&l), fx_mul(adj, adj));
        let radius2 = fx_mul(self.radius, self.radius);
        if d2 > radius2 {
            return None;
        }
        let thc = fx_sqrt(fx_sub(radius2, d2));
        let t0 = fx_sub(adj, thc);
        let t1 = fx_add(adj, thc);
        if t0 < 0 && t1 < 0 {
            return None;
        }
        if t0 >= 0 {
            Some(t0)
        } else {
            Some(t1)
        }
    }

    fn surface_normal(&self, hit_point: &Point3) -> (r: Vector3)
        ensures
            r == self.surface_normal_spec(*hit_point),
    {
        hit_point.minus(&self.center).normalized()
    }
}

impl Intersectable for Plane {
    /// A plane is hit only from its front: the dot product of stored normal
    /// and ray direction must clear `EPS`, and the hit distance along the
    /// ray must not be negative.
    open spec fn intersect_spec(self, ray: Ray) -> Option<i64> {
        let denom = self.normal.dot_spec(ray.direction);
        if denom > EPS {
            let v = self.origin.minus_spec(ray.origin);
            let distance = fx_div_spec(v.dot_spec(self.normal), denom);
            if distance >= 0 {
                Some(distance)
            } else {
                None
            }
        } else {
            None
        }
    }

    /// Always the stored normal negated: the plane shades as single-sided,
    /// facing the side opposite its stored normal.
    open spec fn surface_normal_spec(self, hit_point: Point3) -> Vector3 {
        self.normal.negated_spec()
    }

    fn intersect(&self, ray: &Ray) -> (r: Option<i64>)
        ensures
            r == self.intersect_spec(*ray),
    {
        let denom = self.normal.dot(&ray.direction);
        if denom > EPS {
            let v = self.origin.minus(&ray.origin);
            let distance = fx_div(v.dot(&self.normal), denom);
            if distance >= 0 {
                return Some(distance);
            }
        }
        None
    }

    fn surface_normal(&self, _hit_point: &Point3) -> (r: Vector3)
        ensures
            r == self.surface_normal_spec(*_hit_point),
    {
        self.normal.negated()
    }
}

impl Intersectable for Element {
    /// Dispatch to the active variant's query.
    open spec fn intersect_spec(self, ray: Ray) -> Option<i64> {
        match self {
            Element::Sphere(s) => s.intersect_spec(ray),
            Element::Plane(p) => p.intersect_spec(ray),
        }
    }

    /// Dispatch to the active variant's normal.
    open spec fn surface_normal_spec(self, hit_point: Point3) -> Vector3 {
        match self {
            Element::Sphere(s) => s.surface_normal_spec(hit_point),
            Element::Plane(p) => p.surface_normal_spec(hit_point),
        }
    }

    fn intersect(&self, ray: &Ray) -> (r: Option<i64>)
        ensures
            r == self.intersect_spec(*ray),
    {
        match self {
            Element::Sphere(s) => s.intersect(ray),
            Element::Plane(p) => p.intersect(ray),
        }
    }

    fn surface_normal(&self, hit_point: &Point3) -> (r: Vector3)
        ensures
            r == self.surface_normal_spec(*hit_point),
    {
        match self {
            Element::Sphere(s) => s.surface_normal(hit_point),
            Element::Plane(p) => p.surface_normal(hit_point),
        }
    }
}

/// A ray fired from a sphere's center, in any direction, meets the sphere
/// at a distance equal to its radius — up to the one grid unit that the
/// floor square root may lose. The law asks for a radius of at least one
/// (a radius below the grid's own size drowns in rounding) and small enough
/// that its square does not saturate.
pub proof fn lemma_center_ray_hits_at_radius(s: Sphere, ray: Ray)
    requires
        ray.origin == s.center,
        SCALE <= s.radius <= 3_000_000_000_000,
    ensures
        s.intersect_spec(ray) matches Some(d) && (d == s.radius || d == s.radius - 1),
{
    let sc = SCALE as int;
    let r = s.radius as int;
    let l = s.center.minus_spec(ray.origin);
    assert(l == (Vector3 { x: 0i64, y: 0i64, z: 0i64 }));
    let adj = l.dot_spec(ray.direction);
    assert(adj == 0);
    assert(l.dot_spec(l) == 0);
    let rr = r * r;
    assert(sc * sc <= rr <= 9_000_000_000_000_000_000_000_000) by (nonlinear_arith)
        requires
            sc == 1_000_000 && sc <= r <= 3_000_000_000_000 && rr == r * r,
    ;
    let r2 = rr / sc;
    vstd::arithmetic::div_mod::lemma_div_is_ordered(sc * sc, rr, sc);
    vstd::arithmetic::div_mod::lemma_div_is_ordered(rr, 9_000_000_000_000_000_000_000_000, sc);
    assert(sc <= r2 <= 9_000_000_000_000_000_000);
    let radius2 = fx_mul_spec(s.radius, s.radius);
    assert(radius2 == r2 as i64);
    let d2 = fx_sub_spec(l.dot_spec(l), fx_mul_spec(adj, adj));
    assert(d2 == 0);
    let n = r2 * sc;
    vstd::arithmetic::div_mod::lemma_fundamental_div_mod(rr, sc);
    assert(rr - sc < n <= rr);
    assert(n <= 9_000_000_000_000_000_000_000_000);
    let thc = fx_sqrt_spec(radius2);
    lemma_isqrt_bounds(n as nat);
    let q = isqrt(n as nat) as int;
    assert(q <= r) by (nonlinear_arith)
        requires
            q * q <= n && n <= rr && rr == r * r && r >= 0 && q >= 0,
    ;
    assert(q >= r - 1) by (nonlinear_arith)
        requires
            n < (q + 1) * (q + 1) && rr - sc < n && rr == r * r && r >= sc && sc == 1_000_000 && q
                >= 0,
    ;
    assert(thc == q as i64);
    let t0 = fx_sub_spec(adj, thc);
    let t1 = fx_add_spec(adj, thc);
    assert(t0 == clip(-q) && t0 < 0);
    assert(t1 == q as i64 && t1 >= 0);
    assert(s.intersect_spec(ray) == Some(t1));
}

/// Whatever an element's query returns is a non-negative distance: both
/// variants reject hits behind the ray origin.
pub proof fn lemma_intersect_nonneg(e: Element, ray: Ray)
    ensures
        e.intersect_spec(ray) matches Some(d) ==> d >= 0,
{
}

/// A scene: frame resolution, field of view, and the elements and lights,
/// built once before rendering and read-only while tracing. The aspect-ratio
/// arithmetic of the camera assumes `width > height`.
pub struct Scene {
    pub width: u32,
    pub height: u32,
    pub fov: i64,
    pub elements: Vec<Element>,
    pub lights: Vec<Light>,
}

/// The nearest hit a trace query found: the distance along the ray and the
/// index of the hit element in the scene's sequence (a borrowed position,
/// never an owning copy).
#[derive(Clone, Copy, Debug, PartialEq, Eq, Structural)]
pub struct Intersection {
    pub distance: i64,
    pub element: usize,
}

impl Intersection {
    /// Builds an intersection record. A negative distance is a caller
    /// error, kept out by precondition; fixed-point scalars cannot hold a
    /// non-finite distance at all.
    pub fn new(distance: i64, element: usize) -> (r: Intersection)
        requires
            distance >= 0,
        ensures
            r == (Intersection { distance, element }),
    {
        Intersection { distance, element }
    }
}

impl Scene {
    /// Value of the nearest-hit scan over the first `n` elements: each
    /// element is queried in order and a strictly smaller distance replaces
    /// the best so far, so among equally near hits the first-encountered
    /// element wins.
    pub open spec fn trace_upto(self, ray: Ray, n: int) -> Option<Intersection>
        decreases n,
    {
        if n <= 0 {
            None
        } else {
            let prev = self.trace_upto(ray, n - 1);
            match self.elements@[n - 1].intersect_spec(ray) {
                None => prev,
                Some(d) => match prev {
                    None => Some(Intersection { distance: d, element: (n - 1) as usize }),
                    Some(pi) => if d < pi.distance {
                        Some(Intersection { distance: d, element: (n - 1) as usize })
                    } else {
                        Some(pi)
                    },
                },
            }
        }
    }

    /// Value of the nearest-hit scan over the whole element sequence.
    pub open spec fn trace_spec(self, ray: Ray) -> Option<Intersection> {
        self.trace_upto(ray, self.elements@.len() as int)
    }

    /// Scans every element linearly and returns the nearest hit, if any:
    /// the query that serves both primary visibility rays and shadow rays.
    pub fn trace(&self, ray: &Ray) -> (r: Option<Intersection>)
        ensures
            r == self.trace_spec(*ray),
            r matches Some(i) ==> i.element < self.elements@.len() && i.distance >= 0,
    {
        let mut best: Option<Intersection> = None;
        let mut k: usize = 0;
        while k < self.elements.len()
            invariant
                k <= self.elements@.len(),
                best == self.trace_upto(*ray, k as int),
                best matches Some(i) ==> i.element < k && i.distance >= 0,
            decreases self.elements@.len() - k,
        {
            match self.elements[k].intersect(ray) {
                None => {},
                Some(d) => {
                    proof {
                        lemma_intersect_nonneg(self.elements@[k as int], *ray);
                    }
                    let better = match &best {
                        None => true,
                        Some(b) => d < b.distance,
                    };
                    if better {
                        best = Some(Intersection::new(d, k));
                    }
                },
            }
            k = k + 1;
        }
        best
    }
}

/// What the scan over the first `n` elements promises: a returned hit names
/// an element among them whose own query gives exactly that distance, none
/// of them beats it, and when nothing is returned, none of them hits at all.
#[verifier::rlimit(100)]
proof fn lemma_trace_upto_none(scene: Scene, ray: Ray, n: int)
    ensures
        scene.trace_upto(ray, n) is None ==> forall|j: int|
            0 <= j < n ==> #[trigger] scene.elements@[j].intersect_spec(ray) is None,
    decreases n,
{
    if n > 0 {
        lemma_trace_upto_none(scene, ray, n - 1);
    }
}

#[verifier::rlimit(100)]
proof fn lemma_trace_upto_hit(scene: Scene, ray: Ray, n: int)
    requires
        n <= usize::MAX,
    ensures
        scene.trace_upto(ray, n) matches Some(i) ==> 0 <= i.element < n && scene.elements@[
            i.element as int
        ].intersect_spec(ray) == Some(i.distance),
    decreases n,
{
    if n > 0 {
        lemma_trace_upto_hit(scene, ray, n - 1);
    }
}

#[verifier::rlimit(100)]
proof fn lemma_trace_upto_minimal(scene: Scene, ray: Ray, n: int)
    ensures
        scene.trace_upto(ray, n) matches Some(i) ==> forall|j: int|
            0 <= j < n ==> (#[trigger] scene.elements@[j].intersect_spec(ray) matches Some(d) ==> d
                >= i.distance),
    decreases n,
{
    if n > 0 {
        lemma_trace_upto_minimal(scene, ray, n - 1);
        lemma_trace_upto_none(scene, ray, n - 1);
    }
}

/// A hit that `trace` returns is real and nearest: the named element's own
/// query returns exactly the returned distance and no element's query beats
/// it; and when `trace` returns nothing, no element hits the ray. (Any
/// element sequence an executable scene can hold fits the machine's index
/// range.)
pub proof fn lemma_trace_nearest(scene: Scene, ray: Ray)
    requires
        scene.elements@.len() <= usize::MAX,
    ensures
        scene.trace_spec(ray) matches Some(i) ==> {
            &&& i.element < scene.elements@.len()
            &&& scene.elements@[i.element as int].intersect_spec(ray) == Some(i.distance)
            &&& forall|j: int|
                0 <= j < scene.elements@.len() ==> (#[trigger] scene.elements@[j].intersect_spec(
                    ray,
                ) matches Some(d) ==> d >= i.distance)
        },
        scene.trace_spec(ray) is None ==> forall|j: int|
            0 <= j < scene.elements@.len() ==> #[trigger] scene.elements@[j].intersect_spec(ray)
                is None,
{
    let n = scene.elements@.len() as int;
    lemma_trace_upto_none(scene, ray, n);
    lemma_trace_upto_hit(scene, ray, n);
    lemma_trace_upto_minimal(scene, ray, n);
}

/// An empty element sequence yields no hit for any ray.
pub proof fn lemma_trace_empty_scene(scene: Scene, ray: Ray)
    requires
        scene.elements@.len() == 0,
    ensures
        scene.trace_spec(ray) is None,
{
}

/// A ray parallel to a plane — the dot product of the plane's normal and
/// the ray's direction is zero — never intersects it.
pub proof fn lemma_parallel_ray_misses_plane(p: Plane, ray: Ray)
    requires
        p.normal.dot_spec(ray.direction) == 0,
    ensures
        p.intersect_spec(ray) is None,
{
}

} // verus!
