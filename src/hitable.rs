//! The intersection protocol: which root of a sphere's quadratic is taken, and
//! which of the scene's hits is the closest.
use crate::material::Material;
use crate::vec::{bounded, dot_spec, Lattice3, Ray, LATTICE_BOUND};
use vstd::prelude::*;

verus! {

/// A successful intersection. `S` is the caller's scalar type, `V` its vector
/// type; `material` is the index of the hit object in the scene, a handle to
/// the material it owns.
#[derive(Clone, Copy, Debug)]
pub struct HitRecord<S, V> {
    pub t: S,
    pub p: V,
    pub normal: V,
    pub material: usize,
}

/// A sphere; a negative radius marks a hollow shell whose normals point inward.
#[derive(Clone, Copy, Debug)]
pub struct Sphere<V, S> {
    pub center: V,
    pub radius: S,
    pub material: Material<V, S>,
}

/// Which root of `a t^2 + 2 b t + c = 0` an intersection uses.
#[derive(Clone, Copy, Debug, PartialEq, Eq, Structural)]
pub enum Root {
    /// `(-b - sqrt(b^2 - a c)) / a`
    Near,
    /// `(-b + sqrt(b^2 - a c)) / a`
    Far,
}

/// The root an intersection takes, given whether the discriminant
/// `b^2 - a c` is strictly positive and whether each root lies strictly inside
/// `(t_min, t_max)`.
pub open spec fn root_choice(discriminant_positive: bool, near_in_range: bool, far_in_range: bool) -> Option<Root> {
    if !discriminant_positive {
        None
    } else if near_in_range {
        Some(Root::Near)
    } else if far_in_range {
        Some(Root::Far)
    } else {
        None
    }
}

/// Chooses the root of a sphere's quadratic that an intersection uses.
///
/// A discriminant of zero (a tangent ray) or below is a miss; otherwise the
/// near root wins whenever it lies strictly inside the interval, and the far
/// root is used only when the near one does not.
pub fn pick_root(discriminant_positive: bool, near_in_range: bool, far_in_range: bool) -> (r: Option<Root>)
    ensures
        r == root_choice(discriminant_positive, near_in_range, far_in_range),
        !discriminant_positive ==> r is None,
        discriminant_positive && near_in_range ==> r == Some(Root::Near),
        r == Some(Root::Far) ==> far_in_range && !near_in_range,
{
    if !discriminant_positive {
        None
    } else if near_in_range {
        Some(Root::Near)
    } else if far_in_range {
        Some(Root::Far)
    } else {
        None
    }
}

/// Index `i` holds the first smallest key among the present ones.
pub open spec fn is_first_min(keys: Seq<Option<u32>>, i: int) -> bool {
    0 <= i < keys.len() && keys[i] is Some
        && (forall|j: int| 0 <= j < keys.len() && keys[j] is Some ==> keys[i]->0 <= keys[j]->0)
        && (forall|j: int| 0 <= j < i && keys[j] is Some ==> keys[i]->0 < keys[j]->0)
}

/// The closest hit of a linear scan over every object of the scene.
///
/// `keys[i]` is `None` where object `i` is missed, else a key that orders as
/// the hit distances do. Every object is looked at; of equally close hits the
/// first is kept.
pub fn closest_hit(keys: &Vec<Option<u32>>) -> (r: Option<usize>)
    ensures
        r is None <==> (forall|j: int| 0 <= j < keys@.len() ==> keys@[j] is None),
        r matches Some(i) ==> is_first_min(keys@, i as int),
{
    let mut best: Option<usize> = None;
    let mut i: usize = 0;
    while i < keys.len()
        invariant
            i <= keys@.len(),
            best is None <==> (forall|j: int| 0 <= j < i ==> keys@[j] is None),
            best matches Some(b) ==> b < i && is_first_min(keys@.subrange(0, i as int), b as int),
        decreases keys.len() - i,
    {
        if let Some(k) = keys[i] {
            match best {
                None => {
                    best = Some(i);
                },
                Some(b) => {
                    let prev = keys[b].unwrap();
                    if k < prev {
                        best = Some(i);
                    }
                },
            }
        }
        i = i + 1;
        assert(keys@.subrange(0, i as int) =~= keys@.subrange(0, i - 1).push(keys@[i - 1]));
    }
    assert(keys@.subrange(0, keys@.len() as int) =~= keys@);
    best
}

/// Coefficients `(a, b, c)` of `a t^2 + 2 b t + c = 0`, whose roots are where
/// the ray `origin + t * dir` meets the sphere.
pub open spec fn quadratic(center: Lattice3, radius: int, origin: Lattice3, dir: Lattice3) -> (int, int, int) {
    let (ox, oy, oz) = (origin.x - center.x, origin.y - center.y, origin.z - center.z);
    (
        dot_spec(dir, dir),
        ox * dir.x + oy * dir.y + oz * dir.z,
        ox * ox + oy * oy + oz * oz - radius * radius,
    )
}

/// `lo < (-b - sqrt(d)) / a < hi`, for `a > 0`, without the square root.
pub open spec fn near_inside(a: int, b: int, d: int, lo: int, hi: int) -> bool {
    let p = -(a * lo + b);
    let q = -(a * hi + b);
    (p > 0 && p * p > d) && (q < 0 || q * q < d)
}

/// `lo < (-b + sqrt(d)) / a < hi`, for `a > 0`, without the square root.
pub open spec fn far_inside(a: int, b: int, d: int, lo: int, hi: int) -> bool {
    let u = a * lo + b;
    let w = a * hi + b;
    (u < 0 || u * u < d) && (w > 0 && w * w > d)
}

/// The root that the ray `origin + t * dir` takes on the sphere, with `t`
/// strictly inside `(lo, hi)`.
pub open spec fn lattice_hit(center: Lattice3, radius: int, origin: Lattice3, dir: Lattice3, lo: int, hi: int) -> Option<Root> {
    let (a, b, c) = quadratic(center, radius, origin, dir);
    let d = b * b - a * c;
    root_choice(d > 0, near_inside(a, b, d, lo, hi), far_inside(a, b, d, lo, hi))
}

pub open spec fn hit_inputs_bounded(s: Sphere<Lattice3, i64>, ray: Ray<Lattice3>, t_min: i64, t_max: i64) -> bool {
    bounded(s.center) && bounded(ray.origin) && bounded(ray.direction)
        && -LATTICE_BOUND <= s.radius <= LATTICE_BOUND
        && -LATTICE_BOUND <= t_min <= LATTICE_BOUND
        && -LATTICE_BOUND <= t_max <= LATTICE_BOUND
}

proof fn lemma_mul_bound(x: int, y: int, bx: nat, by: nat)
    requires
        -bx <= x <= bx,
        -by <= y <= by,
    ensures
        -(bx * by) <= x * y <= bx * by,
{
    assert(-(bx * by) <= x * y <= bx * by) by (nonlinear_arith)
        requires
            -bx <= x <= bx,
            -by <= y <= by,
    ;
}

proof fn lemma_square_nonneg(x: int)
    ensures
        x * x >= 0,
{
    assert(x * x >= 0) by (nonlinear_arith);
}

/// `x * x` compared with `d`, for `|x| < 2^62`.
fn square_exceeds(x: i128, d: i128) -> (r: bool)
    requires
        -0x4000_0000_0000_0000 < x < 0x4000_0000_0000_0000,
    ensures
        r == (x * x > d),
{
    proof {
        lemma_mul_bound(x as int, x as int, 0x4000_0000_0000_0000, 0x4000_0000_0000_0000);
    }
    x * x > d
}

fn square_below(x: i128, d: i128) -> (r: bool)
    requires
        -0x4000_0000_0000_0000 < x < 0x4000_0000_0000_0000,
    ensures
        r == (x * x < d),
{
    proof {
        lemma_mul_bound(x as int, x as int, 0x4000_0000_0000_0000, 0x4000_0000_0000_0000);
    }
    x * x < d
}

impl Sphere<Lattice3, i64> {
    /// Intersects a sphere with integer centre and radius by a ray with integer
    /// origin and direction, in exact arithmetic, over the open interval
    /// `(t_min, t_max)`: the root taken, if any.
    pub fn hit(&self, ray: &Ray<Lattice3>, t_min: i64, t_max: i64) -> (r: Option<Root>)
        requires
            hit_inputs_bounded(*self, *ray, t_min, t_max),
            ray.direction != (Lattice3 { x: 0, y: 0, z: 0 }),
        ensures
            r == lattice_hit(self.center, self.radius as int, ray.origin, ray.direction, t_min as int, t_max as int),
    {
        let ox = (ray.origin.x - self.center.x) as i128;
        let oy = (ray.origin.y - self.center.y) as i128;
        let oz = (ray.origin.z - self.center.z) as i128;
        let dx = ray.direction.x as i128;
        let dy = ray.direction.y as i128;
        let dz = ray.direction.z as i128;
        let rad = self.radius as i128;
        proof {
            lemma_mul_bound(dx as int, dx as int, 0x10_0000, 0x10_0000);
            lemma_mul_bound(dy as int, dy as int, 0x10_0000, 0x10_0000);
            lemma_mul_bound(dz as int, dz as int, 0x10_0000, 0x10_0000);
            lemma_mul_bound(ox as int, dx as int, 2 * 0x10_0000, 0x10_0000);
            lemma_mul_bound(oy as int, dy as int, 2 * 0x10_0000, 0x10_0000);
            lemma_mul_bound(oz as int, dz as int, 2 * 0x10_0000, 0x10_0000);
            lemma_mul_bound(ox as int, ox as int, 2 * 0x10_0000, 2 * 0x10_0000);
            lemma_mul_bound(oy as int, oy as int, 2 * 0x10_0000, 2 * 0x10_0000);
            lemma_mul_bound(oz as int, oz as int, 2 * 0x10_0000, 2 * 0x10_0000);
            lemma_mul_bound(rad as int, rad as int, 0x10_0000, 0x10_0000);
            lemma_square_nonneg(dx as int);
            lemma_square_nonneg(dy as int);
            lemma_square_nonneg(dz as int);
        }
        let a = dx * dx + dy * dy + dz * dz;
        let b = ox * dx + oy * dy + oz * dz;
        let c = ox * ox + oy * oy + oz * oz - rad * rad;
        proof {
            lemma_mul_bound(a as int, t_min as int, 3 * 0x10_0000 * 0x10_0000, 0x10_0000);
            lemma_mul_bound(a as int, t_max as int, 3 * 0x10_0000 * 0x10_0000, 0x10_0000);
            assert(0 <= b * b <= 0x1_0000_0000_0000_0000_0000_0000) by (nonlinear_arith)
                requires
                    -0x1_0000_0000_0000 <= b <= 0x1_0000_0000_0000,
            ;
            assert(-0x1_0000_0000_0000_0000_0000_0000 <= a * c <= 0x1_0000_0000_0000_0000_0000_0000)
                by (nonlinear_arith)
                requires
                    0 <= a <= 0x1_0000_0000_0000,
                    -0x1_0000_0000_0000 <= c <= 0x1_0000_0000_0000,
            ;
        }
        let d = b * b - a * c;
        let lo = a * (t_min as i128) + b;
        let hi = a * (t_max as i128) + b;
        let near = (-lo > 0 && square_exceeds(-lo, d)) && (-hi < 0 || square_below(-hi, d));
        let far = (lo < 0 || square_below(lo, d)) && (hi > 0 && square_exceeds(hi, d));
        pick_root(d > 0, near, far)
    }
}

proof fn lemma_compare_squares(x: int, r: int)
    requires
        r > 0,
    ensures
        (x > 0 && x * x > r * r) <==> x > r,
        (x < 0 || x * x < r * r) <==> x < r,
{
    if x > r {
        assert(x * x > r * r) by (nonlinear_arith)
            requires
                x > r,
                r > 0,
        ;
    } else if 0 <= x < r {
        assert(x * x < r * r) by (nonlinear_arith)
            requires
                0 <= x < r,
        ;
    }
}

/// A ray aimed through the centre of a sphere of radius `r` from distance
/// `dist` meets it at `dist - r` and `dist + r`: the near crossing is taken
/// whenever it lies strictly inside the interval, the far one only when the
/// near one does not.
pub proof fn lemma_ray_through_centre(radius: i64, dist: i64, lo: int, hi: int)
    requires
        0 < radius,
        dist > i64::MIN,
    ensures
        ({
            let (a, b, c) = quadratic(
                Lattice3 { x: 0, y: 0, z: 0 },
                radius as int,
                Lattice3 { x: 0, y: 0, z: -dist as i64 },
                Lattice3 { x: 0, y: 0, z: 1 },
            );
            let d = b * b - a * c;
            &&& d == radius * radius
            &&& near_inside(a, b, d, lo, hi) <==> lo < dist - radius < hi
            &&& far_inside(a, b, d, lo, hi) <==> lo < dist + radius < hi
        }),
        lattice_hit(
            Lattice3 { x: 0, y: 0, z: 0 },
            radius as int,
            Lattice3 { x: 0, y: 0, z: -dist as i64 },
            Lattice3 { x: 0, y: 0, z: 1 },
            lo,
            hi,
        ) == if lo < dist - radius < hi {
            Some(Root::Near)
        } else if lo < dist + radius < hi {
            Some(Root::Far)
        } else {
            None
        },
{
    let r = radius as int;
    let dd = dist as int;
    let origin = Lattice3 { x: 0, y: 0, z: -dist as i64 };
    let dir = Lattice3 { x: 0, y: 0, z: 1 };
    assert(origin.z == -dd);
    let (a, b, c) = quadratic(Lattice3 { x: 0, y: 0, z: 0 }, r, origin, dir);
    assert(a == 1);
    assert(b == -dd);
    assert((-dd) * (-dd) == dd * dd) by (nonlinear_arith);
    assert(c == dd * dd - r * r);
    assert(r * r > 0) by (nonlinear_arith)
        requires
            r > 0,
    ;
    assert(b * b - a * c == r * r) by (nonlinear_arith)
        requires
            a == 1,
            b == -dd,
            c == dd * dd - r * r,
    ;
    lemma_compare_squares(dd - lo, r);
    lemma_compare_squares(dd - hi, r);
    lemma_compare_squares(lo - dd, r);
    lemma_compare_squares(hi - dd, r);
}

/// A ray that only touches the sphere (discriminant exactly zero) misses it,
/// whatever the interval.
pub proof fn lemma_tangent_misses(center: Lattice3, radius: int, origin: Lattice3, dir: Lattice3, lo: int, hi: int)
    requires
        ({
            let (a, b, c) = quadratic(center, radius, origin, dir);
            b * b - a * c == 0
        }),
    ensures
        lattice_hit(center, radius, origin, dir, lo, hi) is None,
{
}

/// A ray that grazes a sphere of radius `r` at the origin, running along `x`
/// at height `r`, touches it at one point only and is reported as a miss.
pub proof fn lemma_grazing_ray_misses(radius: i64, dist: i64, lo: int, hi: int)
    ensures
        lattice_hit(
            Lattice3 { x: 0, y: 0, z: 0 },
            radius as int,
            Lattice3 { x: -dist as i64, y: radius, z: 0 },
            Lattice3 { x: 1, y: 0, z: 0 },
            lo,
            hi,
        ) is None,
{
    let r = radius as int;
    let origin = Lattice3 { x: -dist as i64, y: radius, z: 0 };
    let ox = origin.x as int;
    let (a, b, c) = quadratic(Lattice3 { x: 0, y: 0, z: 0 }, r, origin, Lattice3 { x: 1, y: 0, z: 0 });
    assert(a == 1);
    assert(b == ox);
    assert(c == ox * ox);
    assert(b * b - a * c == 0) by (nonlinear_arith)
        requires
            a == 1,
            b == ox,
            c == ox * ox,
    ;
}

} // verus!