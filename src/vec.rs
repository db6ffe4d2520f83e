//! Rays over a caller-chosen vector type, and exact reflection on lattice vectors.
use vstd::prelude::*;

verus! {

/// A ray `origin + t * direction`; `V` is the caller's vector type.
#[derive(Clone, Copy, Debug)]
pub struct Ray<V> {
    pub origin: V,
    pub direction: V,
}

impl<V> Ray<V> {
    pub fn new(src: V, dir: V) -> (r: Ray<V>)
        ensures
            r.origin == src,
            r.direction == dir,
    {
        Ray { origin: src, direction: dir }
    }
}

/// Largest magnitude of a lattice component that `reflect` accepts.
pub const LATTICE_BOUND: i64 = 1048576;

/// A vector with integer components.
#[derive(Clone, Copy, Debug, PartialEq, Eq, Structural)]
pub struct Lattice3 {
    pub x: i64,
    pub y: i64,
    pub z: i64,
}

pub open spec fn bounded(v: Lattice3) -> bool {
    -LATTICE_BOUND <= v.x <= LATTICE_BOUND && -LATTICE_BOUND <= v.y <= LATTICE_BOUND
        && -LATTICE_BOUND <= v.z <= LATTICE_BOUND
}

pub open spec fn dot_spec(a: Lattice3, b: Lattice3) -> int {
    a.x * b.x + a.y * b.y + a.z * b.z
}

/// `v - 2 (v . n) n`, component by component.
pub open spec fn reflect_spec(v: Lattice3, n: Lattice3) -> (int, int, int) {
    let d = dot_spec(v, n);
    (v.x - 2 * d * n.x, v.y - 2 * d * n.y, v.z - 2 * d * n.z)
}

proof fn lemma_product_bound(a: i64, b: i64)
    requires
        -LATTICE_BOUND <= a <= LATTICE_BOUND,
        -LATTICE_BOUND <= b <= LATTICE_BOUND,
    ensures
        -LATTICE_BOUND * LATTICE_BOUND <= a * b <= LATTICE_BOUND * LATTICE_BOUND,
{
    assert(-1048576 * 1048576 <= a * b <= 1048576 * 1048576) by (nonlinear_arith)
        requires
            -1048576 <= a <= 1048576,
            -1048576 <= b <= 1048576,
    ;
}

proof fn lemma_scaled_bound(d: int, n: i64)
    requires
        -3 * LATTICE_BOUND * LATTICE_BOUND <= d <= 3 * LATTICE_BOUND * LATTICE_BOUND,
        -LATTICE_BOUND <= n <= LATTICE_BOUND,
    ensures
        -6 * LATTICE_BOUND * LATTICE_BOUND * LATTICE_BOUND <= 2 * d * n
            <= 6 * LATTICE_BOUND * LATTICE_BOUND * LATTICE_BOUND,
{
    assert(-6 * 1048576 * 1048576 * 1048576 <= 2 * d * n <= 6 * 1048576 * 1048576 * 1048576)
        by (nonlinear_arith)
        requires
            -3 * 1048576 * 1048576 <= d <= 3 * 1048576 * 1048576,
            -1048576 <= n <= 1048576,
    ;
}

impl Lattice3 {
    /// The dot product.
    pub fn dot(&self, rhs: Lattice3) -> (r: i64)
        requires
            bounded(*self),
            bounded(rhs),
        ensures
            r == dot_spec(*self, rhs),
            -3 * LATTICE_BOUND * LATTICE_BOUND <= r <= 3 * LATTICE_BOUND * LATTICE_BOUND,
    {
        proof {
            lemma_product_bound(self.x, rhs.x);
            lemma_product_bound(self.y, rhs.y);
            lemma_product_bound(self.z, rhs.z);
        }
        self.x * rhs.x + self.y * rhs.y + self.z * rhs.z
    }
}

/// Mirror `v` about the plane with normal `n`: `v - 2 (v . n) n`.
pub fn reflect(v: Lattice3, n: Lattice3) -> (r: Lattice3)
    requires
        bounded(v),
        bounded(n),
    ensures
        (r.x as int, r.y as int, r.z as int) == reflect_spec(v, n),
{
    let d = v.dot(n);
    proof {
        lemma_scaled_bound(d as int, n.x);
        lemma_scaled_bound(d as int, n.y);
        lemma_scaled_bound(d as int, n.z);
    }
    Lattice3 { x: v.x - 2 * d * n.x, y: v.y - 2 * d * n.y, z: v.z - 2 * d * n.z }
}

} // verus!
