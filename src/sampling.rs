//! Uniform draws turned into exact fixed-point points of the unit ball and disc.
//!
//! A draw is a 24-bit numerator `k` of the fraction `k / 2^24`, exactly the
//! value a 32-bit float uniform in `[0, 1)` is built from. A coordinate in
//! `[-1, 1)` is `2k - 2^24` over the same denominator, so every coordinate
//! is an even integer in `[-2^24, 2^24)`.
use rand::RngCore;
use rand::rngs::StdRng;
use vstd::prelude::*;

verus! {

/// Denominator of every fixed-point fraction handed out here.
pub const UNIT_SCALE: i64 = 16777216;

/// Rejected draws tolerated before a sampler settles on the centre.
pub const MAX_ATTEMPTS: u32 = 64;

#[verifier::external_type_specification]
#[verifier::external_body]
pub struct ExStdRng(StdRng);

/// Relies on rand's `RngCore::next_u32` for `StdRng`: any 32-bit value.
#[verifier::external_body]
fn next_draw(rng: &mut StdRng) -> (r: u32) {
    rng.next_u32()
}

/// A point with fixed-point coordinates `x / 2^24`, `y / 2^24`, `z / 2^24`.
#[derive(Clone, Copy, Debug, PartialEq, Eq, Structural)]
pub struct UnitPoint {
    pub x: i64,
    pub y: i64,
    pub z: i64,
}

/// The numerator of the uniform fraction that a 32-bit draw stands for.
pub open spec fn fraction_of(d: u32) -> int {
    d as int / 256
}

/// The coordinate in `[-1, 1)` made from one draw.
pub open spec fn coord_of(d: u32) -> int {
    2 * fraction_of(d) - UNIT_SCALE
}

/// A coordinate that some draw yields.
pub open spec fn on_grid(n: int) -> bool {
    -UNIT_SCALE <= n < UNIT_SCALE && n % 2 == 0
}

/// Squared length of a point, in units of `2^-48`.
pub open spec fn norm2(p: UnitPoint) -> int {
    p.x * p.x + p.y * p.y + p.z * p.z
}

/// The point lies strictly inside the unit ball.
pub open spec fn in_unit_ball(p: UnitPoint) -> bool {
    norm2(p) < UNIT_SCALE * UNIT_SCALE
}

/// A point of the ball that the sampler can hand out.
pub open spec fn ball_sample(p: UnitPoint) -> bool {
    on_grid(p.x as int) && on_grid(p.y as int) && on_grid(p.z as int) && in_unit_ball(p)
}

/// A point of the disc (the ball's slice at `z = 0`) that the sampler can hand out.
pub open spec fn disc_sample(p: UnitPoint) -> bool {
    ball_sample(p) && p.z == 0
}

proof fn lemma_square_bound(n: i64)
    requires
        -UNIT_SCALE <= n <= UNIT_SCALE,
    ensures
        0 <= n * n <= UNIT_SCALE * UNIT_SCALE,
{
    assert(0 <= n * n <= 16777216 * 16777216) by (nonlinear_arith)
        requires
            -16777216 <= n <= 16777216,
    ;
}

/// The coordinate in `[-1, 1)` made from one draw, as `2k - 2^24` for `k = d >> 8`.
pub fn coord_from_draw(d: u32) -> (r: i64)
    ensures
        r == coord_of(d),
        on_grid(r as int),
{
    let k: i64 = (d / 256) as i64;
    2 * k - UNIT_SCALE
}

/// The numerator `k < 2^24` of a uniform fraction `k / 2^24` in `[0, 1)`.
pub fn drand(rng: &mut StdRng) -> (r: u32)
    ensures
        r < 16777216,
{
    next_draw(rng) / 256
}

/// Three independent uniform fraction numerators, each below `2^24`.
pub fn rand_vec3(rng: &mut StdRng) -> (r: (u32, u32, u32))
    ensures
        r.0 < 16777216,
        r.1 < 16777216,
        r.2 < 16777216,
{
    let a = drand(rng);
    let b = drand(rng);
    let c = drand(rng);
    (a, b, c)
}

/// The ball candidate made from three draws, kept only if it lies strictly
/// inside the unit ball.
pub fn point_from_draws(a: u32, b: u32, c: u32) -> (r: Option<UnitPoint>)
    ensures
        ({
            let p = UnitPoint { x: coord_of(a) as i64, y: coord_of(b) as i64, z: coord_of(c) as i64 };
            r == if in_unit_ball(p) { Some(p) } else { None }
        }),
        r matches Some(p) ==> ball_sample(p),
{
    let x = coord_from_draw(a);
    let y = coord_from_draw(b);
    let z = coord_from_draw(c);
    proof {
        lemma_square_bound(x);
        lemma_square_bound(y);
        lemma_square_bound(z);
    }
    let p = UnitPoint { x, y, z };
    let n = x * x + y * y + z * z;
    if n < UNIT_SCALE * UNIT_SCALE {
        Some(p)
    } else {
        None
    }
}

/// The disc candidate made from two draws, kept only if it lies strictly
/// inside the unit disc.
pub fn disc_point_from_draws(a: u32, b: u32) -> (r: Option<UnitPoint>)
    ensures
        ({
            let p = UnitPoint { x: coord_of(a) as i64, y: coord_of(b) as i64, z: 0 };
            r == if in_unit_ball(p) { Some(p) } else { None }
        }),
        r matches Some(p) ==> disc_sample(p),
{
    let x = coord_from_draw(a);
    let y = coord_from_draw(b);
    proof {
        lemma_square_bound(x);
        lemma_square_bound(y);
    }
    let p = UnitPoint { x, y, z: 0 };
    let n = x * x + y * y;
    if n < UNIT_SCALE * UNIT_SCALE {
        Some(p)
    } else {
        None
    }
}

/// A point strictly inside the unit ball, by rejection sampling.
///
/// Each attempt draws three coordinates; after `MAX_ATTEMPTS` rejected
/// attempts (chance below `2^-60`) the centre is returned.
pub fn random_in_unit_sphere(rng: &mut StdRng) -> (r: UnitPoint)
    ensures
        ball_sample(r),
{
    let mut attempts: u32 = 0;
    while attempts < MAX_ATTEMPTS
        invariant
            attempts <= MAX_ATTEMPTS,
        decreases MAX_ATTEMPTS - attempts,
    {
        let a = next_draw(rng);
        let b = next_draw(rng);
        let c = next_draw(rng);
        if let Some(p) = point_from_draws(a, b, c) {
            return p;
        }
        attempts = attempts + 1;
    }
    UnitPoint { x: 0, y: 0, z: 0 }
}

/// A point strictly inside the unit disc (`z = 0`), by rejection sampling.
///
/// Each attempt draws two coordinates; after `MAX_ATTEMPTS` rejected attempts
/// (chance below `2^-60`) the centre is returned.
pub fn random_in_unit_disc(rng: &mut StdRng) -> (r: UnitPoint)
    ensures
        disc_sample(r),
{
    let mut attempts: u32 = 0;
    while attempts < MAX_ATTEMPTS
        invariant
            attempts <= MAX_ATTEMPTS,
        decreases MAX_ATTEMPTS - attempts,
    {
        let a = next_draw(rng);
        let b = next_draw(rng);
        if let Some(p) = disc_point_from_draws(a, b) {
            return p;
        }
        attempts = attempts + 1;
    }
    UnitPoint { x: 0, y: 0, z: 0 }
}

} // verus!
