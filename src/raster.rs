//! The order in which pixels are produced, and a per-pixel seed.
use vstd::prelude::*;
use vstd::arithmetic::div_mod::lemma_fundamental_div_mod_converse;

verus! {

/// The column and the row of the `n`-th pixel written: rows from the top
/// (`height - 1`) down to `0`, each from column `0` to `width - 1`.
pub open spec fn pixel_at(width: int, height: int, n: int) -> (int, int) {
    (n % width, height - 1 - n / width)
}

/// Every pixel `(column, row)` of a `width` by `height` image in output order.
pub fn pixel_order(width: u32, height: u32) -> (r: Vec<(u32, u32)>)
    requires
        width as int * height as int <= usize::MAX,
    ensures
        r@.len() == width as int * height as int,
        forall|n: int|
            0 <= n < r@.len() ==> (r@[n].0 as int, r@[n].1 as int) == pixel_at(
                width as int,
                height as int,
                n,
            ),
{
    let mut out: Vec<(u32, u32)> = Vec::new();
    let mut row: u32 = height;
    while row > 0
        invariant
            row <= height,
            width as int * height as int <= usize::MAX,
            out@.len() == (height - row) as int * width as int,
            forall|n: int|
                0 <= n < out@.len() ==> (out@[n].0 as int, out@[n].1 as int) == pixel_at(
                    width as int,
                    height as int,
                    n,
                ),
        decreases row,
    {
        row = row - 1;
        let done: Ghost<int> = Ghost((height - 1 - row) as int);
        let mut col: u32 = 0;
        while col < width
            invariant
                row < height,
                col <= width,
                done@ == height - 1 - row,
                width as int * height as int <= usize::MAX,
                out@.len() == done@ * width + col,
                forall|n: int|
                    0 <= n < out@.len() ==> (out@[n].0 as int, out@[n].1 as int) == pixel_at(
                        width as int,
                        height as int,
                        n,
                    ),
            decreases width - col,
        {
            proof {
                let n = done@ * width + col;
                lemma_fundamental_div_mod_converse(n, width as int, done@, col as int);
            }
            out.push((col, row));
            col = col + 1;
        }
        assert(out@.len() == (height - row) as int * width as int) by (nonlinear_arith)
            requires
                out@.len() == done@ * width + width,
                done@ == height - 1 - row,
        ;
    }
    assert(height as int * width as int == width as int * height as int) by (nonlinear_arith);
    out
}

/// The odd multiplier that spreads consecutive pixel indices over all seeds.
pub const SEED_STRIDE: u64 = 0x9E37_79B9_7F4A_7C15;

pub open spec fn seed_spec(seed: u64, index: u64) -> int {
    (seed as int + (index as int * SEED_STRIDE as int) % 0x1_0000_0000_0000_0000) % 0x1_0000_0000_0000_0000
}

/// The seed of pixel number `index` of a render seeded with `seed`: the same
/// pair always gives the same seed, whatever order pixels are rendered in.
pub fn pixel_seed(seed: u64, index: u64) -> (r: u64)
    ensures
        r as int == seed_spec(seed, index),
{
    let spread = index.wrapping_mul(SEED_STRIDE);
    seed.wrapping_add(spread)
}

} // verus!
