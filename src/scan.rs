use vstd::prelude::*;

verus! {

/// The column of the `k`-th pixel visited: rows are visited from the top
/// one down, each from left to right.
pub open spec fn column_of(width: nat, k: nat) -> nat
    recommends
        width > 0,
{
    k % width
}

/// The row of the `k`-th pixel visited; row `height - 1` is the top one.
pub open spec fn row_of(width: nat, height: nat, k: nat) -> int
    recommends
        width > 0,
{
    height - 1 - k / width
}

/// The `(column, row)` of the `k`-th pixel of a `width` by `height` image.
/// Row numbers grow upwards, so the first pixel is `(0, height - 1)` and the
/// last is `(width - 1, 0)`.
pub fn pixel_at(width: u32, height: u32, k: u64) -> (r: (u32, u32))
    requires
        width > 0,
        k < width as int * height as int,
    ensures
        r.0 == column_of(width as nat, k as nat),
        r.1 == row_of(width as nat, height as nat, k as nat),
{
    let w: u64 = width as u64;
    let row_from_top: u64 = k / w;
    proof {
        assert(k / w < height) by (nonlinear_arith)
            requires
                k < w * height,
                w > 0,
        ;
    }
    ((k % w) as u32, height - 1 - row_from_top as u32)
}

} // verus!
