//! Grid resolution selection: the extraction engine requires a
//! power-of-two grid, so a requested cell count is rounded up to the least
//! power of two that is at least as large.

use vstd::prelude::*;

verus! {

/// The largest cell count for which the rounded-up resolution still fits
/// in a `u32`.
pub const MAX_CELLS: u32 = 0x8000_0000;

/// `m` is a power of two: it is nonzero and clearing its lowest set bit
/// leaves zero.
pub open spec fn is_pow2(m: u32) -> bool {
    m != 0 && (m & ((m - 1) as u32)) == 0
}

/// Rounds `mesh_cells` up to the least power of two that is `>= mesh_cells`,
/// by propagating the highest set bit of `mesh_cells - 1` into every lower
/// position and then adding one.
pub fn next_power_of_two(mesh_cells: u32) -> (r: u32)
    requires
        1 <= mesh_cells <= MAX_CELLS,
    ensures
        is_pow2(r),
        r >= mesh_cells,
        r < 2 * mesh_cells,
{
    let mut x: u32 = mesh_cells - 1;
    x = x | (x >> 1);
    x = x | (x >> 2);
    x = x | (x >> 4);
    x = x | (x >> 8);
    x = x | (x >> 16);
    proof {
        lemma_bit_fill(mesh_cells, x);
    }
    x + 1
}

/// After OR-ing a value `y = mesh_cells - 1` with all its right shifts,
/// `y + 1` is the least power of two `>= mesh_cells`.
proof fn lemma_bit_fill(n: u32, y: u32)
    by (bit_vector)
    requires
        1 <= n <= 0x8000_0000u32,
        ({
            let a = (n - 1) as u32;
            let b = a | (a >> 1);
            let c = b | (b >> 2);
            let d = c | (c >> 4);
            let e = d | (d >> 8);
            y == (e | (e >> 16))
        }),
    ensures
        y < 0xFFFF_FFFFu32,
        is_pow2((y + 1) as u32),
        y + 1 >= n,
        y + 1 < 2 * n,
{
}

/// Minimality of the rounded resolution: any power of two that is at least
/// the requested count is at least the result. Together with the `ensures`
/// of [`next_power_of_two`], this pins the result as the least power of two
/// `>= n`.
pub proof fn lemma_resolution_least(n: u32, r: u32, m: u32)
    by (bit_vector)
    requires
        n >= 1,
        is_pow2(r),
        r >= n,
        r < 2 * n,
        is_pow2(m),
        m >= n,
    ensures
        m >= r,
{
}

} // verus!
