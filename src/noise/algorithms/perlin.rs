//! The integer half of Perlin noise: hashing a lattice corner to a row of
//! the gradient buffer.

use vstd::prelude::*;

use crate::noise::algorithms::hashing::{perm, permute};

verus! {

/// The gradient row of the lattice corner `n`, hashing its first `k`
/// coordinates in order, each through the permutation table.
pub open spec fn lattice_row(map: Seq<u8>, n: Seq<i32>, k: nat) -> int
    decreases k,
{
    if k == 0 {
        0
    } else {
        perm(map, lattice_row(map, n, (k - 1) as nat) + n[k - 1] as int)
    }
}

/// Returns the gradient row of the lattice corner whose first `dimensions`
/// coordinates are given in `n`.
pub fn lattice_index(map: &[u8; 256], n: &[i32; 4], dimensions: usize) -> (r: usize)
    requires
        dimensions <= 4,
    ensures
        r == lattice_row(map@, n@, dimensions as nat),
        r < 256,
{
    let mut index: i32 = 0;
    let mut i: usize = 0;
    while i < dimensions
        invariant
            i <= dimensions <= 4,
            index == lattice_row(map@, n@, i as nat),
            0 <= index < 256,
        decreases dimensions - i,
    {
        index = permute(map, index as i64 + n[i] as i64);
        i = i + 1;
    }
    index as usize
}

} // verus!
