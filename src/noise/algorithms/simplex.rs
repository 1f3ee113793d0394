//! The integer half of simplex noise: the permutation table and the hashing
//! of simplex corners to gradient selectors.

use vstd::prelude::*;

use crate::noise::algorithms::hashing::{perm, permute};
use crate::noise::algorithms::{identity_table, is_byte_permutation, shuffle_steps, AlgorithmInitializer};
use crate::random::algorithms::Algorithm;

verus! {

/// The bit of a four-dimensional comparison code that records whether
/// coordinate `a` exceeds coordinate `b`, for `a < b`.
pub open spec fn pair_bit(a: int, b: int) -> u8 {
    if a == 0 && b == 1 {
        32
    } else if a == 0 && b == 2 {
        16
    } else if a == 1 && b == 2 {
        8
    } else if a == 0 && b == 3 {
        4
    } else if a == 1 && b == 3 {
        2
    } else {
        1
    }
}

/// Whether the comparison code `c` records coordinate `a` above coordinate `b`.
pub open spec fn code_beats(c: u8, a: int, b: int) -> bool {
    if a < b {
        c & pair_bit(a, b) != 0
    } else {
        c & pair_bit(b, a) == 0
    }
}

/// The number of other coordinates that the code records below coordinate `a`.
pub open spec fn code_rank(c: u8, a: int) -> int {
    (if a != 0 && code_beats(c, a, 0) { 1int } else { 0int })
        + (if a != 1 && code_beats(c, a, 1) { 1int } else { 0int })
        + (if a != 2 && code_beats(c, a, 2) { 1int } else { 0int })
        + (if a != 3 && code_beats(c, a, 3) { 1int } else { 0int })
}

/// Whether the code orders the four coordinates consistently, so that
/// their ranks are distinct.
pub open spec fn code_consistent(c: u8) -> bool {
    forall|a: int, b: int| 0 <= a < b < 4 ==> code_rank(c, a) != code_rank(c, b)
}

/// The entry of the four-dimensional simplex table for comparison code `c`
/// and axis `a`: the rank of that coordinate, or 0 for a code that no
/// ordering produces.
pub open spec fn simplex_rank(c: u8, a: int) -> int {
    if code_consistent(c) { code_rank(c, a) } else { 0 }
}

/// Returns the entry of the four-dimensional simplex table for the
/// comparison code `code` (bit 5: x > y, 4: x > z, 3: y > z, 2: x > w,
/// 1: y > w, 0: z > w) and the axis `axis`.
pub fn simplex_4d_rank(code: u8, axis: usize) -> (r: u8)
    requires
        axis < 4,
    ensures
        r == simplex_rank(code, axis as int),
        r < 4,
{
    let x_y = code & 32 != 0;
    let x_z = code & 16 != 0;
    let y_z = code & 8 != 0;
    let x_w = code & 4 != 0;
    let y_w = code & 2 != 0;
    let z_w = code & 1 != 0;
    let ranks: [u8; 4] = [
        (x_y as u8) + (x_z as u8) + (x_w as u8),
        (!x_y as u8) + (y_z as u8) + (y_w as u8),
        (!x_z as u8) + (!y_z as u8) + (z_w as u8),
        (!x_w as u8) + (!y_w as u8) + (!z_w as u8),
    ];
    assert(forall|a: int| 0 <= a < 4 ==> ranks@[a] == code_rank(code, a));
    let consistent = ranks[0] != ranks[1] && ranks[0] != ranks[2] && ranks[0] != ranks[3]
        && ranks[1] != ranks[2] && ranks[1] != ranks[3] && ranks[2] != ranks[3];
    proof {
        if consistent {
            assert forall|a: int, b: int| 0 <= a < b < 4 implies code_rank(code, a) != code_rank(
                code,
                b,
            ) by {
                assert(ranks@[a] == code_rank(code, a) && ranks@[b] == code_rank(code, b));
            }
        } else {
            assert(!code_consistent(code)) by {
                if ranks[0] == ranks[1] {
                    assert(code_rank(code, 0) == code_rank(code, 1));
                } else if ranks[0] == ranks[2] {
                    assert(code_rank(code, 0) == code_rank(code, 2));
                } else if ranks[0] == ranks[3] {
                    assert(code_rank(code, 0) == code_rank(code, 3));
                } else if ranks[1] == ranks[2] {
                    assert(code_rank(code, 1) == code_rank(code, 2));
                } else if ranks[1] == ranks[3] {
                    assert(code_rank(code, 1) == code_rank(code, 3));
                } else {
                    assert(code_rank(code, 2) == code_rank(code, 3));
                }
            }
        }
    }
    if consistent {
        ranks[axis]
    } else {
        0
    }
}

/// Simplex noise over a permutation table of the bytes.
#[derive(Clone, Copy, Debug)]
pub struct Simplex {
    dimensions: usize,
    map: [u8; 256],
}

impl Simplex {
    /// The number of dimensions of the noise.
    pub closed spec fn spec_dimensions(&self) -> usize {
        self.dimensions
    }

    /// The permutation table.
    pub closed spec fn table(&self) -> Seq<u8> {
        self.map@
    }

    /// Returns simplex noise of `dimensions` dimensions whose permutation
    /// table the initializer draws.
    pub fn new<R: Algorithm>(dimensions: usize, initializer: AlgorithmInitializer<R>) -> (r: Simplex)
        requires
            initializer.random().wf(),
        ensures
            r.spec_dimensions() == dimensions,
            r.table() == shuffle_steps::<R>(identity_table(), initializer.random()@, 255),
            is_byte_permutation(r.table()),
    {
        let mut initializer = initializer;
        Simplex { dimensions, map: initializer.map() }
    }

    /// The number of dimensions of the noise.
    pub fn dimensions(&self) -> (r: usize)
        ensures
            r == self.spec_dimensions(),
    {
        self.dimensions
    }

    /// The gradient selector of the one-dimensional corner `i`.
    pub fn hash_1d(&self, i: i32) -> (r: i32)
        ensures
            r == perm(self.table(), i as int),
    {
        permute(&self.map, i as i64)
    }

    /// The gradient selector of the two-dimensional corner `(i, j)`.
    pub fn hash_2d(&self, i: i32, j: i32) -> (r: i32)
        ensures
            r == perm(self.table(), i + perm(self.table(), j as int)),
    {
        let h = permute(&self.map, j as i64);
        permute(&self.map, i as i64 + h as i64)
    }

    /// The gradient selector of the three-dimensional corner `(i, j, k)`.
    pub fn hash_3d(&self, i: i32, j: i32, k: i32) -> (r: i32)
        ensures
            r == perm(self.table(), i + perm(self.table(), j + perm(self.table(), k as int))),
    {
        let h = permute(&self.map, k as i64);
        let h = permute(&self.map, j as i64 + h as i64);
        permute(&self.map, i as i64 + h as i64)
    }

    /// The gradient selector of the four-dimensional corner `(i, j, k, l)`.
    pub fn hash_4d(&self, i: i32, j: i32, k: i32, l: i32) -> (r: i32)
        ensures
            r == perm(
                self.table(),
                i + perm(self.table(), j + perm(self.table(), k + perm(self.table(), l as int))),
            ),
    {
        let h = permute(&self.map, l as i64);
        let h = permute(&self.map, k as i64 + h as i64);
        let h = permute(&self.map, j as i64 + h as i64);
        permute(&self.map, i as i64 + h as i64)
    }
}

} // verus!
