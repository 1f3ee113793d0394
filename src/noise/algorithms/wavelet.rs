//! The integer half of wavelet noise: locating a lattice cell in the
//! periodic noise tile.

use vstd::prelude::*;

use crate::util::{lemma_floor_modulo_positive, FloorRem};

verus! {

/// The edge length of the wavelet noise tile.
pub const WAVELET_TILE_SIZE: i32 = 32;

/// The position in the tile, stored x fastest, of the lattice cell
/// `(x, y, z)`: each coordinate wraps into `0..32` by floor modulo, so that
/// negative coordinates wrap to the far side of the tile.
pub open spec fn tile_position(x: int, y: int, z: int) -> int {
    x % 32 + 32 * (y % 32) + 1024 * (z % 32)
}

fn wrap(v: i32) -> (r: i32)
    ensures
        r == (v as int) % 32,
        0 <= r < 32,
{
    proof {
        lemma_floor_modulo_positive(v as int, 32);
    }
    v.floor_modulo(WAVELET_TILE_SIZE)
}

/// Returns the index in the tile data of the lattice cell `(x, y, z)`.
pub fn tile_index(x: i32, y: i32, z: i32) -> (r: usize)
    ensures
        r == tile_position(x as int, y as int, z as int),
        r < 32 * 32 * 32,
{
    let cx = wrap(x) as usize;
    let cy = wrap(y) as usize;
    let cz = wrap(z) as usize;
    cz * 1024 + cy * 32 + cx
}

} // verus!
