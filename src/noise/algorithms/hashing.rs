//! Lattice hashing through a permutation table.

use vstd::prelude::*;

verus! {

/// The table entry that `v` selects: the permutation table wraps its index
/// modulo 256.
pub open spec fn perm(map: Seq<u8>, v: int) -> int {
    map[v % 256] as int
}

/// `v & 0xFF` is `v` modulo 256, for every `i64`.
proof fn lemma_low_byte(v: i64)
    ensures
        (v & 0xFF) as int == (v as int) % 256,
        0 <= v & 0xFF < 256,
{
    let low = v & 0xFF;
    assert(0 <= low < 256) by (bit_vector)
        requires
            low == v & 0xFF,
    ;
    assert(v == (v >> 8) * 256 + low) by (bit_vector)
        requires
            low == v & 0xFF,
    ;
    let q = v >> 8;
    vstd::arithmetic::div_mod::lemma_fundamental_div_mod_converse(v as int, 256, q as int, low as int);
}

/// Returns the entry of `map` that `v` selects, wrapping `v` modulo 256.
pub fn permute(map: &[u8; 256], v: i64) -> (r: i32)
    ensures
        r == perm(map@, v as int),
        0 <= r < 256,
{
    proof {
        lemma_low_byte(v);
    }
    map[(v & 0xFF) as usize] as i32
}

} // verus!
