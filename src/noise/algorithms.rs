//! Construction of the tables that the noise algorithms share.

use vstd::prelude::*;

pub mod hashing;
pub mod perlin;
pub mod simplex;
pub mod wavelet;

use crate::random::algorithms::Algorithm;
use crate::random::{advance_n, linear_draw, Random};

verus! {

/// The table that maps every byte to itself.
pub open spec fn identity_table() -> Seq<u8> {
    Seq::new(256, |i: int| i as u8)
}

/// `m` with entries `i` and `j` exchanged.
pub open spec fn swap_entries(m: Seq<u8>, i: int, j: int) -> Seq<u8> {
    if i == j {
        m
    } else {
        m.update(i, m[j]).update(j, m[i])
    }
}

/// The table `m` after the last `n` steps of the shuffle, drawing from
/// generator state `v`: the step at index `n - 1` exchanges that entry with
/// the entry at a uniformly drawn index in `0..=255`.
pub open spec fn shuffle_steps<A: Algorithm>(m: Seq<u8>, v: A::V, n: nat) -> Seq<u8>
    decreases n,
{
    if n == 0 {
        m
    } else {
        let j = linear_draw(A::output(v), 0, 255) as int;
        shuffle_steps::<A>(swap_entries(m, n - 1, j), A::advance(v), (n - 1) as nat)
    }
}

/// Whether `m` holds every byte exactly once.
pub open spec fn is_byte_permutation(m: Seq<u8>) -> bool {
    &&& m.len() == 256
    &&& forall|a: int, b: int| 0 <= a < b < 256 ==> m[a] != m[b]
    &&& forall|k: u8| #[trigger] m.contains(k)
}

proof fn lemma_identity_is_permutation()
    ensures
        is_byte_permutation(identity_table()),
{
    let m = identity_table();
    assert forall|k: u8| #[trigger] m.contains(k) by {
        assert(m[k as int] == k);
    }
    assert forall|a: int, b: int| 0 <= a < b < 256 implies m[a] != m[b] by {
        assert(m[a] == a as u8 && m[b] == b as u8);
    }
}

proof fn lemma_swap_keeps_permutation(m: Seq<u8>, i: int, j: int)
    requires
        is_byte_permutation(m),
        0 <= i < 256,
        0 <= j < 256,
    ensures
        is_byte_permutation(swap_entries(m, i, j)),
{
    let s = swap_entries(m, i, j);
    if i != j {
        assert forall|a: int, b: int| 0 <= a < b < 256 implies s[a] != s[b] by {
            let pa = if a == i { j } else if a == j { i } else { a };
            let pb = if b == i { j } else if b == j { i } else { b };
            assert(s[a] == m[pa] && s[b] == m[pb]);
            if pa < pb {
                assert(m[pa] != m[pb]);
            } else {
                assert(m[pb] != m[pa]);
            }
        }
        assert forall|k: u8| #[trigger] s.contains(k) by {
            assert(m.contains(k));
            let p = choose|p: int| 0 <= p < m.len() && m[p] == k;
            let q = if p == i { j } else if p == j { i } else { p };
            assert(s[q] == k);
        }
    }
}

/// The shuffle turns a permutation of the bytes into a permutation of the
/// bytes, whatever the generator state and number of steps.
pub proof fn lemma_shuffle_is_permutation<A: Algorithm>(m: Seq<u8>, v: A::V, n: nat)
    requires
        is_byte_permutation(m),
        n <= 256,
    ensures
        is_byte_permutation(shuffle_steps::<A>(m, v, n)),
    decreases n,
{
    if n > 0 {
        let j = linear_draw(A::output(v), 0, 255) as int;
        lemma_swap_keeps_permutation(m, n - 1, j);
        lemma_shuffle_is_permutation::<A>(swap_entries(m, n - 1, j), A::advance(v), (n - 1) as nat);
    }
}

/// The permutation table of the noise algorithms is a permutation of the
/// bytes for every generator state.
pub proof fn lemma_map_is_permutation<A: Algorithm>(v: A::V)
    ensures
        is_byte_permutation(shuffle_steps::<A>(identity_table(), v, 255)),
{
    lemma_identity_is_permutation();
    lemma_shuffle_is_permutation::<A>(identity_table(), v, 255);
}

/// Builds the tables of a noise algorithm from a generator.
#[derive(Debug)]
pub struct AlgorithmInitializer<R: Algorithm> {
    random: Random<R>,
}

impl<R: Algorithm> AlgorithmInitializer<R> {
    /// Returns an initializer that draws from `random`.
    pub fn new(random: Random<R>) -> (r: AlgorithmInitializer<R>)
        ensures
            r.random() == random,
    {
        AlgorithmInitializer { random }
    }

    /// The generator that the initializer draws from.
    pub closed spec fn random(&self) -> Random<R> {
        self.random
    }

    /// Gives back the generator, in the state that the draws so far left.
    pub fn into_random(self) -> (r: Random<R>)
        ensures
            r == self.random(),
    {
        self.random
    }

    /// Returns a fresh permutation of the bytes: starting from the identity,
    /// each index from 254 down to 0 is exchanged with a uniformly drawn index
    /// in `0..=255` (nothing moves when the two are equal).
    pub fn map(&mut self) -> (r: [u8; 256])
        requires
            old(self).random().wf(),
        ensures
            r@ == shuffle_steps::<R>(identity_table(), old(self).random()@, 255),
            is_byte_permutation(r@),
            final(self).random()@ == advance_n::<R>(old(self).random()@, 255),
            final(self).random().wf(),
    {
        let ghost v0 = self.random@;
        let mut map = [0u8; 256];
        let mut k: usize = 0;
        while k < 256
            invariant
                0 <= k <= 256,
                forall|p: int| 0 <= p < k ==> map@[p] == p as u8,
            decreases 256 - k,
        {
            map[k] = k as u8;
            k = k + 1;
        }
        assert(map@ =~= identity_table());
        let mut n: usize = 255;
        while n > 0
            invariant
                0 <= n <= 255,
                map@.len() == 256,
                self.random.wf(),
                self.random@ == advance_n::<R>(v0, (255 - n) as nat),
                shuffle_steps::<R>(map@, self.random@, n as nat) == shuffle_steps::<R>(
                    identity_table(),
                    v0,
                    255,
                ),
            decreases n,
        {
            let i = n - 1;
            let ghost before = map@;
            let ghost v = self.random@;
            let j = self.random.get_i32(0, 255) as usize;
            if i != j {
                let t = map[i];
                map[i] = map[j];
                map[j] = t;
            }
            assert(map@ =~= swap_entries(before, i as int, j as int));
            assert(self.random@ == R::advance(v));
            n = i;
        }
        proof {
            lemma_map_is_permutation::<R>(v0);
        }
        map
    }
}

} // verus!
