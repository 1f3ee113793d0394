//! The raw 32-bit generators: the Mersenne Twister (MT19937) and
//! Complementary Multiply With Carry.
//!
//! Each generator is a state machine. Its state is modelled by its view, and
//! the `Algorithm` trait states, over that view, exactly which word a draw
//! returns and which state follows it.

use vstd::prelude::*;

verus! {

/// A source of raw 32-bit pseudorandom words.
pub trait Algorithm: View + Sized {
    /// Whether `v` is a state the generator can be in.
    spec fn valid(v: Self::V) -> bool;

    /// The word that the next draw returns from state `v`.
    spec fn output(v: Self::V) -> u32;

    /// The state after one draw from state `v`.
    spec fn advance(v: Self::V) -> Self::V;

    /// Every draw leads from a valid state to a valid state.
    proof fn lemma_advance_valid(v: Self::V)
        requires
            Self::valid(v),
        ensures
            Self::valid(Self::advance(v)),
    ;

    /// Draws the next raw word.
    fn get_int(&mut self) -> (r: u32)
        requires
            Self::valid(old(self)@),
        ensures
            r == Self::output(old(self)@),
            final(self)@ == Self::advance(old(self)@),
    ;
}

/// The number of words in the Mersenne Twister state.
pub const MT_DEGREE: usize = 624;

/// The multiplier of the Mersenne Twister seeding recurrence.
pub const MT_SEED_MULTIPLIER: u32 = 1812433253;

/// The Mersenne Twister twist matrix coefficients.
pub const MT_MATRIX_A: u32 = 0x9908_B0DF;

/// The bit of a word that the twist takes from the word itself.
pub const MT_UPPER_MASK: u32 = 0x8000_0000;

/// The bits of a word that the twist takes from the following word.
pub const MT_LOWER_MASK: u32 = 0x7FFF_FFFF;

/// Word `i` of a freshly seeded state, computed from word `i - 1`.
pub open spec fn mt_seed_word(prev: u32, i: u32) -> u32 {
    MT_SEED_MULTIPLIER.wrapping_mul(prev ^ (prev >> 30u32)).wrapping_add(i)
}

/// The first `n` words of the state seeded with `seed`.
pub open spec fn mt_seeded_prefix(seed: u32, n: nat) -> Seq<u32>
    decreases n,
{
    if n == 0 {
        Seq::empty()
    } else if n == 1 {
        seq![seed]
    } else {
        let p = mt_seeded_prefix(seed, (n - 1) as nat);
        p.push(mt_seed_word(p.last(), (n - 1) as u32))
    }
}

/// The full state seeded with `seed`.
pub open spec fn mt_seeded(seed: u32) -> Seq<u32> {
    mt_seeded_prefix(seed, MT_DEGREE as nat)
}

/// The generator state right after seeding with `seed`: the seeded words,
/// all of them still to be twisted before use.
pub open spec fn mt_seeded_state(seed: u32) -> (Seq<u32>, nat) {
    (mt_seeded(seed), MT_DEGREE as nat)
}

/// The new value of word `k` during a twist, where `t` is the state with
/// words `0..k` already replaced.
pub open spec fn mt_twist_word(t: Seq<u32>, k: int) -> u32 {
    let y = (t[k] & MT_UPPER_MASK) | (t[(k + 1) % (MT_DEGREE as int)] & MT_LOWER_MASK);
    let mag: u32 = if y & 1u32 == 0 { 0 } else { MT_MATRIX_A };
    t[(k + 397) % (MT_DEGREE as int)] ^ (y >> 1u32) ^ mag
}

/// The state `s` with its first `n` words twisted, in order.
pub open spec fn mt_twist_prefix(s: Seq<u32>, n: nat) -> Seq<u32>
    decreases n,
{
    if n == 0 {
        s
    } else {
        let t = mt_twist_prefix(s, (n - 1) as nat);
        t.update(n - 1, mt_twist_word(t, n - 1))
    }
}

/// The state that follows `s` once all of its words have been used.
pub open spec fn mt_twist(s: Seq<u32>) -> Seq<u32> {
    mt_twist_prefix(s, MT_DEGREE as nat)
}

/// The MT19937 tempering transform applied to a state word on output.
pub open spec fn mt_temper(y: u32) -> u32 {
    let y1 = y ^ (y >> 11u32);
    let y2 = y1 ^ ((y1 << 7u32) & 0x9D2C_5680u32);
    let y3 = y2 ^ ((y2 << 15u32) & 0xEFC6_0000u32);
    y3 ^ (y3 >> 18u32)
}

proof fn lemma_twist_prefix_len(s: Seq<u32>, n: nat)
    requires
        n <= s.len(),
    ensures
        mt_twist_prefix(s, n).len() == s.len(),
    decreases n,
{
    if n > 0 {
        lemma_twist_prefix_len(s, (n - 1) as nat);
    }
}

proof fn lemma_seeded_prefix_len(seed: u32, n: nat)
    ensures
        mt_seeded_prefix(seed, n).len() == n,
    decreases n,
{
    if n > 1 {
        lemma_seeded_prefix_len(seed, (n - 1) as nat);
    }
}

/// The Mersenne Twister generator (MT19937).
#[derive(Clone, Debug)]
pub struct MersenneTwister {
    mt: Vec<u32>,
    cur_mt: usize,
}

impl View for MersenneTwister {
    /// The state words and the index of the next word to use.
    type V = (Seq<u32>, nat);

    closed spec fn view(&self) -> (Seq<u32>, nat) {
        (self.mt@, self.cur_mt as nat)
    }
}

impl MersenneTwister {
    /// Returns a generator seeded with `seed`, following the reference
    /// MT19937 initialisation.
    pub fn new(seed: u32) -> (r: MersenneTwister)
        ensures
            r@ == mt_seeded_state(seed),
            MersenneTwister::valid(r@),
    {
        MersenneTwister { mt: Self::mt_init(seed), cur_mt: MT_DEGREE }
    }

    /// Fills the state array from `seed`.
    fn mt_init(seed: u32) -> (r: Vec<u32>)
        ensures
            r@ == mt_seeded(seed),
            r@.len() == MT_DEGREE,
    {
        let mut mt: Vec<u32> = Vec::with_capacity(MT_DEGREE);
        mt.push(seed);
        assert(mt@ =~= mt_seeded_prefix(seed, 1));
        let mut i: usize = 1;
        while i < MT_DEGREE
            invariant
                1 <= i <= MT_DEGREE,
                mt@ == mt_seeded_prefix(seed, i as nat),
                mt@.len() == i,
            decreases MT_DEGREE - i,
        {
            let prev = mt[i - 1];
            let word = MT_SEED_MULTIPLIER.wrapping_mul(prev ^ (prev >> 30u32)).wrapping_add(
                i as u32,
            );
            mt.push(word);
            i = i + 1;
        }
        proof {
            lemma_seeded_prefix_len(seed, MT_DEGREE as nat);
        }
        mt
    }

    /// Replaces every state word, in order, by its twisted value.
    fn twist(&mut self)
        requires
            old(self).mt@.len() == MT_DEGREE,
        ensures
            final(self).mt@ == mt_twist(old(self).mt@),
            final(self).cur_mt == old(self).cur_mt,
    {
        let ghost start = self.mt@;
        let mut i: usize = 0;
        while i < MT_DEGREE
            invariant
                0 <= i <= MT_DEGREE,
                start.len() == MT_DEGREE,
                self.mt@ == mt_twist_prefix(start, i as nat),
                self.mt@.len() == MT_DEGREE,
                self.cur_mt == old(self).cur_mt,
                start == old(self).mt@,
            decreases MT_DEGREE - i,
        {
            let y = (self.mt[i] & MT_UPPER_MASK) | (self.mt[(i + 1) % MT_DEGREE] & MT_LOWER_MASK);
            let mag: u32 = if y & 1 == 0 {
                0
            } else {
                MT_MATRIX_A
            };
            let word = self.mt[(i + 397) % MT_DEGREE] ^ (y >> 1u32) ^ mag;
            self.mt.set(i, word);
            i = i + 1;
        }
    }

    /// Returns the next tempered word, twisting the whole state first when
    /// every word of it has been used.
    fn mt_rand(&mut self) -> (r: u32)
        requires
            MersenneTwister::valid(old(self)@),
        ensures
            r == MersenneTwister::output(old(self)@),
            final(self)@ == MersenneTwister::advance(old(self)@),
    {
        if self.cur_mt == MT_DEGREE {
            self.twist();
            self.cur_mt = 0;
        }
        proof {
            lemma_twist_prefix_len(old(self).mt@, MT_DEGREE as nat);
        }
        let y = self.mt[self.cur_mt];
        self.cur_mt = self.cur_mt + 1;
        let y1 = y ^ (y >> 11u32);
        let y2 = y1 ^ ((y1 << 7u32) & 0x9D2C_5680u32);
        let y3 = y2 ^ ((y2 << 15u32) & 0xEFC6_0000u32);
        y3 ^ (y3 >> 18u32)
    }
}

impl Algorithm for MersenneTwister {
    open spec fn valid(v: (Seq<u32>, nat)) -> bool {
        v.0.len() == MT_DEGREE && v.1 <= MT_DEGREE
    }

    open spec fn output(v: (Seq<u32>, nat)) -> u32 {
        if v.1 == MT_DEGREE {
            mt_temper(mt_twist(v.0)[0])
        } else {
            mt_temper(v.0[v.1 as int])
        }
    }

    open spec fn advance(v: (Seq<u32>, nat)) -> (Seq<u32>, nat) {
        if v.1 == MT_DEGREE {
            (mt_twist(v.0), 1)
        } else {
            (v.0, v.1 + 1)
        }
    }

    proof fn lemma_advance_valid(v: (Seq<u32>, nat)) {
        lemma_twist_prefix_len(v.0, MT_DEGREE as nat);
    }

    fn get_int(&mut self) -> (r: u32) {
        self.mt_rand()
    }
}


/// The number of words in the CMWC lag table.
pub const CMWC_LAG: usize = 4096;

/// The bound below which the CMWC carry is seeded.
pub const CMWC_CARRY_SEED_BOUND: u32 = 809430660;

/// The CMWC multiplier.
pub const CMWC_MULTIPLIER: u64 = 18782;

/// One step of the linear congruential generator that seeds the CMWC table.
pub open spec fn lcg_step(s: u32) -> u32 {
    s.wrapping_mul(1103515245).wrapping_add(12345)
}

/// The state of that generator after `n` steps from `seed`.
pub open spec fn lcg_iterate(seed: u32, n: nat) -> u32
    decreases n,
{
    if n == 0 {
        seed
    } else {
        lcg_step(lcg_iterate(seed, (n - 1) as nat))
    }
}

/// The CMWC lag table seeded with `seed`: word `i` is the LCG state after
/// `i + 1` steps.
pub open spec fn cmwc_seeded_table(seed: u32) -> Seq<u32> {
    Seq::new(CMWC_LAG as nat, |i: int| lcg_iterate(seed, (i + 1) as nat))
}

/// The CMWC carry seeded with `seed`.
pub open spec fn cmwc_seeded_carry(seed: u32) -> u32 {
    lcg_iterate(seed, (CMWC_LAG + 1) as nat) % CMWC_CARRY_SEED_BOUND
}

/// The generator state right after seeding with `seed`.
pub open spec fn cmwc_seeded_state(seed: u32) -> (Seq<u32>, u32, nat) {
    (cmwc_seeded_table(seed), cmwc_seeded_carry(seed), 0nat)
}

/// One CMWC step from lag word `q` and carry `c`: the new carry and the
/// output word, which also replaces the lag word.
pub open spec fn cmwc_step(q: u32, c: u32) -> (u32, u32) {
    let t = CMWC_MULTIPLIER * q + c;
    let c1 = t / 0x1_0000_0000;
    let x0 = (t + c1) % 0x1_0000_0000;
    let x1 = if x0 < c1 { x0 + 1 } else { x0 };
    let c2 = if x0 < c1 { c1 + 1 } else { c1 };
    let x2 = if x1 == u32::MAX { 0 } else { x1 };
    let c3 = if x1 == u32::MAX { c2 + 1 } else { c2 };
    (c3 as u32, (0xFFFF_FFFE - x2) as u32)
}

/// The Complementary Multiply With Carry generator.
#[derive(Clone, Debug)]
pub struct ComplementaryMultiplyWithCarry {
    q: Vec<u32>,
    c: u32,
    cur: usize,
}

impl View for ComplementaryMultiplyWithCarry {
    /// The lag table, the carry and the index of the last word used.
    type V = (Seq<u32>, u32, nat);

    closed spec fn view(&self) -> (Seq<u32>, u32, nat) {
        (self.q@, self.c, self.cur as nat)
    }
}

impl ComplementaryMultiplyWithCarry {
    /// Returns a generator seeded with `seed`: the lag table is filled by a
    /// linear congruential generator, which also gives the carry.
    pub fn new(seed: u32) -> (r: ComplementaryMultiplyWithCarry)
        ensures
            r@ == cmwc_seeded_state(seed),
            ComplementaryMultiplyWithCarry::valid(r@),
    {
        let mut s = seed;
        let mut q: Vec<u32> = Vec::with_capacity(CMWC_LAG);
        let mut i: usize = 0;
        while i < CMWC_LAG
            invariant
                0 <= i <= CMWC_LAG,
                q@.len() == i,
                s == lcg_iterate(seed, i as nat),
                forall|k: int| 0 <= k < i ==> q@[k] == lcg_iterate(seed, (k + 1) as nat),
            decreases CMWC_LAG - i,
        {
            s = s.wrapping_mul(1103515245).wrapping_add(12345);
            q.push(s);
            i = i + 1;
        }
        let c = s.wrapping_mul(1103515245).wrapping_add(12345) % CMWC_CARRY_SEED_BOUND;
        assert(q@ =~= cmwc_seeded_table(seed));
        ComplementaryMultiplyWithCarry { q, c, cur: 0 }
    }

    /// Advances the generator and returns the new lag word.
    fn get_number(&mut self) -> (r: u32)
        requires
            ComplementaryMultiplyWithCarry::valid(old(self)@),
        ensures
            r == ComplementaryMultiplyWithCarry::output(old(self)@),
            final(self)@ == ComplementaryMultiplyWithCarry::advance(old(self)@),
    {
        let next: usize = self.cur + 1;
        let cur = next & 4095;
        assert(cur == next % 4096) by (bit_vector)
            requires
                cur == next & 4095,
        ;
        let old_c = self.c;
        let t: u64 = CMWC_MULTIPLIER * (self.q[cur] as u64) + (self.c as u64);
        let c1: u64 = t >> 32u64;
        assert(c1 == t / 0x1_0000_0000) by (bit_vector)
            requires
                c1 == t >> 32u64,
        ;
        assert(c1 <= 18782) by (nonlinear_arith)
            requires
                c1 == t / 0x1_0000_0000,
                t <= 18782 * 0xFFFF_FFFFu64 + 809430660,
        ;
        self.c = c1 as u32;
        let sum: u64 = t + c1;
        let mut x: u32 = sum as u32;
        assert(x == sum % 0x1_0000_0000) by (bit_vector)
            requires
                x == sum as u32,
        ;
        if x < self.c {
            x = x + 1;
            self.c = self.c + 1;
        }
        if x == u32::MAX {
            self.c = self.c + 1;
            x = 0;
        }
        let out = 0xFFFF_FFFEu32 - x;
        self.q.set(cur, out);
        self.cur = cur;
        out
    }
}

impl Algorithm for ComplementaryMultiplyWithCarry {
    open spec fn valid(v: (Seq<u32>, u32, nat)) -> bool {
        v.0.len() == CMWC_LAG && v.1 < CMWC_CARRY_SEED_BOUND && v.2 < CMWC_LAG
    }

    open spec fn output(v: (Seq<u32>, u32, nat)) -> u32 {
        let cur = (v.2 as int + 1) % (CMWC_LAG as int);
        cmwc_step(v.0[cur], v.1).1
    }

    open spec fn advance(v: (Seq<u32>, u32, nat)) -> (Seq<u32>, u32, nat) {
        let cur = (v.2 as int + 1) % (CMWC_LAG as int);
        let (c, x) = cmwc_step(v.0[cur], v.1);
        (v.0.update(cur, x), c, cur as nat)
    }

    proof fn lemma_advance_valid(v: (Seq<u32>, u32, nat)) {
        let cur = (v.2 as int + 1) % (CMWC_LAG as int);
        let q = v.0[cur];
        let c = v.1;
        let t = CMWC_MULTIPLIER * q + c;
        assert(t / 0x1_0000_0000 <= 18782) by (nonlinear_arith)
            requires
                0 <= q <= 0xFFFF_FFFF,
                0 <= c < 809430660,
                t == 18782 * q + c,
        ;
    }

    fn get_int(&mut self) -> (r: u32) {
        self.get_number()
    }
}

} // verus!
