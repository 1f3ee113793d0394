//! Pseudorandom number generation over the Mersenne Twister or
//! Complementary Multiply With Carry algorithms, and dice notation.

use vstd::prelude::*;
use vstd::string::StringSliceAdditionalSpecFns;

pub mod algorithms;

use crate::random::algorithms::{
    cmwc_seeded_state, mt_seeded_state, Algorithm, ComplementaryMultiplyWithCarry, MersenneTwister,
};

verus! {

/// The integer that a uniform draw of `word` gives in the inclusive range
/// between `min` and `max`, in either order.
pub open spec fn linear_draw(word: u32, min: i32, max: i32) -> i32 {
    let lo = if min <= max { min } else { max };
    let hi = if min <= max { max } else { min };
    (lo + (word as int) % (hi - lo + 1)) as i32
}

/// The generator state after `n` draws from state `v`.
pub open spec fn advance_n<A: Algorithm>(v: A::V, n: nat) -> A::V
    decreases n,
{
    if n == 0 {
        v
    } else {
        A::advance(advance_n::<A>(v, (n - 1) as nat))
    }
}

/// Relies on std::time::SystemTime::now: the current wall-clock time, as
/// whole seconds since the Unix epoch (0 for a clock set before it).
#[verifier::external_body]
fn seconds_since_epoch() -> (r: u64) {
    match std::time::SystemTime::now().duration_since(std::time::UNIX_EPOCH) {
        Ok(d) => d.as_secs(),
        Err(_) => 0,
    }
}

/// A pseudorandom number generator over the raw generator `A`.
#[derive(Clone, Debug)]
pub struct Random<A: Algorithm> {
    algo: A,
}

impl<A: Algorithm> View for Random<A> {
    type V = A::V;

    closed spec fn view(&self) -> A::V {
        self.algo@
    }
}

impl<A: Algorithm> Random<A> {
    /// Whether the generator is in a state it can draw from.
    pub open spec fn wf(&self) -> bool {
        A::valid(self@)
    }

    /// Returns the next raw 32-bit word of the generator.
    pub fn get_int(&mut self) -> (r: u32)
        requires
            old(self).wf(),
        ensures
            r == A::output(old(self)@),
            final(self)@ == A::advance(old(self)@),
            final(self).wf(),
    {
        proof {
            A::lemma_advance_valid(self@);
        }
        self.algo.get_int()
    }

    /// Returns an integer drawn uniformly from the inclusive range between
    /// `min` and `max`; the bounds may come in either order. Every call
    /// consumes one raw word, also when the bounds are equal.
    pub fn get_i32(&mut self, min: i32, max: i32) -> (r: i32)
        requires
            old(self).wf(),
        ensures
            r == linear_draw(A::output(old(self)@), min, max),
            min <= max ==> min <= r <= max,
            max < min ==> max <= r <= min,
            final(self)@ == A::advance(old(self)@),
            final(self).wf(),
    {
        let (lo, hi) = if max < min {
            (max, min)
        } else {
            (min, max)
        };
        let delta: u64 = (hi as i64 - lo as i64 + 1) as u64;
        let word = self.get_int();
        let offset: u64 = (word as u64) % delta;
        (lo as i64 + offset as i64) as i32
    }
}

impl Random<MersenneTwister> {
    /// Returns a generator over the Mersenne Twister, seeded from the
    /// wall-clock time in seconds, truncated to 32 bits.
    pub fn new_mt() -> (r: Random<MersenneTwister>)
        ensures
            r.wf(),
            exists|seed: u32| r@ == mt_seeded_state(seed),
    {
        Self::new_mt_from_seed(seconds_since_epoch() as u32)
    }

    /// Returns a generator over the Mersenne Twister, seeded with `seed`.
    pub fn new_mt_from_seed(seed: u32) -> (r: Random<MersenneTwister>)
        ensures
            r.wf(),
            r@ == mt_seeded_state(seed),
    {
        Random { algo: MersenneTwister::new(seed) }
    }
}

impl Random<ComplementaryMultiplyWithCarry> {
    /// Returns a generator over Complementary Multiply With Carry, seeded
    /// from the wall-clock time in seconds, truncated to 32 bits.
    pub fn new_cmwc() -> (r: Random<ComplementaryMultiplyWithCarry>)
        ensures
            r.wf(),
            exists|seed: u32| r@ == cmwc_seeded_state(seed),
    {
        Self::new_cmwc_from_seed(seconds_since_epoch() as u32)
    }

    /// Returns a generator over Complementary Multiply With Carry, seeded
    /// with `seed`.
    pub fn new_cmwc_from_seed(seed: u32) -> (r: Random<ComplementaryMultiplyWithCarry>)
        ensures
            r.wf(),
            r@ == cmwc_seeded_state(seed),
    {
        Random { algo: ComplementaryMultiplyWithCarry::new(seed) }
    }
}

/// The 32-bit seed that four seed bytes give, the first byte the most
/// significant.
pub fn seed_from_bytes(seed: [u8; 4]) -> (r: u32)
    ensures
        r == seed[0] * 0x100_0000 + seed[1] * 0x1_0000 + seed[2] * 0x100 + seed[3],
{
    (seed[0] as u32) * 0x100_0000 + (seed[1] as u32) * 0x1_0000 + (seed[2] as u32) * 0x100
        + (seed[3] as u32)
}

/// The distribution to use when generating random numbers.
#[derive(Clone, Copy, Debug, PartialEq, Eq, Structural)]
pub enum Distribution {
    /// Linear distribution; all numbers are equally likely.
    Linear,
    /// Gaussian distribution; uses a mean and standard deviation to generate numbers.
    Gaussian,
    /// Gaussian range distribution; uses the given min and max values to derive a mean and
    /// standard deviation for generating numbers.
    GaussianRange,
    /// Gaussian inverse distribution; uses a mean and standard deviation to generate numbers.
    GaussianInverse,
    /// Gaussian inverse range distribution; uses the given min and max values to derive a mean
    /// and standard deviation for generating numbers.
    GaussianRangeInverse,
}


/// Whether `b` is an ASCII decimal digit.
pub open spec fn is_digit(b: u8) -> bool {
    48 <= b <= 57
}

/// The value of the decimal digits `s`.
pub open spec fn digits_value(s: Seq<u8>) -> int
    decreases s.len(),
{
    if s.len() == 0 {
        0
    } else {
        digits_value(s.drop_last()) * 10 + (s.last() - 48)
    }
}

/// Whether `s` is a non-empty run of decimal digits.
pub open spec fn all_digits(s: Seq<u8>) -> bool {
    s.len() > 0 && forall|i: int| 0 <= i < s.len() ==> is_digit(#[trigger] s[i])
}

/// Whether `s` starts with a `+` or `-` sign.
pub open spec fn has_sign(s: Seq<u8>) -> bool {
    s.len() > 0 && (s[0] == 43u8 || s[0] == 45u8)
}

/// `s` without its leading sign, if it has one.
pub open spec fn unsigned_part(s: Seq<u8>) -> Seq<u8> {
    if has_sign(s) { s.drop_first() } else { s }
}

/// The integer that `s` denotes as an `i32` in decimal text (an optional
/// `+` or `-`, then at least one digit), or 0 where it denotes none.
pub open spec fn int_or_zero(s: Seq<u8>) -> int {
    let magnitude = digits_value(unsigned_part(s));
    let v = if has_sign(s) && s[0] == 45u8 { -magnitude } else { magnitude };
    if all_digits(unsigned_part(s)) && i32::MIN <= v <= i32::MAX {
        v
    } else {
        0
    }
}

/// The first index at or after `i` where `s` holds `a` or `b`, or the
/// length of `s` where there is none.
pub open spec fn find_either(s: Seq<u8>, a: u8, b: u8, i: int) -> int
    decreases s.len() - i,
{
    if i >= s.len() {
        s.len() as int
    } else if s[i] == a || s[i] == b {
        i
    } else {
        find_either(s, a, b, i + 1)
    }
}

/// The index of the multiplier separator (`*` or `x`), or the length.
pub open spec fn dice_mul_end(s: Seq<u8>) -> int {
    find_either(s, 42u8, 120u8, 0)
}

/// Where the number of rolls starts: after the multiplier, if any.
pub open spec fn dice_rolls_start(s: Seq<u8>) -> int {
    if dice_mul_end(s) < s.len() { dice_mul_end(s) + 1 } else { 0 }
}

/// The index of the dice letter (`d` or `D`), or the length.
pub open spec fn dice_rolls_end(s: Seq<u8>) -> int {
    find_either(s, 100u8, 68u8, dice_rolls_start(s))
}

/// The index of the offset sign (`+` or `-`), or the length.
pub open spec fn dice_faces_end(s: Seq<u8>) -> int {
    find_either(s, 43u8, 45u8, dice_rolls_end(s) + 1)
}

/// Whether `s` has the dice letter that the notation requires.
pub open spec fn dice_well_formed(s: Seq<u8>) -> bool {
    dice_rolls_end(s) < s.len()
}

/// The value of a draw of one die with `faces` faces from state `v`.
pub open spec fn die_value<A: Algorithm>(v: A::V, faces: i32) -> int {
    linear_draw(A::output(v), 1, faces) as int
}

/// The sum of `n` successive die draws from state `v`.
pub open spec fn dice_sum<A: Algorithm>(v: A::V, n: nat, faces: i32) -> int
    decreases n,
{
    if n == 0 {
        0
    } else {
        dice_sum::<A>(v, (n - 1) as nat, faces) + die_value::<A>(
            advance_n::<A>(v, (n - 1) as nat),
            faces,
        )
    }
}

/// `v` saturated to the range of `i32`.
pub open spec fn saturate_i32(v: int) -> i32 {
    if v < i32::MIN {
        i32::MIN
    } else if v > i32::MAX {
        i32::MAX
    } else {
        v as i32
    }
}

proof fn lemma_digits_value_nonneg(s: Seq<u8>)
    requires
        forall|i: int| 0 <= i < s.len() ==> is_digit(#[trigger] s[i]),
    ensures
        digits_value(s) >= 0,
    decreases s.len(),
{
    if s.len() > 0 {
        lemma_digits_value_nonneg(s.drop_last());
    }
}

/// The decimal value of `s[from..to]` as an `i32`, or 0 where that text
/// is no such value.
fn parse_int_or_zero(s: &[u8], from: usize, to: usize) -> (r: i32)
    requires
        from <= to <= s@.len(),
    ensures
        r == int_or_zero(s@.subrange(from as int, to as int)),
{
    let ghost text = s@.subrange(from as int, to as int);
    let signed = from < to && (s[from] == 43u8 || s[from] == 45u8);
    let negative = signed && s[from] == 45u8;
    let start: usize = if signed {
        from + 1
    } else {
        from
    };
    let ghost body = s@.subrange(start as int, to as int);
    assert(body =~= if signed { text.drop_first() } else { text });
    // The magnitude, capped once it exceeds every `i32` magnitude.
    let cap: i64 = 0x1_0000_0000;
    let mut value: i64 = 0;
    let mut all_digits = true;
    let mut i: usize = start;
    while i < to
        invariant
            start <= i <= to,
            to <= s@.len(),
            body == s@.subrange(start as int, to as int),
            cap == 0x1_0000_0000,
            all_digits == (forall|k: int| start <= k < i ==> is_digit(#[trigger] s@[k])),
            all_digits ==> value == if digits_value(s@.subrange(start as int, i as int)) < cap {
                digits_value(s@.subrange(start as int, i as int))
            } else {
                cap as int
            },
            all_digits ==> 0 <= value <= cap,
        decreases to - i,
    {
        let ghost prefix = s@.subrange(start as int, i as int);
        let ghost next = s@.subrange(start as int, i as int + 1);
        assert(next.drop_last() =~= prefix);
        let c = s[i];
        if c < 48u8 || c > 57u8 {
            all_digits = false;
        } else if all_digits {
            proof {
                assert(forall|k: int| 0 <= k < prefix.len() ==> is_digit(#[trigger] prefix[k]));
                lemma_digits_value_nonneg(prefix);
            }
            let step: i64 = value * 10 + (c - 48u8) as i64;
            value = if step < cap {
                step
            } else {
                cap
            };
        }
        i = i + 1;
    }
    assert(s@.subrange(start as int, to as int) =~= body);
    proof {
        if from < to {
            assert(text[0] == s@[from as int]);
        }
        if all_digits {
            assert(forall|k: int| 0 <= k < body.len() ==> is_digit(#[trigger] body[k])) by {
                assert forall|k: int| 0 <= k < body.len() implies is_digit(#[trigger] body[k]) by {
                    assert(body[k] == s@[start + k]);
                }
            }
            lemma_digits_value_nonneg(body);
        }
    }
    assert(has_sign(text) == signed);
    assert(body == unsigned_part(text));
    if !all_digits || start == to {
        proof {
            if !all_digits {
                let k = choose|k: int| start <= k < to && !is_digit(#[trigger] s@[k]);
                assert(body[k - start] == s@[k]);
                assert(!is_digit(body[k - start]));
            }
        }
        0
    } else if negative {
        if value <= 0x8000_0000 {
            (-value) as i32
        } else {
            0
        }
    } else {
        if value <= 0x7FFF_FFFF {
            value as i32
        } else {
            0
        }
    }
}

proof fn lemma_find_either_bounds(s: Seq<u8>, a: u8, b: u8, i: int)
    requires
        0 <= i <= s.len(),
    ensures
        i <= find_either(s, a, b, i) <= s.len(),
    decreases s.len() - i,
{
    if i < s.len() {
        lemma_find_either_bounds(s, a, b, i + 1);
    }
}

/// The first index at or after `from` where `s` holds `a` or `b`, or the
/// length of `s` where there is none.
fn find_either_exec(s: &[u8], a: u8, b: u8, from: usize) -> (r: usize)
    requires
        from <= s@.len(),
    ensures
        r == find_either(s@, a, b, from as int),
        from <= r <= s@.len(),
{
    proof {
        lemma_find_either_bounds(s@, a, b, from as int);
    }
    let mut i = from;
    while i < s.len()
        invariant
            from <= i <= s@.len(),
            find_either(s@, a, b, i as int) == find_either(s@, a, b, from as int),
        decreases s@.len() - i,
    {
        if s[i] == a || s[i] == b {
            return i;
        }
        i = i + 1;
    }
    i
}

/// A set of dice and the rules for the value of a roll of them.
#[derive(Clone, Copy, Debug, PartialEq, Eq, Structural)]
pub struct Dice {
    /// The number of dice thrown.
    pub nb_rolls: i32,
    /// The number of faces of each die.
    pub nb_faces: i32,
    /// The factor that multiplies the offset total.
    pub multiplier: i32,
    /// The offset added to the sum of the dice.
    pub add_sub: i32,
}

/// The dice that the notation `b` describes.
pub open spec fn dice_of(b: Seq<u8>) -> Dice {
    Dice {
        multiplier: if dice_mul_end(b) < b.len() {
            int_or_zero(b.subrange(0, dice_mul_end(b))) as i32
        } else {
            1
        },
        nb_rolls: int_or_zero(b.subrange(dice_rolls_start(b), dice_rolls_end(b))) as i32,
        nb_faces: int_or_zero(b.subrange(dice_rolls_end(b) + 1, dice_faces_end(b))) as i32,
        add_sub: int_or_zero(b.subrange(dice_faces_end(b), b.len() as int)) as i32,
    }
}

/// The number of dice that a roll of `d` throws.
pub open spec fn roll_count(d: Dice) -> nat {
    if d.nb_rolls > 0 {
        d.nb_rolls as nat
    } else {
        0
    }
}

/// The value of a roll of `d` from generator state `v`.
pub open spec fn roll_value<A: Algorithm>(d: Dice, v: A::V) -> i32 {
    saturate_i32((dice_sum::<A>(v, roll_count(d), d.nb_faces) + d.add_sub) * d.multiplier)
}

impl Dice {
    /// Creates dice from the notation `[mul('*'|'x')]<rolls>('d'|'D')<faces>[('+'|'-')offset]`:
    /// `rolls` dice with `faces` faces are thrown, `offset` is added to their
    /// sum, and that total is multiplied by `mul` (1 where it is absent).
    /// A numeric field that is not a decimal `i32` counts as 0.
    pub fn new(s: &str) -> (r: Dice)
        requires
            dice_well_formed(s.spec_bytes()),
        ensures
            r == dice_of(s.spec_bytes()),
    {
        let b = s.as_bytes();
        let len = b.len();
        let m = find_either_exec(b, 42u8, 120u8, 0);
        let (multiplier, start) = if m < len {
            (parse_int_or_zero(b, 0, m), m + 1)
        } else {
            (1i32, 0usize)
        };
        let r = find_either_exec(b, 100u8, 68u8, start);
        let nb_rolls = parse_int_or_zero(b, start, r);
        let f = find_either_exec(b, 43u8, 45u8, r + 1);
        let nb_faces = parse_int_or_zero(b, r + 1, f);
        let add_sub = parse_int_or_zero(b, f, len);
        Dice { nb_rolls, nb_faces, multiplier, add_sub }
    }

    /// Rolls the dice: the sum of `nb_rolls` die draws of `nb_faces` faces
    /// each, plus `add_sub`, times `multiplier`, saturated to `i32`.
    pub fn roll<A: Algorithm>(&self, rng: &mut Random<A>) -> (r: i32)
        requires
            old(rng).wf(),
        ensures
            r == roll_value::<A>(*self, old(rng)@),
            final(rng)@ == advance_n::<A>(old(rng)@, roll_count(*self)),
            final(rng).wf(),
    {
        let ghost v0 = rng@;
        let mut result: i64 = 0;
        let mut k: i32 = 0;
        while k < self.nb_rolls
            invariant
                0 <= k,
                self.nb_rolls > 0 ==> k <= self.nb_rolls,
                self.nb_rolls <= 0 ==> k == 0,
                rng.wf(),
                rng@ == advance_n::<A>(v0, k as nat),
                result == dice_sum::<A>(v0, k as nat, self.nb_faces),
                -(k as int) * 0x8000_0000 <= result <= (k as int) * 0x8000_0000,
            decreases self.nb_rolls - k,
        {
            let d = rng.get_i32(1, self.nb_faces);
            result = result + d as i64;
            k = k + 1;
        }
        let offset_total: i128 = result as i128 + self.add_sub as i128;
        assert(-0x8000_0000_0000_0000_0000_0000_0000 < offset_total * self.multiplier
            < 0x8000_0000_0000_0000_0000_0000_0000) by (nonlinear_arith)
            requires
                -0x4000_0000_8000_0000 <= offset_total <= 0x4000_0000_8000_0000,
                -0x8000_0000 <= self.add_sub <= 0x7FFF_FFFF,
                -0x8000_0000 <= self.multiplier <= 0x7FFF_FFFF,
        ;
        let total: i128 = offset_total * (self.multiplier as i128);
        if total < i32::MIN as i128 {
            i32::MIN
        } else if total > i32::MAX as i128 {
            i32::MAX
        } else {
            total as i32
        }
    }

    /// Creates dice from the notation `s` (see `new`) and rolls them once.
    pub fn single_roll<A: Algorithm>(rng: &mut Random<A>, s: &str) -> (r: i32)
        requires
            old(rng).wf(),
            dice_well_formed(s.spec_bytes()),
        ensures
            r == roll_value::<A>(dice_of(s.spec_bytes()), old(rng)@),
            final(rng)@ == advance_n::<A>(old(rng)@, roll_count(dice_of(s.spec_bytes()))),
            final(rng).wf(),
    {
        let dice = Self::new(s);
        dice.roll(rng)
    }
}

} // verus!
