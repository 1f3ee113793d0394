//! Floor modulo on integers.

use vstd::prelude::*;

use crate::base::{rem_i32, rem_isize, trunc_remainder};

verus! {

/// The floor modulo of `a` by `b` as this library computes it: Rust's
/// truncating remainder, moved up by `b` when it is negative. For a positive
/// `b` it is the remainder in `0..b`.
pub open spec fn floor_modulo_of(a: int, b: int) -> int {
    let m = trunc_remainder(a, b);
    if m < 0 { m + b } else { m }
}

/// Whether `floor_modulo_of(a, b)` is defined and fits between `lo` and `hi`.
pub open spec fn floor_modulo_defined(a: int, b: int, lo: int, hi: int) -> bool {
    b != 0 && !(a == lo && b == -1) && lo <= floor_modulo_of(a, b) <= hi
}

/// Floor modulo: a remainder that, for a positive divisor, is never negative.
pub trait FloorRem: Sized {
    /// Whether `self.floor_modulo(rhs)` is defined.
    spec fn floor_modulo_req(self, rhs: Self) -> bool;

    /// The value of `self.floor_modulo(rhs)`.
    spec fn floor_modulo_spec(self, rhs: Self) -> Self;

    /// Returns the floor modulo of `self` by `rhs`.
    fn floor_modulo(self, rhs: Self) -> (r: Self)
        requires
            self.floor_modulo_req(rhs),
        ensures
            r == self.floor_modulo_spec(rhs),
    ;
}

/// For a positive divisor, the floor modulo is the remainder in `0..b`.
pub proof fn lemma_floor_modulo_positive(a: int, b: int)
    requires
        b > 0,
    ensures
        floor_modulo_of(a, b) == a % b,
        0 <= floor_modulo_of(a, b) < b,
{
    if a < 0 {
        let n = -a;
        let r = n % b;
        let q = n / b;
        assert(n == q * b + r && 0 <= r < b) by (nonlinear_arith)
            requires
                b > 0,
                r == n % b,
                q == n / b,
        ;
        if r == 0 {
            assert(a == (-q) * b + 0) by (nonlinear_arith)
                requires
                    n == q * b,
                    a == -n,
            ;
            vstd::arithmetic::div_mod::lemma_fundamental_div_mod_converse(a, b, -q, 0);
        } else {
            assert(a == (-q - 1) * b + (b - r)) by (nonlinear_arith)
                requires
                    n == q * b + r,
                    a == -n,
            ;
            vstd::arithmetic::div_mod::lemma_fundamental_div_mod_converse(a, b, -q - 1, b - r);
        }
    } else {
        assert(0 <= a % b < b) by (nonlinear_arith)
            requires
                b > 0,
        ;
    }
}

impl FloorRem for i32 {
    open spec fn floor_modulo_req(self, rhs: i32) -> bool {
        floor_modulo_defined(self as int, rhs as int, i32::MIN as int, i32::MAX as int)
    }

    open spec fn floor_modulo_spec(self, rhs: i32) -> i32 {
        floor_modulo_of(self as int, rhs as int) as i32
    }

    fn floor_modulo(self, rhs: i32) -> (r: i32) {
        let m = rem_i32(self, rhs);
        if m < 0 {
            m + rhs
        } else {
            m
        }
    }
}

impl FloorRem for isize {
    open spec fn floor_modulo_req(self, rhs: isize) -> bool {
        floor_modulo_defined(self as int, rhs as int, isize::MIN as int, isize::MAX as int)
    }

    open spec fn floor_modulo_spec(self, rhs: isize) -> isize {
        floor_modulo_of(self as int, rhs as int) as isize
    }

    fn floor_modulo(self, rhs: isize) -> (r: isize) {
        let m = rem_isize(self, rhs);
        if m < 0 {
            m + rhs
        } else {
            m
        }
    }
}

} // verus!
