//! Two-component integer values: positions and sizes, signed and unsigned,
//! and rectangles built from them.
//!
//! The arithmetic operators act on both components. Each one requires that
//! its results fit the component type and, for division and remainder, that
//! the divisor is not zero and that no `MIN / -1` occurs; they compute Rust's
//! truncating division and remainder.

use vstd::prelude::*;

use crate::text::{int_text, push_int_text, string_of};

verus! {

/// Whether `v` fits in an `i32`.
pub open spec fn fits_i32(v: int) -> bool {
    i32::MIN <= v <= i32::MAX
}

/// Whether `v` fits in a `u32`.
pub open spec fn fits_u32(v: int) -> bool {
    0 <= v <= u32::MAX
}

/// Rust's truncating quotient of `a` by `b`.
pub open spec fn trunc_quotient(a: int, b: int) -> int {
    if a >= 0 && b > 0 {
        a / b
    } else if a < 0 && b < 0 {
        (-a) / (-b)
    } else if a < 0 {
        -((-a) / b)
    } else {
        -(a / (-b))
    }
}

/// Rust's truncating remainder of `a` by `b`: it takes the sign of `a`.
pub open spec fn trunc_remainder(a: int, b: int) -> int {
    let d = if b > 0 { b } else { -b };
    if a >= 0 { a % d } else { -((-a) % d) }
}

/// Whether `a / b` and `a % b` are defined on `i32`.
pub open spec fn divisible_i32(a: i32, b: i32) -> bool {
    b != 0 && !(a == i32::MIN && b == -1)
}

proof fn lemma_trunc_quotient_bounds(a: int, b: int)
    requires
        b != 0,
    ensures
        a >= 0 && b > 0 ==> 0 <= trunc_quotient(a, b) <= a,
        a < 0 && b < 0 ==> 0 <= trunc_quotient(a, b) <= -a,
        a < 0 && b > 0 ==> a <= trunc_quotient(a, b) <= 0,
        a >= 0 && b < 0 ==> -a <= trunc_quotient(a, b) <= 0,
        b * trunc_quotient(a, b) + trunc_remainder(a, b) == a,
        a >= 0 ==> 0 <= trunc_remainder(a, b) < (if b > 0 { b } else { -b }),
        a < 0 ==> -(if b > 0 { b } else { -b }) < trunc_remainder(a, b) <= 0,
{
    let m = if a >= 0 { a } else { -a };
    let d = if b > 0 { b } else { -b };
    assert(0 <= m / d <= m) by (nonlinear_arith)
        requires
            m >= 0,
            d > 0,
    ;
    assert(d * (m / d) + m % d == m && 0 <= m % d < d) by (nonlinear_arith)
        requires
            m >= 0,
            d > 0,
    ;
    if a >= 0 && b > 0 {
    } else if a < 0 && b < 0 {
        assert(b * trunc_quotient(a, b) == -(d * (m / d))) by (nonlinear_arith)
            requires
                b == -d,
                trunc_quotient(a, b) == m / d,
        ;
    } else if a < 0 {
        assert(b * trunc_quotient(a, b) == -(d * (m / d))) by (nonlinear_arith)
            requires
                b == d,
                trunc_quotient(a, b) == -(m / d),
        ;
    } else {
        assert(b * trunc_quotient(a, b) == d * (m / d)) by (nonlinear_arith)
            requires
                b == -d,
                trunc_quotient(a, b) == -(m / d),
        ;
    }
}

/// Rust's `a / b` on `i32`.
fn div_i32(a: i32, b: i32) -> (r: i32)
    requires
        divisible_i32(a, b),
    ensures
        r == trunc_quotient(a as int, b as int),
{
    proof {
        lemma_trunc_quotient_bounds(a as int, b as int);
        let d: int = if b > 0 { b as int } else { -b };
        assert(0int / d == 0 && 0int / (b as int) == 0) by (nonlinear_arith)
            requires
                d > 0,
                d == b || d == -b,
        ;
        if a < 0 && b < -1 {
            let m: int = -a;
            assert(2 * (m / d) <= m) by (nonlinear_arith)
                requires
                    m > 0,
                    d >= 2,
            ;
        }
    }
    match a.checked_div(b) {
        Some(q) => q,
        None => 0,
    }
}

/// Rust's `a % b` on `i32`.
pub(crate) fn rem_i32(a: i32, b: i32) -> (r: i32)
    requires
        divisible_i32(a, b),
    ensures
        r == trunc_remainder(a as int, b as int),
{
    proof {
        lemma_trunc_quotient_bounds(a as int, b as int);
        let d: int = if b > 0 { b as int } else { -b };
        assert(0int % d == 0) by (nonlinear_arith)
            requires
                d > 0,
        ;
    }
    match a.checked_rem(b) {
        Some(q) => q,
        None => 0,
    }
}

/// Rust's `a % b` on `isize`.
pub(crate) fn rem_isize(a: isize, b: isize) -> (r: isize)
    requires
        b != 0 && !(a == isize::MIN && b == -1),
    ensures
        r == trunc_remainder(a as int, b as int),
{
    proof {
        lemma_trunc_quotient_bounds(a as int, b as int);
        let d: int = if b > 0 { b as int } else { -b };
        assert(0int % d == 0) by (nonlinear_arith)
            requires
                d > 0,
        ;
    }
    match a.checked_rem(b) {
        Some(q) => q,
        None => 0,
    }
}

/// A position determined by its `x` and `y` values.
#[derive(Copy, Clone, Default, PartialEq, Eq, Debug, Structural)]
pub struct Position {
    /// The `x` value.
    pub x: i32,
    /// The `y` value.
    pub y: i32,
}

impl Position {
    /// Returns a value with the given `x` and `y`.
    pub fn new(x: i32, y: i32) -> (r: Position)
        ensures
            r.x == x,
            r.y == y,
    {
        Position { x, y }
    }

    /// Returns the textual form `({x}, {y})`, both in decimal.
    pub fn to_string(&self) -> (r: String)
        ensures
            r@ == seq!['('] + int_text(self.x as int) + seq![',', ' '] + int_text(self.y as int) + seq![')'],
    {
        let mut out: Vec<char> = Vec::new();
        out.push('(');
        push_int_text(self.x as i64, &mut out);
        out.push(',');
        out.push(' ');
        push_int_text(self.y as i64, &mut out);
        out.push(')');
        string_of(out)
    }
}

impl From<Position> for (i32, i32) {
    fn from(v: Position) -> (r: (i32, i32)) {
        (v.x, v.y)
    }
}

impl vstd::std_specs::convert::FromSpecImpl<Position> for (i32, i32) {
    open spec fn obeys_from_spec() -> bool {
        true
    }

    open spec fn from_spec(v: Position) -> (i32, i32) {
        (v.x, v.y)
    }
}

impl From<(i32, i32)> for Position {
    fn from(t: (i32, i32)) -> (r: Position) {
        Position { x: t.0, y: t.1 }
    }
}

impl vstd::std_specs::convert::FromSpecImpl<(i32, i32)> for Position {
    open spec fn obeys_from_spec() -> bool {
        true
    }

    open spec fn from_spec(t: (i32, i32)) -> Position {
        Position { x: t.0, y: t.1 }
    }
}

impl core::ops::Add for Position {
    type Output = Position;

    fn add(self, rhs: Position) -> (r: Position) {
        Position { x: self.x + rhs.x, y: self.y + rhs.y }
    }
}

impl vstd::std_specs::ops::AddSpecImpl for Position {
    open spec fn obeys_add_spec() -> bool {
        true
    }

    open spec fn add_req(self, rhs: Position) -> bool {
        fits_i32(self.x + rhs.x) && fits_i32(self.y + rhs.y)
    }

    open spec fn add_spec(self, rhs: Position) -> Position {
        Position { x: (self.x + rhs.x) as i32, y: (self.y + rhs.y) as i32 }
    }
}

impl core::ops::Add<i32> for Position {
    type Output = Position;

    fn add(self, rhs: i32) -> (r: Position) {
        Position { x: self.x + rhs, y: self.y + rhs }
    }
}

impl vstd::std_specs::ops::AddSpecImpl<i32> for Position {
    open spec fn obeys_add_spec() -> bool {
        true
    }

    open spec fn add_req(self, rhs: i32) -> bool {
        fits_i32(self.x + rhs) && fits_i32(self.y + rhs)
    }

    open spec fn add_spec(self, rhs: i32) -> Position {
        Position { x: (self.x + rhs) as i32, y: (self.y + rhs) as i32 }
    }
}

impl core::ops::Add<(i32, i32)> for Position {
    type Output = Position;

    fn add(self, rhs: (i32, i32)) -> (r: Position) {
        Position { x: self.x + rhs.0, y: self.y + rhs.1 }
    }
}

impl vstd::std_specs::ops::AddSpecImpl<(i32, i32)> for Position {
    open spec fn obeys_add_spec() -> bool {
        true
    }

    open spec fn add_req(self, rhs: (i32, i32)) -> bool {
        fits_i32(self.x + rhs.0) && fits_i32(self.y + rhs.1)
    }

    open spec fn add_spec(self, rhs: (i32, i32)) -> Position {
        Position { x: (self.x + rhs.0) as i32, y: (self.y + rhs.1) as i32 }
    }
}

impl core::ops::AddAssign<i32> for Position {
    fn add_assign(&mut self, rhs: i32)
        requires
            fits_i32(old(self).x + rhs),
            fits_i32(old(self).y + rhs),
        ensures
            final(self).x == old(self).x + rhs,
            final(self).y == old(self).y + rhs,
    {
        self.x = self.x + rhs;
        self.y = self.y + rhs;
    }
}

impl core::ops::AddAssign<(i32, i32)> for Position {
    fn add_assign(&mut self, rhs: (i32, i32))
        requires
            fits_i32(old(self).x + rhs.0),
            fits_i32(old(self).y + rhs.1),
        ensures
            final(self).x == old(self).x + rhs.0,
            final(self).y == old(self).y + rhs.1,
    {
        self.x = self.x + rhs.0;
        self.y = self.y + rhs.1;
    }
}

impl core::ops::Sub for Position {
    type Output = Position;

    fn sub(self, rhs: Position) -> (r: Position) {
        Position { x: self.x - rhs.x, y: self.y - rhs.y }
    }
}

impl vstd::std_specs::ops::SubSpecImpl for Position {
    open spec fn obeys_sub_spec() -> bool {
        true
    }

    open spec fn sub_req(self, rhs: Position) -> bool {
        fits_i32(self.x - rhs.x) && fits_i32(self.y - rhs.y)
    }

    open spec fn sub_spec(self, rhs: Position) -> Position {
        Position { x: (self.x - rhs.x) as i32, y: (self.y - rhs.y) as i32 }
    }
}

impl core::ops::Sub<i32> for Position {
    type Output = Position;

    fn sub(self, rhs: i32) -> (r: Position) {
        Position { x: self.x - rhs, y: self.y - rhs }
    }
}

impl vstd::std_specs::ops::SubSpecImpl<i32> for Position {
    open spec fn obeys_sub_spec() -> bool {
        true
    }

    open spec fn sub_req(self, rhs: i32) -> bool {
        fits_i32(self.x - rhs) && fits_i32(self.y - rhs)
    }

    open spec fn sub_spec(self, rhs: i32) -> Position {
        Position { x: (self.x - rhs) as i32, y: (self.y - rhs) as i32 }
    }
}

impl core::ops::Sub<(i32, i32)> for Position {
    type Output = Position;

    fn sub(self, rhs: (i32, i32)) -> (r: Position) {
        Position { x: self.x - rhs.0, y: self.y - rhs.1 }
    }
}

impl vstd::std_specs::ops::SubSpecImpl<(i32, i32)> for Position {
    open spec fn obeys_sub_spec() -> bool {
        true
    }

    open spec fn sub_req(self, rhs: (i32, i32)) -> bool {
        fits_i32(self.x - rhs.0) && fits_i32(self.y - rhs.1)
    }

    open spec fn sub_spec(self, rhs: (i32, i32)) -> Position {
        Position { x: (self.x - rhs.0) as i32, y: (self.y - rhs.1) as i32 }
    }
}

impl core::ops::SubAssign<i32> for Position {
    fn sub_assign(&mut self, rhs: i32)
        requires
            fits_i32(old(self).x - rhs),
            fits_i32(old(self).y - rhs),
        ensures
            final(self).x == old(self).x - rhs,
            final(self).y == old(self).y - rhs,
    {
        self.x = self.x - rhs;
        self.y = self.y - rhs;
    }
}

impl core::ops::SubAssign<(i32, i32)> for Position {
    fn sub_assign(&mut self, rhs: (i32, i32))
        requires
            fits_i32(old(self).x - rhs.0),
            fits_i32(old(self).y - rhs.1),
        ensures
            final(self).x == old(self).x - rhs.0,
            final(self).y == old(self).y - rhs.1,
    {
        self.x = self.x - rhs.0;
        self.y = self.y - rhs.1;
    }
}

impl core::ops::Mul<i32> for Position {
    type Output = Position;

    fn mul(self, rhs: i32) -> (r: Position) {
        Position { x: self.x * rhs, y: self.y * rhs }
    }
}

impl vstd::std_specs::ops::MulSpecImpl<i32> for Position {
    open spec fn obeys_mul_spec() -> bool {
        true
    }

    open spec fn mul_req(self, rhs: i32) -> bool {
        fits_i32(self.x * rhs) && fits_i32(self.y * rhs)
    }

    open spec fn mul_spec(self, rhs: i32) -> Position {
        Position { x: (self.x * rhs) as i32, y: (self.y * rhs) as i32 }
    }
}

impl core::ops::MulAssign<i32> for Position {
    fn mul_assign(&mut self, rhs: i32)
        requires
            fits_i32(old(self).x * rhs),
            fits_i32(old(self).y * rhs),
        ensures
            final(self).x == old(self).x * rhs,
            final(self).y == old(self).y * rhs,
    {
        self.x = self.x * rhs;
        self.y = self.y * rhs;
    }
}

impl core::ops::Div<i32> for Position {
    type Output = Position;

    fn div(self, rhs: i32) -> (r: Position) {
        Position { x: div_i32(self.x, rhs), y: div_i32(self.y, rhs) }
    }
}

impl vstd::std_specs::ops::DivSpecImpl<i32> for Position {
    open spec fn obeys_div_spec() -> bool {
        true
    }

    open spec fn div_req(self, rhs: i32) -> bool {
        divisible_i32(self.x, rhs) && divisible_i32(self.y, rhs)
    }

    open spec fn div_spec(self, rhs: i32) -> Position {
        Position { x: trunc_quotient(self.x as int, rhs as int) as i32, y: trunc_quotient(self.y as int, rhs as int) as i32 }
    }
}

impl core::ops::DivAssign<i32> for Position {
    fn div_assign(&mut self, rhs: i32)
        requires
            divisible_i32(old(self).x, rhs),
            divisible_i32(old(self).y, rhs),
        ensures
            final(self).x == trunc_quotient(old(self).x as int, rhs as int),
            final(self).y == trunc_quotient(old(self).y as int, rhs as int),
    {
        self.x = div_i32(self.x, rhs);
        self.y = div_i32(self.y, rhs);
    }
}

impl core::ops::Rem<i32> for Position {
    type Output = Position;

    fn rem(self, rhs: i32) -> (r: Position) {
        Position { x: rem_i32(self.x, rhs), y: rem_i32(self.y, rhs) }
    }
}

impl vstd::std_specs::ops::RemSpecImpl<i32> for Position {
    open spec fn obeys_rem_spec() -> bool {
        true
    }

    open spec fn rem_req(self, rhs: i32) -> bool {
        divisible_i32(self.x, rhs) && divisible_i32(self.y, rhs)
    }

    open spec fn rem_spec(self, rhs: i32) -> Position {
        Position { x: trunc_remainder(self.x as int, rhs as int) as i32, y: trunc_remainder(self.y as int, rhs as int) as i32 }
    }
}

impl core::ops::RemAssign<i32> for Position {
    fn rem_assign(&mut self, rhs: i32)
        requires
            divisible_i32(old(self).x, rhs),
            divisible_i32(old(self).y, rhs),
        ensures
            final(self).x == trunc_remainder(old(self).x as int, rhs as int),
            final(self).y == trunc_remainder(old(self).y as int, rhs as int),
    {
        self.x = rem_i32(self.x, rhs);
        self.y = rem_i32(self.y, rhs);
    }
}

impl core::ops::Neg for Position {
    type Output = Position;

    fn neg(self) -> (r: Position) {
        Position { x: -self.x, y: -self.y }
    }
}

impl vstd::std_specs::ops::NegSpecImpl for Position {
    open spec fn obeys_neg_spec() -> bool {
        true
    }

    open spec fn neg_req(self) -> bool {
        self.x != i32::MIN && self.y != i32::MIN
    }

    open spec fn neg_spec(self) -> Position {
        Position { x: -self.x as i32, y: -self.y as i32 }
    }
}

/// An unsigned position determined by its `x` and `y` values.
#[derive(Copy, Clone, Default, PartialEq, Eq, Debug, Structural)]
pub struct UPosition {
    /// The `x` value.
    pub x: u32,
    /// The `y` value.
    pub y: u32,
}

impl UPosition {
    /// Returns a value with the given `x` and `y`.
    pub fn new(x: u32, y: u32) -> (r: UPosition)
        ensures
            r.x == x,
            r.y == y,
    {
        UPosition { x, y }
    }

    /// Returns the textual form `({x}, {y})`, both in decimal.
    pub fn to_string(&self) -> (r: String)
        ensures
            r@ == seq!['('] + int_text(self.x as int) + seq![',', ' '] + int_text(self.y as int) + seq![')'],
    {
        let mut out: Vec<char> = Vec::new();
        out.push('(');
        push_int_text(self.x as i64, &mut out);
        out.push(',');
        out.push(' ');
        push_int_text(self.y as i64, &mut out);
        out.push(')');
        string_of(out)
    }
}

impl From<UPosition> for (u32, u32) {
    fn from(v: UPosition) -> (r: (u32, u32)) {
        (v.x, v.y)
    }
}

impl vstd::std_specs::convert::FromSpecImpl<UPosition> for (u32, u32) {
    open spec fn obeys_from_spec() -> bool {
        true
    }

    open spec fn from_spec(v: UPosition) -> (u32, u32) {
        (v.x, v.y)
    }
}

impl From<(u32, u32)> for UPosition {
    fn from(t: (u32, u32)) -> (r: UPosition) {
        UPosition { x: t.0, y: t.1 }
    }
}

impl vstd::std_specs::convert::FromSpecImpl<(u32, u32)> for UPosition {
    open spec fn obeys_from_spec() -> bool {
        true
    }

    open spec fn from_spec(t: (u32, u32)) -> UPosition {
        UPosition { x: t.0, y: t.1 }
    }
}

impl core::ops::Add for UPosition {
    type Output = UPosition;

    fn add(self, rhs: UPosition) -> (r: UPosition) {
        UPosition { x: self.x + rhs.x, y: self.y + rhs.y }
    }
}

impl vstd::std_specs::ops::AddSpecImpl for UPosition {
    open spec fn obeys_add_spec() -> bool {
        true
    }

    open spec fn add_req(self, rhs: UPosition) -> bool {
        fits_u32(self.x + rhs.x) && fits_u32(self.y + rhs.y)
    }

    open spec fn add_spec(self, rhs: UPosition) -> UPosition {
        UPosition { x: (self.x + rhs.x) as u32, y: (self.y + rhs.y) as u32 }
    }
}

impl core::ops::Add<u32> for UPosition {
    type Output = UPosition;

    fn add(self, rhs: u32) -> (r: UPosition) {
        UPosition { x: self.x + rhs, y: self.y + rhs }
    }
}

impl vstd::std_specs::ops::AddSpecImpl<u32> for UPosition {
    open spec fn obeys_add_spec() -> bool {
        true
    }

    open spec fn add_req(self, rhs: u32) -> bool {
        fits_u32(self.x + rhs) && fits_u32(self.y + rhs)
    }

    open spec fn add_spec(self, rhs: u32) -> UPosition {
        UPosition { x: (self.x + rhs) as u32, y: (self.y + rhs) as u32 }
    }
}

impl core::ops::Add<(u32, u32)> for UPosition {
    type Output = UPosition;

    fn add(self, rhs: (u32, u32)) -> (r: UPosition) {
        UPosition { x: self.x + rhs.0, y: self.y + rhs.1 }
    }
}

impl vstd::std_specs::ops::AddSpecImpl<(u32, u32)> for UPosition {
    open spec fn obeys_add_spec() -> bool {
        true
    }

    open spec fn add_req(self, rhs: (u32, u32)) -> bool {
        fits_u32(self.x + rhs.0) && fits_u32(self.y + rhs.1)
    }

    open spec fn add_spec(self, rhs: (u32, u32)) -> UPosition {
        UPosition { x: (self.x + rhs.0) as u32, y: (self.y + rhs.1) as u32 }
    }
}

impl core::ops::AddAssign<u32> for UPosition {
    fn add_assign(&mut self, rhs: u32)
        requires
            fits_u32(old(self).x + rhs),
            fits_u32(old(self).y + rhs),
        ensures
            final(self).x == old(self).x + rhs,
            final(self).y == old(self).y + rhs,
    {
        self.x = self.x + rhs;
        self.y = self.y + rhs;
    }
}

impl core::ops::AddAssign<(u32, u32)> for UPosition {
    fn add_assign(&mut self, rhs: (u32, u32))
        requires
            fits_u32(old(self).x + rhs.0),
            fits_u32(old(self).y + rhs.1),
        ensures
            final(self).x == old(self).x + rhs.0,
            final(self).y == old(self).y + rhs.1,
    {
        self.x = self.x + rhs.0;
        self.y = self.y + rhs.1;
    }
}

impl core::ops::Sub for UPosition {
    type Output = UPosition;

    fn sub(self, rhs: UPosition) -> (r: UPosition) {
        UPosition { x: self.x - rhs.x, y: self.y - rhs.y }
    }
}

impl vstd::std_specs::ops::SubSpecImpl for UPosition {
    open spec fn obeys_sub_spec() -> bool {
        true
    }

    open spec fn sub_req(self, rhs: UPosition) -> bool {
        fits_u32(self.x - rhs.x) && fits_u32(self.y - rhs.y)
    }

    open spec fn sub_spec(self, rhs: UPosition) -> UPosition {
        UPosition { x: (self.x - rhs.x) as u32, y: (self.y - rhs.y) as u32 }
    }
}

impl core::ops::Sub<u32> for UPosition {
    type Output = UPosition;

    fn sub(self, rhs: u32) -> (r: UPosition) {
        UPosition { x: self.x - rhs, y: self.y - rhs }
    }
}

impl vstd::std_specs::ops::SubSpecImpl<u32> for UPosition {
    open spec fn obeys_sub_spec() -> bool {
        true
    }

    open spec fn sub_req(self, rhs: u32) -> bool {
        fits_u32(self.x - rhs) && fits_u32(self.y - rhs)
    }

    open spec fn sub_spec(self, rhs: u32) -> UPosition {
        UPosition { x: (self.x - rhs) as u32, y: (self.y - rhs) as u32 }
    }
}

impl core::ops::Sub<(u32, u32)> for UPosition {
    type Output = UPosition;

    fn sub(self, rhs: (u32, u32)) -> (r: UPosition) {
        UPosition { x: self.x - rhs.0, y: self.y - rhs.1 }
    }
}

impl vstd::std_specs::ops::SubSpecImpl<(u32, u32)> for UPosition {
    open spec fn obeys_sub_spec() -> bool {
        true
    }

    open spec fn sub_req(self, rhs: (u32, u32)) -> bool {
        fits_u32(self.x - rhs.0) && fits_u32(self.y - rhs.1)
    }

    open spec fn sub_spec(self, rhs: (u32, u32)) -> UPosition {
        UPosition { x: (self.x - rhs.0) as u32, y: (self.y - rhs.1) as u32 }
    }
}

impl core::ops::SubAssign<u32> for UPosition {
    fn sub_assign(&mut self, rhs: u32)
        requires
            fits_u32(old(self).x - rhs),
            fits_u32(old(self).y - rhs),
        ensures
            final(self).x == old(self).x - rhs,
            final(self).y == old(self).y - rhs,
    {
        self.x = self.x - rhs;
        self.y = self.y - rhs;
    }
}

impl core::ops::SubAssign<(u32, u32)> for UPosition {
    fn sub_assign(&mut self, rhs: (u32, u32))
        requires
            fits_u32(old(self).x - rhs.0),
            fits_u32(old(self).y - rhs.1),
        ensures
            final(self).x == old(self).x - rhs.0,
            final(self).y == old(self).y - rhs.1,
    {
        self.x = self.x - rhs.0;
        self.y = self.y - rhs.1;
    }
}

impl core::ops::Mul<u32> for UPosition {
    type Output = UPosition;

    fn mul(self, rhs: u32) -> (r: UPosition) {
        UPosition { x: self.x * rhs, y: self.y * rhs }
    }
}

impl vstd::std_specs::ops::MulSpecImpl<u32> for UPosition {
    open spec fn obeys_mul_spec() -> bool {
        true
    }

    open spec fn mul_req(self, rhs: u32) -> bool {
        fits_u32(self.x * rhs) && fits_u32(self.y * rhs)
    }

    open spec fn mul_spec(self, rhs: u32) -> UPosition {
        UPosition { x: (self.x * rhs) as u32, y: (self.y * rhs) as u32 }
    }
}

impl core::ops::MulAssign<u32> for UPosition {
    fn mul_assign(&mut self, rhs: u32)
        requires
            fits_u32(old(self).x * rhs),
            fits_u32(old(self).y * rhs),
        ensures
            final(self).x == old(self).x * rhs,
            final(self).y == old(self).y * rhs,
    {
        self.x = self.x * rhs;
        self.y = self.y * rhs;
    }
}

impl core::ops::Div<u32> for UPosition {
    type Output = UPosition;

    fn div(self, rhs: u32) -> (r: UPosition) {
        UPosition { x: self.x / rhs, y: self.y / rhs }
    }
}

impl vstd::std_specs::ops::DivSpecImpl<u32> for UPosition {
    open spec fn obeys_div_spec() -> bool {
        true
    }

    open spec fn div_req(self, rhs: u32) -> bool {
        rhs != 0
    }

    open spec fn div_spec(self, rhs: u32) -> UPosition {
        UPosition { x: (self.x / rhs) as u32, y: (self.y / rhs) as u32 }
    }
}

impl core::ops::DivAssign<u32> for UPosition {
    fn div_assign(&mut self, rhs: u32)
        requires
            rhs != 0,
        ensures
            final(self).x == old(self).x / rhs,
            final(self).y == old(self).y / rhs,
    {
        self.x = self.x / rhs;
        self.y = self.y / rhs;
    }
}

impl core::ops::Rem<u32> for UPosition {
    type Output = UPosition;

    fn rem(self, rhs: u32) -> (r: UPosition) {
        UPosition { x: self.x % rhs, y: self.y % rhs }
    }
}

impl vstd::std_specs::ops::RemSpecImpl<u32> for UPosition {
    open spec fn obeys_rem_spec() -> bool {
        true
    }

    open spec fn rem_req(self, rhs: u32) -> bool {
        rhs != 0
    }

    open spec fn rem_spec(self, rhs: u32) -> UPosition {
        UPosition { x: (self.x % rhs) as u32, y: (self.y % rhs) as u32 }
    }
}

impl core::ops::RemAssign<u32> for UPosition {
    fn rem_assign(&mut self, rhs: u32)
        requires
            rhs != 0,
        ensures
            final(self).x == old(self).x % rhs,
            final(self).y == old(self).y % rhs,
    {
        self.x = self.x % rhs;
        self.y = self.y % rhs;
    }
}

/// A size determined by its `width` and `height` values.
#[derive(Copy, Clone, Default, PartialEq, Eq, Debug, Structural)]
pub struct Size {
    /// The `width` value.
    pub width: i32,
    /// The `height` value.
    pub height: i32,
}

impl Size {
    /// Returns a value with the given `width` and `height`.
    pub fn new(width: i32, height: i32) -> (r: Size)
        ensures
            r.width == width,
            r.height == height,
    {
        Size { width, height }
    }

    /// Returns the textual form `{width}x{height}`, both in decimal.
    pub fn to_string(&self) -> (r: String)
        ensures
            r@ == int_text(self.width as int) + seq!['x'] + int_text(self.height as int),
    {
        let mut out: Vec<char> = Vec::new();
        push_int_text(self.width as i64, &mut out);
        out.push('x');
        push_int_text(self.height as i64, &mut out);
        string_of(out)
    }
}

impl From<Size> for (i32, i32) {
    fn from(v: Size) -> (r: (i32, i32)) {
        (v.width, v.height)
    }
}

impl vstd::std_specs::convert::FromSpecImpl<Size> for (i32, i32) {
    open spec fn obeys_from_spec() -> bool {
        true
    }

    open spec fn from_spec(v: Size) -> (i32, i32) {
        (v.width, v.height)
    }
}

impl From<(i32, i32)> for Size {
    fn from(t: (i32, i32)) -> (r: Size) {
        Size { width: t.0, height: t.1 }
    }
}

impl vstd::std_specs::convert::FromSpecImpl<(i32, i32)> for Size {
    open spec fn obeys_from_spec() -> bool {
        true
    }

    open spec fn from_spec(t: (i32, i32)) -> Size {
        Size { width: t.0, height: t.1 }
    }
}

impl core::ops::Add for Size {
    type Output = Size;

    fn add(self, rhs: Size) -> (r: Size) {
        Size { width: self.width + rhs.width, height: self.height + rhs.height }
    }
}

impl vstd::std_specs::ops::AddSpecImpl for Size {
    open spec fn obeys_add_spec() -> bool {
        true
    }

    open spec fn add_req(self, rhs: Size) -> bool {
        fits_i32(self.width + rhs.width) && fits_i32(self.height + rhs.height)
    }

    open spec fn add_spec(self, rhs: Size) -> Size {
        Size { width: (self.width + rhs.width) as i32, height: (self.height + rhs.height) as i32 }
    }
}

impl core::ops::Add<i32> for Size {
    type Output = Size;

    fn add(self, rhs: i32) -> (r: Size) {
        Size { width: self.width + rhs, height: self.height + rhs }
    }
}

impl vstd::std_specs::ops::AddSpecImpl<i32> for Size {
    open spec fn obeys_add_spec() -> bool {
        true
    }

    open spec fn add_req(self, rhs: i32) -> bool {
        fits_i32(self.width + rhs) && fits_i32(self.height + rhs)
    }

    open spec fn add_spec(self, rhs: i32) -> Size {
        Size { width: (self.width + rhs) as i32, height: (self.height + rhs) as i32 }
    }
}

impl core::ops::Add<(i32, i32)> for Size {
    type Output = Size;

    fn add(self, rhs: (i32, i32)) -> (r: Size) {
        Size { width: self.width + rhs.0, height: self.height + rhs.1 }
    }
}

impl vstd::std_specs::ops::AddSpecImpl<(i32, i32)> for Size {
    open spec fn obeys_add_spec() -> bool {
        true
    }

    open spec fn add_req(self, rhs: (i32, i32)) -> bool {
        fits_i32(self.width + rhs.0) && fits_i32(self.height + rhs.1)
    }

    open spec fn add_spec(self, rhs: (i32, i32)) -> Size {
        Size { width: (self.width + rhs.0) as i32, height: (self.height + rhs.1) as i32 }
    }
}

impl core::ops::AddAssign<i32> for Size {
    fn add_assign(&mut self, rhs: i32)
        requires
            fits_i32(old(self).width + rhs),
            fits_i32(old(self).height + rhs),
        ensures
            final(self).width == old(self).width + rhs,
            final(self).height == old(self).height + rhs,
    {
        self.width = self.width + rhs;
        self.height = self.height + rhs;
    }
}

impl core::ops::AddAssign<(i32, i32)> for Size {
    fn add_assign(&mut self, rhs: (i32, i32))
        requires
            fits_i32(old(self).width + rhs.0),
            fits_i32(old(self).height + rhs.1),
        ensures
            final(self).width == old(self).width + rhs.0,
            final(self).height == old(self).height + rhs.1,
    {
        self.width = self.width + rhs.0;
        self.height = self.height + rhs.1;
    }
}

impl core::ops::Sub for Size {
    type Output = Size;

    fn sub(self, rhs: Size) -> (r: Size) {
        Size { width: self.width - rhs.width, height: self.height - rhs.height }
    }
}

impl vstd::std_specs::ops::SubSpecImpl for Size {
    open spec fn obeys_sub_spec() -> bool {
        true
    }

    open spec fn sub_req(self, rhs: Size) -> bool {
        fits_i32(self.width - rhs.width) && fits_i32(self.height - rhs.height)
    }

    open spec fn sub_spec(self, rhs: Size) -> Size {
        Size { width: (self.width - rhs.width) as i32, height: (self.height - rhs.height) as i32 }
    }
}

impl core::ops::Sub<i32> for Size {
    type Output = Size;

    fn sub(self, rhs: i32) -> (r: Size) {
        Size { width: self.width - rhs, height: self.height - rhs }
    }
}

impl vstd::std_specs::ops::SubSpecImpl<i32> for Size {
    open spec fn obeys_sub_spec() -> bool {
        true
    }

    open spec fn sub_req(self, rhs: i32) -> bool {
        fits_i32(self.width - rhs) && fits_i32(self.height - rhs)
    }

    open spec fn sub_spec(self, rhs: i32) -> Size {
        Size { width: (self.width - rhs) as i32, height: (self.height - rhs) as i32 }
    }
}

impl core::ops::Sub<(i32, i32)> for Size {
    type Output = Size;

    fn sub(self, rhs: (i32, i32)) -> (r: Size) {
        Size { width: self.width - rhs.0, height: self.height - rhs.1 }
    }
}

impl vstd::std_specs::ops::SubSpecImpl<(i32, i32)> for Size {
    open spec fn obeys_sub_spec() -> bool {
        true
    }

    open spec fn sub_req(self, rhs: (i32, i32)) -> bool {
        fits_i32(self.width - rhs.0) && fits_i32(self.height - rhs.1)
    }

    open spec fn sub_spec(self, rhs: (i32, i32)) -> Size {
        Size { width: (self.width - rhs.0) as i32, height: (self.height - rhs.1) as i32 }
    }
}

impl core::ops::SubAssign<i32> for Size {
    fn sub_assign(&mut self, rhs: i32)
        requires
            fits_i32(old(self).width - rhs),
            fits_i32(old(self).height - rhs),
        ensures
            final(self).width == old(self).width - rhs,
            final(self).height == old(self).height - rhs,
    {
        self.width = self.width - rhs;
        self.height = self.height - rhs;
    }
}

impl core::ops::SubAssign<(i32, i32)> for Size {
    fn sub_assign(&mut self, rhs: (i32, i32))
        requires
            fits_i32(old(self).width - rhs.0),
            fits_i32(old(self).height - rhs.1),
        ensures
            final(self).width == old(self).width - rhs.0,
            final(self).height == old(self).height - rhs.1,
    {
        self.width = self.width - rhs.0;
        self.height = self.height - rhs.1;
    }
}

impl core::ops::Mul<i32> for Size {
    type Output = Size;

    fn mul(self, rhs: i32) -> (r: Size) {
        Size { width: self.width * rhs, height: self.height * rhs }
    }
}

impl vstd::std_specs::ops::MulSpecImpl<i32> for Size {
    open spec fn obeys_mul_spec() -> bool {
        true
    }

    open spec fn mul_req(self, rhs: i32) -> bool {
        fits_i32(self.width * rhs) && fits_i32(self.height * rhs)
    }

    open spec fn mul_spec(self, rhs: i32) -> Size {
        Size { width: (self.width * rhs) as i32, height: (self.height * rhs) as i32 }
    }
}

impl core::ops::MulAssign<i32> for Size {
    fn mul_assign(&mut self, rhs: i32)
        requires
            fits_i32(old(self).width * rhs),
            fits_i32(old(self).height * rhs),
        ensures
            final(self).width == old(self).width * rhs,
            final(self).height == old(self).height * rhs,
    {
        self.width = self.width * rhs;
        self.height = self.height * rhs;
    }
}

impl core::ops::Div<i32> for Size {
    type Output = Size;

    fn div(self, rhs: i32) -> (r: Size) {
        Size { width: div_i32(self.width, rhs), height: div_i32(self.height, rhs) }
    }
}

impl vstd::std_specs::ops::DivSpecImpl<i32> for Size {
    open spec fn obeys_div_spec() -> bool {
        true
    }

    open spec fn div_req(self, rhs: i32) -> bool {
        divisible_i32(self.width, rhs) && divisible_i32(self.height, rhs)
    }

    open spec fn div_spec(self, rhs: i32) -> Size {
        Size { width: trunc_quotient(self.width as int, rhs as int) as i32, height: trunc_quotient(self.height as int, rhs as int) as i32 }
    }
}

impl core::ops::DivAssign<i32> for Size {
    fn div_assign(&mut self, rhs: i32)
        requires
            divisible_i32(old(self).width, rhs),
            divisible_i32(old(self).height, rhs),
        ensures
            final(self).width == trunc_quotient(old(self).width as int, rhs as int),
            final(self).height == trunc_quotient(old(self).height as int, rhs as int),
    {
        self.width = div_i32(self.width, rhs);
        self.height = div_i32(self.height, rhs);
    }
}

impl core::ops::Rem<i32> for Size {
    type Output = Size;

    fn rem(self, rhs: i32) -> (r: Size) {
        Size { width: rem_i32(self.width, rhs), height: rem_i32(self.height, rhs) }
    }
}

impl vstd::std_specs::ops::RemSpecImpl<i32> for Size {
    open spec fn obeys_rem_spec() -> bool {
        true
    }

    open spec fn rem_req(self, rhs: i32) -> bool {
        divisible_i32(self.width, rhs) && divisible_i32(self.height, rhs)
    }

    open spec fn rem_spec(self, rhs: i32) -> Size {
        Size { width: trunc_remainder(self.width as int, rhs as int) as i32, height: trunc_remainder(self.height as int, rhs as int) as i32 }
    }
}

impl core::ops::RemAssign<i32> for Size {
    fn rem_assign(&mut self, rhs: i32)
        requires
            divisible_i32(old(self).width, rhs),
            divisible_i32(old(self).height, rhs),
        ensures
            final(self).width == trunc_remainder(old(self).width as int, rhs as int),
            final(self).height == trunc_remainder(old(self).height as int, rhs as int),
    {
        self.width = rem_i32(self.width, rhs);
        self.height = rem_i32(self.height, rhs);
    }
}

impl core::ops::Neg for Size {
    type Output = Size;

    fn neg(self) -> (r: Size) {
        Size { width: -self.width, height: -self.height }
    }
}

impl vstd::std_specs::ops::NegSpecImpl for Size {
    open spec fn obeys_neg_spec() -> bool {
        true
    }

    open spec fn neg_req(self) -> bool {
        self.width != i32::MIN && self.height != i32::MIN
    }

    open spec fn neg_spec(self) -> Size {
        Size { width: -self.width as i32, height: -self.height as i32 }
    }
}

/// An unsigned size determined by its `width` and `height` values.
#[derive(Copy, Clone, Default, PartialEq, Eq, Debug, Structural)]
pub struct USize {
    /// The `width` value.
    pub width: u32,
    /// The `height` value.
    pub height: u32,
}

impl USize {
    /// Returns a value with the given `width` and `height`.
    pub fn new(width: u32, height: u32) -> (r: USize)
        ensures
            r.width == width,
            r.height == height,
    {
        USize { width, height }
    }

    /// Returns the textual form `{width}x{height}`, both in decimal.
    pub fn to_string(&self) -> (r: String)
        ensures
            r@ == int_text(self.width as int) + seq!['x'] + int_text(self.height as int),
    {
        let mut out: Vec<char> = Vec::new();
        push_int_text(self.width as i64, &mut out);
        out.push('x');
        push_int_text(self.height as i64, &mut out);
        string_of(out)
    }
}

impl From<USize> for (u32, u32) {
    fn from(v: USize) -> (r: (u32, u32)) {
        (v.width, v.height)
    }
}

impl vstd::std_specs::convert::FromSpecImpl<USize> for (u32, u32) {
    open spec fn obeys_from_spec() -> bool {
        true
    }

    open spec fn from_spec(v: USize) -> (u32, u32) {
        (v.width, v.height)
    }
}

impl From<(u32, u32)> for USize {
    fn from(t: (u32, u32)) -> (r: USize) {
        USize { width: t.0, height: t.1 }
    }
}

impl vstd::std_specs::convert::FromSpecImpl<(u32, u32)> for USize {
    open spec fn obeys_from_spec() -> bool {
        true
    }

    open spec fn from_spec(t: (u32, u32)) -> USize {
        USize { width: t.0, height: t.1 }
    }
}

impl core::ops::Add for USize {
    type Output = USize;

    fn add(self, rhs: USize) -> (r: USize) {
        USize { width: self.width + rhs.width, height: self.height + rhs.height }
    }
}

impl vstd::std_specs::ops::AddSpecImpl for USize {
    open spec fn obeys_add_spec() -> bool {
        true
    }

    open spec fn add_req(self, rhs: USize) -> bool {
        fits_u32(self.width + rhs.width) && fits_u32(self.height + rhs.height)
    }

    open spec fn add_spec(self, rhs: USize) -> USize {
        USize { width: (self.width + rhs.width) as u32, height: (self.height + rhs.height) as u32 }
    }
}

impl core::ops::Add<u32> for USize {
    type Output = USize;

    fn add(self, rhs: u32) -> (r: USize) {
        USize { width: self.width + rhs, height: self.height + rhs }
    }
}

impl vstd::std_specs::ops::AddSpecImpl<u32> for USize {
    open spec fn obeys_add_spec() -> bool {
        true
    }

    open spec fn add_req(self, rhs: u32) -> bool {
        fits_u32(self.width + rhs) && fits_u32(self.height + rhs)
    }

    open spec fn add_spec(self, rhs: u32) -> USize {
        USize { width: (self.width + rhs) as u32, height: (self.height + rhs) as u32 }
    }
}

impl core::ops::Add<(u32, u32)> for USize {
    type Output = USize;

    fn add(self, rhs: (u32, u32)) -> (r: USize) {
        USize { width: self.width + rhs.0, height: self.height + rhs.1 }
    }
}

impl vstd::std_specs::ops::AddSpecImpl<(u32, u32)> for USize {
    open spec fn obeys_add_spec() -> bool {
        true
    }

    open spec fn add_req(self, rhs: (u32, u32)) -> bool {
        fits_u32(self.width + rhs.0) && fits_u32(self.height + rhs.1)
    }

    open spec fn add_spec(self, rhs: (u32, u32)) -> USize {
        USize { width: (self.width + rhs.0) as u32, height: (self.height + rhs.1) as u32 }
    }
}

impl core::ops::AddAssign<u32> for USize {
    fn add_assign(&mut self, rhs: u32)
        requires
            fits_u32(old(self).width + rhs),
            fits_u32(old(self).height + rhs),
        ensures
            final(self).width == old(self).width + rhs,
            final(self).height == old(self).height + rhs,
    {
        self.width = self.width + rhs;
        self.height = self.height + rhs;
    }
}

impl core::ops::AddAssign<(u32, u32)> for USize {
    fn add_assign(&mut self, rhs: (u32, u32))
        requires
            fits_u32(old(self).width + rhs.0),
            fits_u32(old(self).height + rhs.1),
        ensures
            final(self).width == old(self).width + rhs.0,
            final(self).height == old(self).height + rhs.1,
    {
        self.width = self.width + rhs.0;
        self.height = self.height + rhs.1;
    }
}

impl core::ops::Sub for USize {
    type Output = USize;

    fn sub(self, rhs: USize) -> (r: USize) {
        USize { width: self.width - rhs.width, height: self.height - rhs.height }
    }
}

impl vstd::std_specs::ops::SubSpecImpl for USize {
    open spec fn obeys_sub_spec() -> bool {
        true
    }

    open spec fn sub_req(self, rhs: USize) -> bool {
        fits_u32(self.width - rhs.width) && fits_u32(self.height - rhs.height)
    }

    open spec fn sub_spec(self, rhs: USize) -> USize {
        USize { width: (self.width - rhs.width) as u32, height: (self.height - rhs.height) as u32 }
    }
}

impl core::ops::Sub<u32> for USize {
    type Output = USize;

    fn sub(self, rhs: u32) -> (r: USize) {
        USize { width: self.width - rhs, height: self.height - rhs }
    }
}

impl vstd::std_specs::ops::SubSpecImpl<u32> for USize {
    open spec fn obeys_sub_spec() -> bool {
        true
    }

    open spec fn sub_req(self, rhs: u32) -> bool {
        fits_u32(self.width - rhs) && fits_u32(self.height - rhs)
    }

    open spec fn sub_spec(self, rhs: u32) -> USize {
        USize { width: (self.width - rhs) as u32, height: (self.height - rhs) as u32 }
    }
}

impl core::ops::Sub<(u32, u32)> for USize {
    type Output = USize;

    fn sub(self, rhs: (u32, u32)) -> (r: USize) {
        USize { width: self.width - rhs.0, height: self.height - rhs.1 }
    }
}

impl vstd::std_specs::ops::SubSpecImpl<(u32, u32)> for USize {
    open spec fn obeys_sub_spec() -> bool {
        true
    }

    open spec fn sub_req(self, rhs: (u32, u32)) -> bool {
        fits_u32(self.width - rhs.0) && fits_u32(self.height - rhs.1)
    }

    open spec fn sub_spec(self, rhs: (u32, u32)) -> USize {
        USize { width: (self.width - rhs.0) as u32, height: (self.height - rhs.1) as u32 }
    }
}

impl core::ops::SubAssign<u32> for USize {
    fn sub_assign(&mut self, rhs: u32)
        requires
            fits_u32(old(self).width - rhs),
            fits_u32(old(self).height - rhs),
        ensures
            final(self).width == old(self).width - rhs,
            final(self).height == old(self).height - rhs,
    {
        self.width = self.width - rhs;
        self.height = self.height - rhs;
    }
}

impl core::ops::SubAssign<(u32, u32)> for USize {
    fn sub_assign(&mut self, rhs: (u32, u32))
        requires
            fits_u32(old(self).width - rhs.0),
            fits_u32(old(self).height - rhs.1),
        ensures
            final(self).width == old(self).width - rhs.0,
            final(self).height == old(self).height - rhs.1,
    {
        self.width = self.width - rhs.0;
        self.height = self.height - rhs.1;
    }
}

impl core::ops::Mul<u32> for USize {
    type Output = USize;

    fn mul(self, rhs: u32) -> (r: USize) {
        USize { width: self.width * rhs, height: self.height * rhs }
    }
}

impl vstd::std_specs::ops::MulSpecImpl<u32> for USize {
    open spec fn obeys_mul_spec() -> bool {
        true
    }

    open spec fn mul_req(self, rhs: u32) -> bool {
        fits_u32(self.width * rhs) && fits_u32(self.height * rhs)
    }

    open spec fn mul_spec(self, rhs: u32) -> USize {
        USize { width: (self.width * rhs) as u32, height: (self.height * rhs) as u32 }
    }
}

impl core::ops::MulAssign<u32> for USize {
    fn mul_assign(&mut self, rhs: u32)
        requires
            fits_u32(old(self).width * rhs),
            fits_u32(old(self).height * rhs),
        ensures
            final(self).width == old(self).width * rhs,
            final(self).height == old(self).height * rhs,
    {
        self.width = self.width * rhs;
        self.height = self.height * rhs;
    }
}

impl core::ops::Div<u32> for USize {
    type Output = USize;

    fn div(self, rhs: u32) -> (r: USize) {
        USize { width: self.width / rhs, height: self.height / rhs }
    }
}

impl vstd::std_specs::ops::DivSpecImpl<u32> for USize {
    open spec fn obeys_div_spec() -> bool {
        true
    }

    open spec fn div_req(self, rhs: u32) -> bool {
        rhs != 0
    }

    open spec fn div_spec(self, rhs: u32) -> USize {
        USize { width: (self.width / rhs) as u32, height: (self.height / rhs) as u32 }
    }
}

impl core::ops::DivAssign<u32> for USize {
    fn div_assign(&mut self, rhs: u32)
        requires
            rhs != 0,
        ensures
            final(self).width == old(self).width / rhs,
            final(self).height == old(self).height / rhs,
    {
        self.width = self.width / rhs;
        self.height = self.height / rhs;
    }
}

impl core::ops::Rem<u32> for USize {
    type Output = USize;

    fn rem(self, rhs: u32) -> (r: USize) {
        USize { width: self.width % rhs, height: self.height % rhs }
    }
}

impl vstd::std_specs::ops::RemSpecImpl<u32> for USize {
    open spec fn obeys_rem_spec() -> bool {
        true
    }

    open spec fn rem_req(self, rhs: u32) -> bool {
        rhs != 0
    }

    open spec fn rem_spec(self, rhs: u32) -> USize {
        USize { width: (self.width % rhs) as u32, height: (self.height % rhs) as u32 }
    }
}

impl core::ops::RemAssign<u32> for USize {
    fn rem_assign(&mut self, rhs: u32)
        requires
            rhs != 0,
        ensures
            final(self).width == old(self).width % rhs,
            final(self).height == old(self).height % rhs,
    {
        self.width = self.width % rhs;
        self.height = self.height % rhs;
    }
}

impl Size {
    /// Returns the area represented by this size.
    pub fn area(self) -> (r: i32)
        requires
            fits_i32(self.width * self.height),
        ensures
            r == self.width * self.height,
    {
        self.width * self.height
    }
}

impl USize {
    /// Returns the area represented by this size.
    pub fn area(self) -> (r: u32)
        requires
            fits_u32(self.width * self.height),
        ensures
            r == self.width * self.height,
    {
        self.width * self.height
    }
}

impl TryFrom<Size> for USize {
    type Error = core::num::TryFromIntError;

    /// The unsigned size with the same width and height; an error where
    /// either is negative.
    fn try_from(value: Size) -> (r: Result<USize, core::num::TryFromIntError>) {
        let width = match u32::try_from(value.width) {
            Ok(w) => w,
            Err(e) => return Err(e),
        };
        let height = match u32::try_from(value.height) {
            Ok(h) => h,
            Err(e) => return Err(e),
        };
        Ok(USize::new(width, height))
    }
}

impl vstd::std_specs::convert::TryFromSpecImpl<Size> for USize {
    open spec fn obeys_try_from_spec() -> bool {
        true
    }

    open spec fn try_from_spec(value: Size) -> Result<USize, core::num::TryFromIntError> {
        if value.width >= 0 && value.height >= 0 {
            Ok(USize { width: value.width as u32, height: value.height as u32 })
        } else {
            Err(arbitrary())
        }
    }
}

/// A rectangle, given by the position of its upper-left corner and its size.
#[derive(Copy, Clone, Default, PartialEq, Eq, Debug, Structural)]
pub struct Rectangle {
    /// The location of the rectangle's upper-left corner.
    pub position: Position,
    /// The width and height of the rectangle.
    pub size: USize,
}

impl Rectangle {
    /// Returns a rectangle with the given position and size.
    pub fn new(position: Position, size: USize) -> (r: Rectangle)
        ensures
            r.position == position,
            r.size == size,
    {
        Rectangle { position, size }
    }

    /// Returns a rectangle with the given raw position and size values.
    pub fn new_from_raw(x: i32, y: i32, width: u32, height: u32) -> (r: Rectangle)
        ensures
            r.position.x == x,
            r.position.y == y,
            r.size.width == width,
            r.size.height == height,
    {
        Rectangle { position: Position::new(x, y), size: USize::new(width, height) }
    }

    /// Whether `position` lies within the rectangle, its edges included.
    pub fn contains_position(&self, position: Position) -> (r: bool)
        ensures
            r == (self.position.x <= position.x <= self.position.x + self.size.width
                && self.position.y <= position.y <= self.position.y + self.size.height),
    {
        let x = position.x as i64;
        let y = position.y as i64;
        x >= self.position.x as i64 && x <= self.position.x as i64 + self.size.width as i64
            && y >= self.position.y as i64 && y <= self.position.y as i64
            + self.size.height as i64
    }
}

impl core::ops::Add<USize> for Position {
    type Output = Rectangle;

    fn add(self, rhs: USize) -> (r: Rectangle) {
        Rectangle::new(self, rhs)
    }
}

impl vstd::std_specs::ops::AddSpecImpl<USize> for Position {
    open spec fn obeys_add_spec() -> bool {
        true
    }

    open spec fn add_req(self, rhs: USize) -> bool {
        true
    }

    open spec fn add_spec(self, rhs: USize) -> Rectangle {
        Rectangle { position: self, size: rhs }
    }
}

} // verus!
