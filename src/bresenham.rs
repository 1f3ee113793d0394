//! Bresenham line walking: the integer points of a line, one step at a time.

use vstd::prelude::*;

use crate::base::Position;

verus! {

/// The absolute value of `v`.
pub open spec fn abs(v: int) -> int {
    if v < 0 { -v } else { v }
}

/// The sign of `v`: -1, 0 or 1.
pub open spec fn sign(v: int) -> int {
    if v > 0 { 1 } else if v < 0 { -1 } else { 0 }
}

/// A displacement of `k` in the direction of `v` (none where `v` is 0).
pub open spec fn toward(v: int, k: int) -> int {
    if v > 0 { k } else if v < 0 { -k } else { 0 }
}

/// How far the minor coordinate has moved after `k` steps along the major
/// axis, on a line that spans `major` steps along that axis and `minor`
/// along the other: `k * minor / major`, rounded to the nearest integer,
/// with halves rounded down.
pub open spec fn line_offset(k: int, major: int, minor: int) -> int {
    (2 * k * minor + major - 1) / (2 * major)
}

/// Whether the line from `from` to `to` moves further along `x` than along `y`.
pub open spec fn x_major(from: Position, to: Position) -> bool {
    abs(to.x - from.x) > abs(to.y - from.y)
}

/// The number of points of the line from `from` to `to`, `from` excluded.
pub open spec fn line_length(from: Position, to: Position) -> int {
    if x_major(from, to) { abs(to.x - from.x) } else { abs(to.y - from.y) }
}

/// The point reached after `k` steps on the line from `from` to `to`.
pub open spec fn line_point(from: Position, to: Position, k: int) -> Position {
    let dx = to.x - from.x;
    let dy = to.y - from.y;
    if x_major(from, to) {
        Position {
            x: (from.x + toward(dx, k)) as i32,
            y: (from.y + toward(dy, line_offset(k, abs(dx), abs(dy)))) as i32,
        }
    } else {
        Position {
            x: (from.x + toward(dx, line_offset(k, abs(dy), abs(dx)))) as i32,
            y: (from.y + toward(dy, k)) as i32,
        }
    }
}

/// Whether a line from `from` to `to` can be walked within `i32` arithmetic.
pub open spec fn walkable(from: Position, to: Position) -> bool {
    2 * abs(to.x - from.x) <= i32::MAX && 2 * abs(to.y - from.y) <= i32::MAX
}

/// The error term is what pins the minor offset down.
proof fn lemma_offset_unique(k: int, m: int, major: int, minor: int)
    requires
        major > 0,
        0 <= major - 2 * k * minor + 2 * m * major < 2 * major,
    ensures
        m == line_offset(k, major, minor),
{
    let e = major - 2 * k * minor + 2 * m * major;
    let n = 2 * k * minor + major - 1;
    assert(n == m * (2 * major) + (2 * major - 1 - e)) by (nonlinear_arith)
        requires
            e == major - 2 * k * minor + 2 * m * major,
            n == 2 * k * minor + major - 1,
    ;
    vstd::arithmetic::div_mod::lemma_fundamental_div_mod_converse(n, 2 * major, m, 2 * major - 1 - e);
}

/// The minor offset never passes the end of the line.
proof fn lemma_offset_bounds(k: int, m: int, major: int, minor: int)
    requires
        major > 0,
        0 <= minor <= major,
        0 <= k <= major,
        0 <= major - 2 * k * minor + 2 * m * major < 2 * major,
    ensures
        0 <= m <= minor,
        m <= k,
{
    assert(0 <= m <= minor && m <= k) by (nonlinear_arith)
        requires
            major > 0,
            0 <= minor <= major,
            0 <= k <= major,
            0 <= major - 2 * k * minor + 2 * m * major,
            major - 2 * k * minor + 2 * m * major < 2 * major,
    ;
}

/// One step along the major axis keeps the error term in range and moves
/// the minor offset to its value for the next step.
proof fn lemma_advance(k: int, m: int, e: int, major: int, minor: int)
    requires
        major > 0,
        0 <= minor <= major,
        0 <= k < major,
        e == major - 2 * k * minor + 2 * m * major,
        0 <= e < 2 * major,
        m == line_offset(k, major, minor),
    ensures
        ({
            let e1 = e - 2 * minor;
            let m2 = if e1 < 0 { m + 1 } else { m };
            let e2 = if e1 < 0 { e1 + 2 * major } else { e1 };
            &&& 0 <= e2 < 2 * major
            &&& e2 == major - 2 * (k + 1) * minor + 2 * m2 * major
            &&& m2 == line_offset(k + 1, major, minor)
            &&& 0 <= m2 <= minor
            &&& m <= m2 <= m + 1
        }),
{
    let e1 = e - 2 * minor;
    let m2 = if e1 < 0 { m + 1 } else { m };
    let e2 = if e1 < 0 { e1 + 2 * major } else { e1 };
    assert(e2 == major - 2 * (k + 1) * minor + 2 * m2 * major) by (nonlinear_arith)
        requires
            e == major - 2 * k * minor + 2 * m * major,
            e1 == e - 2 * minor,
            m2 == if e1 < 0 { m + 1 } else { m },
            e2 == if e1 < 0 { e1 + 2 * major } else { e1 },
    ;
    lemma_offset_unique(k + 1, m2, major, minor);
    lemma_offset_bounds(k + 1, m2, major, minor);
}

/// The last point of a line is its destination.
pub proof fn lemma_line_ends_at_destination(from: Position, to: Position)
    requires
        walkable(from, to),
    ensures
        line_point(from, to, line_length(from, to)) == to,
{
    let ax = abs(to.x - from.x);
    let ay = abs(to.y - from.y);
    if x_major(from, to) {
        assert(2 * ax * ay + ax - 1 == ay * (2 * ax) + (ax - 1)) by (nonlinear_arith);
        vstd::arithmetic::div_mod::lemma_fundamental_div_mod_converse(
            2 * ax * ay + ax - 1,
            2 * ax,
            ay,
            ax - 1,
        );
    } else if ay > 0 {
        assert(2 * ay * ax + ay - 1 == ax * (2 * ay) + (ay - 1)) by (nonlinear_arith);
        vstd::arithmetic::div_mod::lemma_fundamental_div_mod_converse(
            2 * ay * ax + ay - 1,
            2 * ay,
            ax,
            ay - 1,
        );
    }
}

/// Walks the integer points of a line.
pub struct Bresenham {
    step_x: i32,
    step_y: i32,
    e: i32,
    delta_x: i32,
    delta_y: i32,
    orig: Position,
    dest: Position,
    start: Ghost<Position>,
    taken: Ghost<int>,
}

impl Bresenham {
    /// The first point of the line.
    pub closed spec fn start(&self) -> Position {
        self.start@
    }

    /// The last point of the line.
    pub closed spec fn dest(&self) -> Position {
        self.dest
    }

    /// The number of points returned so far.
    pub closed spec fn taken(&self) -> int {
        self.taken@
    }

    /// The walker's invariant: the current point is the one reached after
    /// the points returned so far, and the error term matches it.
    pub closed spec fn wf(&self) -> bool {
        let from = self.start@;
        let to = self.dest;
        let dx = to.x - from.x;
        let dy = to.y - from.y;
        let k = self.taken@;
        &&& walkable(from, to)
        &&& self.step_x == sign(dx)
        &&& self.step_y == sign(dy)
        &&& self.delta_x == 2 * dx
        &&& self.delta_y == 2 * dy
        &&& 0 <= k <= line_length(from, to)
        &&& self.orig == line_point(from, to, k)
        &&& 0 <= self.e
        &&& if x_major(from, to) {
            &&& self.e == abs(dx) - 2 * k * abs(dy) + 2 * line_offset(k, abs(dx), abs(dy)) * abs(
                dx,
            )
            &&& self.e < 2 * abs(dx)
        } else {
            &&& abs(dy) > 0 ==> self.e == abs(dy) - 2 * k * abs(dx) + 2 * line_offset(
                k,
                abs(dy),
                abs(dx),
            ) * abs(dy)
            &&& abs(dy) > 0 ==> self.e < 2 * abs(dy)
            &&& abs(dy) == 0 ==> self.e == 0
        }
    }

    /// Starts a line from `from` to `to`.
    pub fn init(from: Position, to: Position) -> (r: Bresenham)
        requires
            walkable(from, to),
        ensures
            r.wf(),
            r.start() == from,
            r.dest() == to,
            r.taken() == 0,
    {
        let mut delta_x = to.x - from.x;
        let step_x: i32 = if delta_x > 0 {
            1
        } else if delta_x < 0 {
            -1
        } else {
            0
        };
        let mut delta_y = to.y - from.y;
        let step_y: i32 = if delta_y > 0 {
            1
        } else if delta_y < 0 {
            -1
        } else {
            0
        };
        proof {
            assert(step_x * delta_x == abs(to.x - from.x)) by (nonlinear_arith)
                requires
                    (delta_x > 0 && step_x == 1) || (delta_x < 0 && step_x == -1) || (delta_x == 0
                        && step_x == 0),
                    delta_x == to.x - from.x,
            ;
            assert(step_y * delta_y == abs(to.y - from.y)) by (nonlinear_arith)
                requires
                    (delta_y > 0 && step_y == 1) || (delta_y < 0 && step_y == -1) || (delta_y == 0
                        && step_y == 0),
                    delta_y == to.y - from.y,
            ;
        }
        let e = if step_x * delta_x > step_y * delta_y {
            step_x * delta_x
        } else {
            step_y * delta_y
        };
        delta_x = delta_x * 2;
        delta_y = delta_y * 2;
        let r = Bresenham {
            orig: from,
            dest: to,
            delta_x,
            delta_y,
            step_x,
            step_y,
            e,
            start: Ghost(from),
            taken: Ghost(0),
        };
        proof {
            let ax = abs(to.x - from.x);
            let ay = abs(to.y - from.y);
            assert(step_x * (to.x - from.x) == ax) by (nonlinear_arith)
                requires
                    (to.x - from.x > 0 && step_x == 1) || (to.x - from.x < 0 && step_x == -1) || (
                    to.x - from.x == 0 && step_x == 0),
                    ax == abs(to.x - from.x),
            ;
            assert(step_y * (to.y - from.y) == ay) by (nonlinear_arith)
                requires
                    (to.y - from.y > 0 && step_y == 1) || (to.y - from.y < 0 && step_y == -1) || (
                    to.y - from.y == 0 && step_y == 0),
                    ay == abs(to.y - from.y),
            ;
            if x_major(from, to) {
                lemma_offset_unique(0, 0, ax, ay);
                assert(line_point(from, to, 0) == from);
                assert(e == ax - 2 * 0 * ay + 2 * line_offset(0, ax, ay) * ax);
            } else if ay > 0 {
                lemma_offset_unique(0, 0, ay, ax);
                assert(line_point(from, to, 0) == from);
                assert(e == ay - 2 * 0 * ax + 2 * line_offset(0, ay, ax) * ay);
            } else {
                assert(line_point(from, to, 0) == from);
            }
            assert(0 <= 0 <= line_length(from, to));
        }
        r
    }

    /// Returns the next point of the line, `None` once its last point has
    /// been returned. The first point is not returned.
    pub fn step(&mut self) -> (r: Option<Position>)
        requires
            old(self).wf(),
        ensures
            final(self).wf(),
            final(self).start() == old(self).start(),
            final(self).dest() == old(self).dest(),
            old(self).taken() == line_length(old(self).start(), old(self).dest()) ==> {
                &&& r is None
                &&& final(self).taken() == old(self).taken()
            },
            old(self).taken() < line_length(old(self).start(), old(self).dest()) ==> {
                &&& r == Some(line_point(old(self).start(), old(self).dest(), old(self).taken() + 1))
                &&& final(self).taken() == old(self).taken() + 1
            },
    {
        let ghost from = self.start@;
        let ghost to = self.dest;
        let ghost dx = to.x - from.x;
        let ghost dy = to.y - from.y;
        let ghost k = self.taken@;
        proof {
            assert(self.step_x * self.delta_x == 2 * abs(dx)) by (nonlinear_arith)
                requires
                    (dx > 0 && self.step_x == 1) || (dx < 0 && self.step_x == -1) || (dx == 0
                        && self.step_x == 0),
                    self.delta_x == 2 * dx,
            ;
            assert(self.step_y * self.delta_y == 2 * abs(dy)) by (nonlinear_arith)
                requires
                    (dy > 0 && self.step_y == 1) || (dy < 0 && self.step_y == -1) || (dy == 0
                        && self.step_y == 0),
                    self.delta_y == 2 * dy,
            ;
        }
        if self.step_x * self.delta_x > self.step_y * self.delta_y {
            assert(x_major(from, to));
            if self.orig.x == self.dest.x {
                return None;
            }
            let ghost m = line_offset(k, abs(dx), abs(dy));
            proof {
                lemma_advance(k, m, self.e as int, abs(dx), abs(dy));
            }
            self.orig.x = self.orig.x + self.step_x;
            self.e = self.e - self.step_y * self.delta_y;
            if self.e < 0 {
                self.orig.y = self.orig.y + self.step_y;
                self.e = self.e + self.step_x * self.delta_x;
            }
            proof {
                self.taken = Ghost(k + 1);
            }
        } else {
            assert(!x_major(from, to));
            if self.orig.y == self.dest.y {
                return None;
            }
            let ghost m = line_offset(k, abs(dy), abs(dx));
            proof {
                lemma_advance(k, m, self.e as int, abs(dy), abs(dx));
            }
            self.orig.y = self.orig.y + self.step_y;
            self.e = self.e - self.step_x * self.delta_x;
            if self.e < 0 {
                self.orig.x = self.orig.x + self.step_x;
                self.e = self.e + self.step_y * self.delta_y;
            }
            proof {
                self.taken = Ghost(k + 1);
            }
        }
        Some(self.orig)
    }
}

} // verus!
