use std::convert::TryFrom;

use doryen_extra::base::{Position, Rectangle, Size, UPosition, USize};

#[test]
fn new_sets_values() {
    let p = Position::new(-1, -2);
    assert_eq!(p.x, -1);
    assert_eq!(p.y, -2);

    let up = UPosition::new(1, 2);
    assert_eq!(up.x, 1);
    assert_eq!(up.y, 2);

    let s = Size::new(-1, -2);
    assert_eq!(s.width, -1);
    assert_eq!(s.height, -2);

    let us = USize::new(1, 2);
    assert_eq!(us.width, 1);
    assert_eq!(us.height, 2);

    let r = Rectangle::new(p, us);
    assert_eq!(r.position, p);
    assert_eq!(r.size, us);

    let r2 = Rectangle::new_from_raw(1, 2, 3, 4);
    assert_eq!(r2.position, Position::new(1, 2));
    assert_eq!(r2.size, USize::new(3, 4));
}

#[test]
fn from_sets_values() {
    let p: Position = From::from((-1, -2));
    assert_eq!(p.x, -1);
    assert_eq!(p.y, -2);

    let up: UPosition = From::from((1, 2));
    assert_eq!(up.x, 1);
    assert_eq!(up.y, 2);

    let s: Size = From::from((-1, -2));
    assert_eq!(s.width, -1);
    assert_eq!(s.height, -2);

    let us: USize = From::from((1, 2));
    assert_eq!(us.width, 1);
    assert_eq!(us.height, 2);
}

#[test]
fn from_gets_values() {
    let p = Position::new(-1, -2);
    let (px, py): (i32, i32) = From::from(p);
    assert_eq!(px, -1);
    assert_eq!(py, -2);

    let up = UPosition::new(1, 2);
    let (upx, upy): (u32, u32) = From::from(up);
    assert_eq!(upx, 1);
    assert_eq!(upy, 2);

    let s = Size::new(-1, -2);
    let (swidth, sheight): (i32, i32) = From::from(s);
    assert_eq!(swidth, -1);
    assert_eq!(sheight, -2);

    let us = USize::new(1, 2);
    let (uswidth, usheight): (u32, u32) = From::from(us);
    assert_eq!(uswidth, 1);
    assert_eq!(usheight, 2);
}

#[test]
fn addition() {
    let p = Position::new(-1, -2);
    let p2 = Position::new(3, 4);
    assert_eq!(p + p2, Position::new(2, 2));

    let up = UPosition::new(1, 2);
    let up2 = UPosition::new(3, 4);
    assert_eq!(up + up2, UPosition::new(4, 6));

    let s = Size::new(-1, -2);
    let s2 = Size::new(3, 4);
    assert_eq!(s + s2, Size::new(2, 2));

    let us = USize::new(1, 2);
    let us2 = USize::new(3, 4);
    assert_eq!(us + us2, USize::new(4, 6));

    assert_eq!(p + us, Rectangle::new(p, us));
}

#[test]
fn addition_scalar() {
    let p = Position::new(-1, -2);
    let p2 = 2;
    assert_eq!(p + p2, Position::new(1, 0));

    let up = UPosition::new(1, 2);
    let up2 = 3;
    assert_eq!(up + up2, UPosition::new(4, 5));

    let s = Size::new(-1, -2);
    let s2 = 2;
    assert_eq!(s + s2, Size::new(1, 0));

    let us = USize::new(1, 2);
    let us2 = 3;
    assert_eq!(us + us2, USize::new(4, 5));
}

#[test]
fn addition_tuple() {
    let p = Position::new(-1, -2);
    let p2 = (3, 4);
    assert_eq!(p + p2, Position::new(2, 2));

    let up = UPosition::new(1, 2);
    let up2 = (3, 4);
    assert_eq!(up + up2, UPosition::new(4, 6));

    let s = Size::new(-1, -2);
    let s2 = (3, 4);
    assert_eq!(s + s2, Size::new(2, 2));

    let us = USize::new(1, 2);
    let us2 = (3, 4);
    assert_eq!(us + us2, USize::new(4, 6));
}

#[test]
fn add_assign_scalar() {
    let mut p = Position::new(-1, -2);
    p += 2;
    assert_eq!(p, Position::new(1, 0));

    let mut up = UPosition::new(1, 2);
    up += 3;
    assert_eq!(up, UPosition::new(4, 5));

    let mut s = Size::new(-1, -2);
    s += 2;
    assert_eq!(s, Size::new(1, 0));

    let mut us = USize::new(1, 2);
    us += 3;
    assert_eq!(us, USize::new(4, 5));
}

#[test]
fn add_assign_tuple() {
    let mut p = Position::new(-1, -2);
    p += (3, 4);
    assert_eq!(p, Position::new(2, 2));

    let mut up = UPosition::new(1, 2);
    up += (3, 4);
    assert_eq!(up, UPosition::new(4, 6));

    let mut s = Size::new(-1, -2);
    s += (3, 4);
    assert_eq!(s, Size::new(2, 2));

    let mut us = USize::new(1, 2);
    us += (3, 4);
    assert_eq!(us, USize::new(4, 6));
}

#[test]
fn subtraction() {
    let p = Position::new(-1, -2);
    let p2 = Position::new(3, 4);
    assert_eq!(p - p2, Position::new(-4, -6));

    let up = UPosition::new(3, 4);
    let up2 = UPosition::new(1, 2);
    assert_eq!(up - up2, UPosition::new(2, 2));

    let s = Size::new(-1, -2);
    let s2 = Size::new(3, 4);
    assert_eq!(s - s2, Size::new(-4, -6));

    let us = USize::new(3, 4);
    let us2 = USize::new(1, 2);
    assert_eq!(us - us2, USize::new(2, 2));
}

#[test]
fn subtraction_scalar() {
    let mut p = Position::new(-1, -2);
    p -= 2;
    assert_eq!(p, Position::new(-3, -4));

    let mut up = UPosition::new(1, 2);
    up -= 1;
    assert_eq!(up, UPosition::new(0, 1));

    let mut s = Size::new(-1, -2);
    s -= 2;
    assert_eq!(s, Size::new(-3, -4));

    let mut us = USize::new(1, 2);
    us -= 1;
    assert_eq!(us, USize::new(0, 1));
}

#[test]
fn subtraction_tuple() {
    let p = Position::new(-1, -2);
    let p2 = (3, 4);
    assert_eq!(p - p2, Position::new(-4, -6));

    let up = UPosition::new(3, 4);
    let up2 = (1, 2);
    assert_eq!(up - up2, UPosition::new(2, 2));

    let s = Size::new(-1, -2);
    let s2 = (3, 4);
    assert_eq!(s - s2, Size::new(-4, -6));

    let us = USize::new(3, 4);
    let us2 = (1, 2);
    assert_eq!(us - us2, USize::new(2, 2));
}

#[test]
fn sub_assign_scalar() {
    let mut p = Position::new(-1, -2);
    p -= 2;
    assert_eq!(p, Position::new(-3, -4));

    let mut up = UPosition::new(6, 3);
    up -= 3;
    assert_eq!(up, UPosition::new(3, 0));

    let mut s = Size::new(-1, -2);
    s -= 2;
    assert_eq!(s, Size::new(-3, -4));

    let mut us = USize::new(6, 3);
    us -= 3;
    assert_eq!(us, USize::new(3, 0));
}

#[test]
fn sub_assign_tuple() {
    let mut p = Position::new(-1, -2);
    p -= (3, 4);
    assert_eq!(p, Position::new(-4, -6));

    let mut up = UPosition::new(3, 4);
    up -= (1, 2);
    assert_eq!(up, UPosition::new(2, 2));

    let mut s = Size::new(-1, -2);
    s -= (3, 4);
    assert_eq!(s, Size::new(-4, -6));

    let mut us = USize::new(3, 4);
    us -= (1, 2);
    assert_eq!(us, USize::new(2, 2));
}

#[test]
fn multiplication_scalar() {
    let p = Position::new(-1, -2);
    let p2 = 2;
    assert_eq!(p * p2, Position::new(-2, -4));

    let up = UPosition::new(1, 2);
    let up2 = 3;
    assert_eq!(up * up2, UPosition::new(3, 6));

    let s = Size::new(-1, -2);
    let s2 = 2;
    assert_eq!(s * s2, Size::new(-2, -4));

    let us = USize::new(1, 2);
    let us2 = 3;
    assert_eq!(us * us2, USize::new(3, 6));
}

#[test]
fn mul_assign_scalar() {
    let mut p = Position::new(-1, -2);
    p *= 2;
    assert_eq!(p, Position::new(-2, -4));

    let mut up = UPosition::new(6, 3);
    up *= 3;
    assert_eq!(up, UPosition::new(18, 9));

    let mut s = Size::new(-1, -2);
    s *= 2;
    assert_eq!(s, Size::new(-2, -4));

    let mut us = USize::new(6, 3);
    us *= 3;
    assert_eq!(us, USize::new(18, 9));
}

#[test]
fn division_scalar() {
    let p = Position::new(-2, -4);
    let p2 = 2;
    assert_eq!(p / p2, Position::new(-1, -2));

    let up = UPosition::new(18, 9);
    let up2 = 3;
    assert_eq!(up / up2, UPosition::new(6, 3));

    let s = Size::new(-2, -4);
    let s2 = 2;
    assert_eq!(s / s2, Size::new(-1, -2));

    let us = USize::new(18, 9);
    let us2 = 3;
    assert_eq!(us / us2, USize::new(6, 3));
}

#[test]
fn div_assign_scalar() {
    let mut p = Position::new(-2, -4);
    p /= 2;
    assert_eq!(p, Position::new(-1, -2));

    let mut up = UPosition::new(6, 3);
    up /= 3;
    assert_eq!(up, UPosition::new(2, 1));

    let mut s = Size::new(-2, -4);
    s /= 2;
    assert_eq!(s, Size::new(-1, -2));

    let mut us = USize::new(6, 3);
    us /= 3;
    assert_eq!(us, USize::new(2, 1));
}

#[test]
fn rem_scalar() {
    let p = Position::new(-5, -6);
    let p2 = 4;
    assert_eq!(p % p2, Position::new(-1, -2));

    let up = UPosition::new(18, 9);
    let up2 = 4;
    assert_eq!(up % up2, UPosition::new(2, 1));

    let s = Size::new(-2, -4);
    let s2 = 2;
    assert_eq!(s % s2, Size::new(0, 0));

    let us = USize::new(18, 9);
    let us2 = 5;
    assert_eq!(us % us2, USize::new(3, 4));
}

#[test]
fn rem_assign_scalar() {
    let mut p = Position::new(-3, -5);
    p %= 2;
    assert_eq!(p, Position::new(-1, -1));

    let mut up = UPosition::new(6, 3);
    up %= 4;
    assert_eq!(up, UPosition::new(2, 3));

    let mut s = Size::new(-2, -4);
    s %= 2;
    assert_eq!(s, Size::new(0, 0));

    let mut us = USize::new(16, 13);
    us %= 7;
    assert_eq!(us, USize::new(2, 6));
}

#[test]
fn negate() {
    let p = Position::new(-5, -6);
    assert_eq!(-p, Position::new(5, 6));

    let s = Size::new(-2, -4);
    assert_eq!(-s, Size::new(2, 4));
}

#[test]
fn area() {
    let s = Size::new(3, 2);
    assert_eq!(s.area(), 6);

    let us = USize::new(3, 2);
    assert_eq!(us.area(), 6);
}

#[test]
fn contains_position() {
    let r = Rectangle::new_from_raw(-5, -10, 10, 20);

    // All (integer) points inside, including the corners and along the edges.
    for x in -5..=5 {
        for y in -10..=10 {
            assert!(r.contains_position(Position::new(x, y)));
        }
    }

    // All points along the outside
    for &x in &[-6, 6] {
        for y in -11..=11 {
            assert!(!r.contains_position(Position::new(x, y)));
        }
    }
    for x in -6..=6 {
        for &y in &[-11, 11] {
            assert!(!r.contains_position(Position::new(x, y)));
        }
    }
}

#[test]
fn division_truncates_toward_zero() {
    assert_eq!(Position::new(-7, 7) / 2, Position::new(-3, 3));
    assert_eq!(Position::new(-7, 7) % 2, Position::new(-1, 1));
    assert_eq!(Size::new(7, -7) / -2, Size::new(-3, 3));
    assert_eq!(Size::new(7, -7) % -2, Size::new(1, -1));
}

#[test]
fn contains_position_on_wide_rectangle() {
    let r = Rectangle::new_from_raw(i32::MAX - 1, 0, u32::MAX, 0);
    assert!(r.contains_position(Position::new(i32::MAX, 0)));
    assert!(!r.contains_position(Position::new(i32::MAX - 2, 0)));
    assert!(!r.contains_position(Position::new(i32::MAX, 1)));
}

#[test]
fn display_is_correct() {
    let p = Position::new(-1, -2);
    assert_eq!(p.to_string(), "(-1, -2)");

    let up = UPosition::new(1, 2);
    assert_eq!(up.to_string(), "(1, 2)");

    let s = Size::new(-1, -2);
    assert_eq!(s.to_string(), "-1x-2");

    let us = USize::new(1, 2);
    assert_eq!(us.to_string(), "1x2");
}

#[test]
fn text_of_extreme_values() {
    assert_eq!(Position::new(i32::MIN, i32::MAX).to_string(), "(-2147483648, 2147483647)");
    assert_eq!(USize::new(u32::MAX, 0).to_string(), "4294967295x0");
    assert_eq!(Size::new(10, -100).to_string(), "10x-100");
}

#[test]
fn size_converts_to_unsigned_only_when_non_negative() {
    assert_eq!(USize::try_from(Size::new(3, 4)), Ok(USize::new(3, 4)));
    assert!(USize::try_from(Size::new(-1, 4)).is_err());
    assert!(USize::try_from(Size::new(1, -4)).is_err());
    assert_eq!(USize::try_from(Size::new(0, i32::MAX)), Ok(USize::new(0, i32::MAX as u32)));
}
