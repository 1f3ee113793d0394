//! 24-bit RGB colours with opacity, and the operations on them that stay in
//! integer arithmetic.

use vstd::prelude::*;

pub use self::Color as Colour;

verus! {

/// A 24-bit RGB colour with an opacity.
#[derive(Copy, Clone, Default, PartialEq, Eq, Debug, Structural)]
pub struct Color {
    /// The red component of the colour.
    pub r: u8,
    /// The green component of the colour.
    pub g: u8,
    /// The blue component of the colour.
    pub b: u8,
    /// The opacity of the colour.
    pub a: u8,
}

/// `a + b`, capped at 255.
pub open spec fn sat_add(a: u8, b: u8) -> u8 {
    if a + b > 255 { 255 } else { (a + b) as u8 }
}

/// `a - b`, floored at 0.
pub open spec fn sat_sub(a: u8, b: u8) -> u8 {
    if a < b { 0 } else { (a - b) as u8 }
}

/// The product of two components on the scale where 255 stands for 1,
/// rounded down.
pub open spec fn scaled_product(a: u8, b: u8) -> u8 {
    ((a * b) / 255) as u8
}

impl Color {
    /// Returns an opaque colour from its red, green and blue components.
    pub fn new(r: u8, g: u8, b: u8) -> (c: Color)
        ensures
            c.r == r,
            c.g == g,
            c.b == b,
            c.a == 255,
    {
        Color { r, g, b, a: 255 }
    }

    /// Returns a colour from its red, green and blue components and its
    /// opacity.
    pub fn new_with_alpha(r: u8, g: u8, b: u8, a: u8) -> (c: Color)
        ensures
            c.r == r,
            c.g == g,
            c.b == b,
            c.a == a,
    {
        Color { r, g, b, a }
    }
}

fn scale_component(a: u8, b: u8) -> (r: u8)
    ensures
        r == scaled_product(a, b),
{
    assert(a * b <= 255 * 255) by (nonlinear_arith)
        requires
            a <= 255,
            b <= 255,
    ;
    let p: u32 = (a as u32) * (b as u32);
    assert(p / 255 <= 255) by (nonlinear_arith)
        requires
            p == a * b,
            a <= 255,
            b <= 255,
    ;
    (p / 255) as u8
}

impl core::ops::Add for Color {
    type Output = Color;

    /// Adds two colours component by component, each sum capped at 255.
    fn add(self, rhs: Color) -> (c: Color) {
        Color::new_with_alpha(
            self.r.saturating_add(rhs.r),
            self.g.saturating_add(rhs.g),
            self.b.saturating_add(rhs.b),
            self.a.saturating_add(rhs.a),
        )
    }
}

impl vstd::std_specs::ops::AddSpecImpl for Color {
    open spec fn obeys_add_spec() -> bool {
        true
    }

    open spec fn add_req(self, rhs: Color) -> bool {
        true
    }

    open spec fn add_spec(self, rhs: Color) -> Color {
        Color {
            r: sat_add(self.r, rhs.r),
            g: sat_add(self.g, rhs.g),
            b: sat_add(self.b, rhs.b),
            a: sat_add(self.a, rhs.a),
        }
    }
}

impl core::ops::Sub for Color {
    type Output = Color;

    /// Subtracts the right-hand colour component by component, each
    /// difference floored at 0.
    fn sub(self, rhs: Color) -> (c: Color) {
        Color::new_with_alpha(
            self.r.saturating_sub(rhs.r),
            self.g.saturating_sub(rhs.g),
            self.b.saturating_sub(rhs.b),
            self.a.saturating_sub(rhs.a),
        )
    }
}

impl vstd::std_specs::ops::SubSpecImpl for Color {
    open spec fn obeys_sub_spec() -> bool {
        true
    }

    open spec fn sub_req(self, rhs: Color) -> bool {
        true
    }

    open spec fn sub_spec(self, rhs: Color) -> Color {
        Color {
            r: sat_sub(self.r, rhs.r),
            g: sat_sub(self.g, rhs.g),
            b: sat_sub(self.b, rhs.b),
            a: sat_sub(self.a, rhs.a),
        }
    }
}

impl core::ops::Mul for Color {
    type Output = Color;

    /// Multiplies two colours component by component, 255 standing for 1.
    fn mul(self, rhs: Color) -> (c: Color) {
        Color::new_with_alpha(
            scale_component(self.r, rhs.r),
            scale_component(self.g, rhs.g),
            scale_component(self.b, rhs.b),
            scale_component(self.a, rhs.a),
        )
    }
}

impl vstd::std_specs::ops::MulSpecImpl for Color {
    open spec fn obeys_mul_spec() -> bool {
        true
    }

    open spec fn mul_req(self, rhs: Color) -> bool {
        true
    }

    open spec fn mul_spec(self, rhs: Color) -> Color {
        Color {
            r: scaled_product(self.r, rhs.r),
            g: scaled_product(self.g, rhs.g),
            b: scaled_product(self.b, rhs.b),
            a: scaled_product(self.a, rhs.a),
        }
    }
}

impl From<Color> for (u8, u8, u8) {
    fn from(c: Color) -> (t: (u8, u8, u8)) {
        (c.r, c.g, c.b)
    }
}

impl vstd::std_specs::convert::FromSpecImpl<Color> for (u8, u8, u8) {
    open spec fn obeys_from_spec() -> bool {
        true
    }

    open spec fn from_spec(c: Color) -> (u8, u8, u8) {
        (c.r, c.g, c.b)
    }
}

impl From<(u8, u8, u8)> for Color {
    fn from(t: (u8, u8, u8)) -> (c: Color) {
        Color::new(t.0, t.1, t.2)
    }
}

impl vstd::std_specs::convert::FromSpecImpl<(u8, u8, u8)> for Color {
    open spec fn obeys_from_spec() -> bool {
        true
    }

    open spec fn from_spec(t: (u8, u8, u8)) -> Color {
        Color { r: t.0, g: t.1, b: t.2, a: 255 }
    }
}

/// The hues of the named colours.
#[derive(Copy, Clone, Debug, PartialEq, Eq, Structural)]
pub enum Name {
    Red,
    Flame,
    Orange,
    Amber,
    Yellow,
    Lime,
    Chartreuse,
    Green,
    Sea,
    Turquoise,
    Cyan,
    Sky,
    Azure,
    Blue,
    Han,
    Violet,
    Purple,
    Fuchsia,
    Magenta,
    Pink,
    Crimson,
}

/// The shades in which each named colour comes.
#[derive(Copy, Clone, Debug, PartialEq, Eq, Structural)]
pub enum Level {
    Desaturated,
    Lightest,
    Lighter,
    Light,
    Normal,
    Dark,
    Darker,
    Darkest,
}

/// The red, green and blue components of the named colour `name` at `level`.
pub open spec fn named_rgb(name: Name, level: Level) -> (u8, u8, u8) {
    match name {
        Name::Red => match level {
            Level::Desaturated => (127, 63, 63),
            Level::Lightest => (255, 191, 191),
            Level::Lighter => (255, 127, 127),
            Level::Light => (255, 63, 63),
            Level::Normal => (255, 0, 0),
            Level::Dark => (191, 0, 0),
            Level::Darker => (127, 0, 0),
            Level::Darkest => (63, 0, 0),
        },
        Name::Flame => match level {
            Level::Desaturated => (127, 79, 63),
            Level::Lightest => (255, 207, 191),
            Level::Lighter => (255, 159, 127),
            Level::Light => (255, 111, 63),
            Level::Normal => (255, 63, 0),
            Level::Dark => (191, 47, 0),
            Level::Darker => (127, 31, 0),
            Level::Darkest => (63, 15, 0),
        },
        Name::Orange => match level {
            Level::Desaturated => (127, 95, 63),
            Level::Lightest => (255, 223, 191),
            Level::Lighter => (255, 191, 127),
            Level::Light => (255, 159, 63),
            Level::Normal => (255, 127, 0),
            Level::Dark => (191, 95, 0),
            Level::Darker => (127, 63, 0),
            Level::Darkest => (63, 31, 0),
        },
        Name::Amber => match level {
            Level::Desaturated => (127, 111, 63),
            Level::Lightest => (255, 239, 191),
            Level::Lighter => (255, 223, 127),
            Level::Light => (255, 207, 63),
            Level::Normal => (255, 191, 0),
            Level::Dark => (191, 143, 0),
            Level::Darker => (127, 95, 0),
            Level::Darkest => (63, 47, 0),
        },
        Name::Yellow => match level {
            Level::Desaturated => (127, 127, 63),
            Level::Lightest => (255, 255, 191),
            Level::Lighter => (255, 255, 127),
            Level::Light => (255, 255, 63),
            Level::Normal => (255, 255, 0),
            Level::Dark => (191, 191, 0),
            Level::Darker => (127, 127, 0),
            Level::Darkest => (63, 63, 0),
        },
        Name::Lime => match level {
            Level::Desaturated => (111, 127, 63),
            Level::Lightest => (239, 255, 191),
            Level::Lighter => (223, 255, 127),
            Level::Light => (207, 255, 63),
            Level::Normal => (191, 255, 0),
            Level::Dark => (143, 191, 0),
            Level::Darker => (95, 127, 0),
            Level::Darkest => (47, 63, 0),
        },
        Name::Chartreuse => match level {
            Level::Desaturated => (95, 127, 63),
            Level::Lightest => (223, 255, 191),
            Level::Lighter => (191, 255, 127),
            Level::Light => (159, 255, 63),
            Level::Normal => (127, 255, 0),
            Level::Dark => (95, 191, 0),
            Level::Darker => (63, 127, 0),
            Level::Darkest => (31, 63, 0),
        },
        Name::Green => match level {
            Level::Desaturated => (63, 127, 63),
            Level::Lightest => (191, 255, 191),
            Level::Lighter => (127, 255, 127),
            Level::Light => (63, 255, 63),
            Level::Normal => (0, 255, 0),
            Level::Dark => (0, 191, 0),
            Level::Darker => (0, 127, 0),
            Level::Darkest => (0, 63, 0),
        },
        Name::Sea => match level {
            Level::Desaturated => (63, 127, 95),
            Level::Lightest => (191, 255, 223),
            Level::Lighter => (127, 255, 191),
            Level::Light => (63, 255, 159),
            Level::Normal => (0, 255, 127),
            Level::Dark => (0, 191, 95),
            Level::Darker => (0, 127, 63),
            Level::Darkest => (0, 63, 31),
        },
        Name::Turquoise => match level {
            Level::Desaturated => (63, 127, 111),
            Level::Lightest => (191, 255, 239),
            Level::Lighter => (127, 255, 223),
            Level::Light => (63, 255, 207),
            Level::Normal => (0, 255, 191),
            Level::Dark => (0, 191, 143),
            Level::Darker => (0, 127, 95),
            Level::Darkest => (0, 63, 47),
        },
        Name::Cyan => match level {
            Level::Desaturated => (63, 127, 127),
            Level::Lightest => (191, 255, 255),
            Level::Lighter => (127, 255, 255),
            Level::Light => (63, 255, 255),
            Level::Normal => (0, 255, 255),
            Level::Dark => (0, 191, 191),
            Level::Darker => (0, 127, 127),
            Level::Darkest => (0, 63, 63),
        },
        Name::Sky => match level {
            Level::Desaturated => (63, 111, 127),
            Level::Lightest => (191, 239, 255),
            Level::Lighter => (127, 223, 255),
            Level::Light => (63, 207, 255),
            Level::Normal => (0, 191, 255),
            Level::Dark => (0, 143, 191),
            Level::Darker => (0, 95, 127),
            Level::Darkest => (0, 47, 63),
        },
        Name::Azure => match level {
            Level::Desaturated => (63, 95, 127),
            Level::Lightest => (191, 223, 255),
            Level::Lighter => (127, 191, 255),
            Level::Light => (63, 159, 255),
            Level::Normal => (0, 127, 255),
            Level::Dark => (0, 95, 191),
            Level::Darker => (0, 63, 127),
            Level::Darkest => (0, 31, 63),
        },
        Name::Blue => match level {
            Level::Desaturated => (63, 63, 127),
            Level::Lightest => (191, 191, 255),
            Level::Lighter => (127, 127, 255),
            Level::Light => (63, 63, 255),
            Level::Normal => (0, 0, 255),
            Level::Dark => (0, 0, 191),
            Level::Darker => (0, 0, 127),
            Level::Darkest => (0, 0, 63),
        },
        Name::Han => match level {
            Level::Desaturated => (79, 63, 127),
            Level::Lightest => (207, 191, 255),
            Level::Lighter => (159, 127, 255),
            Level::Light => (111, 63, 255),
            Level::Normal => (63, 0, 255),
            Level::Dark => (47, 0, 191),
            Level::Darker => (31, 0, 127),
            Level::Darkest => (15, 0, 63),
        },
        Name::Violet => match level {
            Level::Desaturated => (95, 63, 127),
            Level::Lightest => (223, 191, 255),
            Level::Lighter => (191, 127, 255),
            Level::Light => (159, 63, 255),
            Level::Normal => (127, 0, 255),
            Level::Dark => (95, 0, 191),
            Level::Darker => (63, 0, 127),
            Level::Darkest => (31, 0, 63),
        },
        Name::Purple => match level {
            Level::Desaturated => (111, 63, 127),
            Level::Lightest => (239, 191, 255),
            Level::Lighter => (223, 127, 255),
            Level::Light => (207, 63, 255),
            Level::Normal => (191, 0, 255),
            Level::Dark => (143, 0, 191),
            Level::Darker => (95, 0, 127),
            Level::Darkest => (47, 0, 63),
        },
        Name::Fuchsia => match level {
            Level::Desaturated => (127, 63, 127),
            Level::Lightest => (255, 191, 255),
            Level::Lighter => (255, 127, 255),
            Level::Light => (255, 63, 255),
            Level::Normal => (255, 0, 255),
            Level::Dark => (191, 0, 191),
            Level::Darker => (127, 0, 127),
            Level::Darkest => (63, 0, 63),
        },
        Name::Magenta => match level {
            Level::Desaturated => (127, 63, 111),
            Level::Lightest => (255, 191, 239),
            Level::Lighter => (255, 127, 223),
            Level::Light => (255, 63, 207),
            Level::Normal => (255, 0, 191),
            Level::Dark => (191, 0, 143),
            Level::Darker => (127, 0, 95),
            Level::Darkest => (63, 0, 47),
        },
        Name::Pink => match level {
            Level::Desaturated => (127, 63, 95),
            Level::Lightest => (255, 191, 223),
            Level::Lighter => (255, 127, 191),
            Level::Light => (255, 63, 159),
            Level::Normal => (255, 0, 127),
            Level::Dark => (191, 0, 95),
            Level::Darker => (127, 0, 63),
            Level::Darkest => (63, 0, 31),
        },
        Name::Crimson => match level {
            Level::Desaturated => (127, 63, 79),
            Level::Lightest => (255, 191, 207),
            Level::Lighter => (255, 127, 159),
            Level::Light => (255, 63, 111),
            Level::Normal => (255, 0, 63),
            Level::Dark => (191, 0, 47),
            Level::Darker => (127, 0, 31),
            Level::Darkest => (63, 0, 15),
        },
    }
}

impl Color {
    /// Returns the opaque named colour `name` at `level`.
    pub fn by_name_and_level(name: Name, level: Level) -> (c: Color)
        ensures
            (c.r, c.g, c.b) == named_rgb(name, level),
            c.a == 255,
    {
        match name {
            Name::Red => match level {
                Level::Desaturated => Color::new(127, 63, 63),
                Level::Lightest => Color::new(255, 191, 191),
                Level::Lighter => Color::new(255, 127, 127),
                Level::Light => Color::new(255, 63, 63),
                Level::Normal => Color::new(255, 0, 0),
                Level::Dark => Color::new(191, 0, 0),
                Level::Darker => Color::new(127, 0, 0),
                Level::Darkest => Color::new(63, 0, 0),
            },
            Name::Flame => match level {
                Level::Desaturated => Color::new(127, 79, 63),
                Level::Lightest => Color::new(255, 207, 191),
                Level::Lighter => Color::new(255, 159, 127),
                Level::Light => Color::new(255, 111, 63),
                Level::Normal => Color::new(255, 63, 0),
                Level::Dark => Color::new(191, 47, 0),
                Level::Darker => Color::new(127, 31, 0),
                Level::Darkest => Color::new(63, 15, 0),
            },
            Name::Orange => match level {
                Level::Desaturated => Color::new(127, 95, 63),
                Level::Lightest => Color::new(255, 223, 191),
                Level::Lighter => Color::new(255, 191, 127),
                Level::Light => Color::new(255, 159, 63),
                Level::Normal => Color::new(255, 127, 0),
                Level::Dark => Color::new(191, 95, 0),
                Level::Darker => Color::new(127, 63, 0),
                Level::Darkest => Color::new(63, 31, 0),
            },
            Name::Amber => match level {
                Level::Desaturated => Color::new(127, 111, 63),
                Level::Lightest => Color::new(255, 239, 191),
                Level::Lighter => Color::new(255, 223, 127),
                Level::Light => Color::new(255, 207, 63),
                Level::Normal => Color::new(255, 191, 0),
                Level::Dark => Color::new(191, 143, 0),
                Level::Darker => Color::new(127, 95, 0),
                Level::Darkest => Color::new(63, 47, 0),
            },
            Name::Yellow => match level {
                Level::Desaturated => Color::new(127, 127, 63),
                Level::Lightest => Color::new(255, 255, 191),
                Level::Lighter => Color::new(255, 255, 127),
                Level::Light => Color::new(255, 255, 63),
                Level::Normal => Color::new(255, 255, 0),
                Level::Dark => Color::new(191, 191, 0),
                Level::Darker => Color::new(127, 127, 0),
                Level::Darkest => Color::new(63, 63, 0),
            },
            Name::Lime => match level {
                Level::Desaturated => Color::new(111, 127, 63),
                Level::Lightest => Color::new(239, 255, 191),
                Level::Lighter => Color::new(223, 255, 127),
                Level::Light => Color::new(207, 255, 63),
                Level::Normal => Color::new(191, 255, 0),
                Level::Dark => Color::new(143, 191, 0),
                Level::Darker => Color::new(95, 127, 0),
                Level::Darkest => Color::new(47, 63, 0),
            },
            Name::Chartreuse => match level {
                Level::Desaturated => Color::new(95, 127, 63),
                Level::Lightest => Color::new(223, 255, 191),
                Level::Lighter => Color::new(191, 255, 127),
                Level::Light => Color::new(159, 255, 63),
                Level::Normal => Color::new(127, 255, 0),
                Level::Dark => Color::new(95, 191, 0),
                Level::Darker => Color::new(63, 127, 0),
                Level::Darkest => Color::new(31, 63, 0),
            },
            Name::Green => match level {
                Level::Desaturated => Color::new(63, 127, 63),
                Level::Lightest => Color::new(191, 255, 191),
                Level::Lighter => Color::new(127, 255, 127),
                Level::Light => Color::new(63, 255, 63),
                Level::Normal => Color::new(0, 255, 0),
                Level::Dark => Color::new(0, 191, 0),
                Level::Darker => Color::new(0, 127, 0),
                Level::Darkest => Color::new(0, 63, 0),
            },
            Name::Sea => match level {
                Level::Desaturated => Color::new(63, 127, 95),
                Level::Lightest => Color::new(191, 255, 223),
                Level::Lighter => Color::new(127, 255, 191),
                Level::Light => Color::new(63, 255, 159),
                Level::Normal => Color::new(0, 255, 127),
                Level::Dark => Color::new(0, 191, 95),
                Level::Darker => Color::new(0, 127, 63),
                Level::Darkest => Color::new(0, 63, 31),
            },
            Name::Turquoise => match level {
                Level::Desaturated => Color::new(63, 127, 111),
                Level::Lightest => Color::new(191, 255, 239),
                Level::Lighter => Color::new(127, 255, 223),
                Level::Light => Color::new(63, 255, 207),
                Level::Normal => Color::new(0, 255, 191),
                Level::Dark => Color::new(0, 191, 143),
                Level::Darker => Color::new(0, 127, 95),
                Level::Darkest => Color::new(0, 63, 47),
            },
            Name::Cyan => match level {
                Level::Desaturated => Color::new(63, 127, 127),
                Level::Lightest => Color::new(191, 255, 255),
                Level::Lighter => Color::new(127, 255, 255),
                Level::Light => Color::new(63, 255, 255),
                Level::Normal => Color::new(0, 255, 255),
                Level::Dark => Color::new(0, 191, 191),
                Level::Darker => Color::new(0, 127, 127),
                Level::Darkest => Color::new(0, 63, 63),
            },
            Name::Sky => match level {
                Level::Desaturated => Color::new(63, 111, 127),
                Level::Lightest => Color::new(191, 239, 255),
                Level::Lighter => Color::new(127, 223, 255),
                Level::Light => Color::new(63, 207, 255),
                Level::Normal => Color::new(0, 191, 255),
                Level::Dark => Color::new(0, 143, 191),
                Level::Darker => Color::new(0, 95, 127),
                Level::Darkest => Color::new(0, 47, 63),
            },
            Name::Azure => match level {
                Level::Desaturated => Color::new(63, 95, 127),
                Level::Lightest => Color::new(191, 223, 255),
                Level::Lighter => Color::new(127, 191, 255),
                Level::Light => Color::new(63, 159, 255),
                Level::Normal => Color::new(0, 127, 255),
                Level::Dark => Color::new(0, 95, 191),
                Level::Darker => Color::new(0, 63, 127),
                Level::Darkest => Color::new(0, 31, 63),
            },
            Name::Blue => match level {
                Level::Desaturated => Color::new(63, 63, 127),
                Level::Lightest => Color::new(191, 191, 255),
                Level::Lighter => Color::new(127, 127, 255),
                Level::Light => Color::new(63, 63, 255),
                Level::Normal => Color::new(0, 0, 255),
                Level::Dark => Color::new(0, 0, 191),
                Level::Darker => Color::new(0, 0, 127),
                Level::Darkest => Color::new(0, 0, 63),
            },
            Name::Han => match level {
                Level::Desaturated => Color::new(79, 63, 127),
                Level::Lightest => Color::new(207, 191, 255),
                Level::Lighter => Color::new(159, 127, 255),
                Level::Light => Color::new(111, 63, 255),
                Level::Normal => Color::new(63, 0, 255),
                Level::Dark => Color::new(47, 0, 191),
                Level::Darker => Color::new(31, 0, 127),
                Level::Darkest => Color::new(15, 0, 63),
            },
            Name::Violet => match level {
                Level::Desaturated => Color::new(95, 63, 127),
                Level::Lightest => Color::new(223, 191, 255),
                Level::Lighter => Color::new(191, 127, 255),
                Level::Light => Color::new(159, 63, 255),
                Level::Normal => Color::new(127, 0, 255),
                Level::Dark => Color::new(95, 0, 191),
                Level::Darker => Color::new(63, 0, 127),
                Level::Darkest => Color::new(31, 0, 63),
            },
            Name::Purple => match level {
                Level::Desaturated => Color::new(111, 63, 127),
                Level::Lightest => Color::new(239, 191, 255),
                Level::Lighter => Color::new(223, 127, 255),
                Level::Light => Color::new(207, 63, 255),
                Level::Normal => Color::new(191, 0, 255),
                Level::Dark => Color::new(143, 0, 191),
                Level::Darker => Color::new(95, 0, 127),
                Level::Darkest => Color::new(47, 0, 63),
            },
            Name::Fuchsia => match level {
                Level::Desaturated => Color::new(127, 63, 127),
                Level::Lightest => Color::new(255, 191, 255),
                Level::Lighter => Color::new(255, 127, 255),
                Level::Light => Color::new(255, 63, 255),
                Level::Normal => Color::new(255, 0, 255),
                Level::Dark => Color::new(191, 0, 191),
                Level::Darker => Color::new(127, 0, 127),
                Level::Darkest => Color::new(63, 0, 63),
            },
            Name::Magenta => match level {
                Level::Desaturated => Color::new(127, 63, 111),
                Level::Lightest => Color::new(255, 191, 239),
                Level::Lighter => Color::new(255, 127, 223),
                Level::Light => Color::new(255, 63, 207),
                Level::Normal => Color::new(255, 0, 191),
                Level::Dark => Color::new(191, 0, 143),
                Level::Darker => Color::new(127, 0, 95),
                Level::Darkest => Color::new(63, 0, 47),
            },
            Name::Pink => match level {
                Level::Desaturated => Color::new(127, 63, 95),
                Level::Lightest => Color::new(255, 191, 223),
                Level::Lighter => Color::new(255, 127, 191),
                Level::Light => Color::new(255, 63, 159),
                Level::Normal => Color::new(255, 0, 127),
                Level::Dark => Color::new(191, 0, 95),
                Level::Darker => Color::new(127, 0, 63),
                Level::Darkest => Color::new(63, 0, 31),
            },
            Name::Crimson => match level {
                Level::Desaturated => Color::new(127, 63, 79),
                Level::Lightest => Color::new(255, 191, 207),
                Level::Lighter => Color::new(255, 127, 159),
                Level::Light => Color::new(255, 63, 111),
                Level::Normal => Color::new(255, 0, 63),
                Level::Dark => Color::new(191, 0, 47),
                Level::Darker => Color::new(127, 0, 31),
                Level::Darkest => Color::new(63, 0, 15),
            },
        }
    }
}

} // verus!
