use doryen_extra::color::{Color, Level, Name};

#[test]
fn operations() {
    let color1 = Color::new(31, 63, 127);
    let color2 = Color::new(1, 2, 3);
    let color3 = Color::new(50, 100, 200);

    assert_eq!(color1 + color2, Color::new(32, 65, 130));
    assert_eq!(color1 - color2, Color::new_with_alpha(30, 61, 124, 0));
    assert_eq!(color1 * color3, Color::new(6, 24, 99));
}

#[test]
fn conversions() {
    assert_eq!(Color::from((1, 2, 3)), Color::new(1, 2, 3));
    assert_eq!((1, 2, 3), Color::new(1, 2, 3).into());
}

#[test]
fn saturating_operations() {
    let bright = Color::new_with_alpha(200, 100, 0, 255);
    let other = Color::new_with_alpha(100, 200, 10, 1);
    assert_eq!(bright + other, Color::new_with_alpha(255, 255, 10, 255));
    assert_eq!(bright - other, Color::new_with_alpha(100, 0, 0, 254));
    assert_eq!(bright * Color::new(255, 255, 255), bright);
}

#[test]
fn named_colours() {
    assert_eq!(Color::by_name_and_level(Name::Red, Level::Normal), Color::new(255, 0, 0));
    assert_eq!(Color::by_name_and_level(Name::Flame, Level::Light), Color::new(255, 111, 63));
    assert_eq!(Color::by_name_and_level(Name::Crimson, Level::Darkest), Color::new(63, 0, 15));
    assert_eq!(Color::by_name_and_level(Name::Sky, Level::Desaturated), Color::new(63, 111, 127));
    assert_eq!(Color::by_name_and_level(Name::Blue, Level::Lightest), Color::new(191, 191, 255));
}

fn hue(c: Color) -> f32 {
    let max = c.r.max(c.g).max(c.b);
    let min = c.r.min(c.g).min(c.b);
    let delta = f32::from(max) - f32::from(min);
    if delta == 0.0 {
        return 0.0;
    }
    let h = if c.r == max {
        (f32::from(c.g) - f32::from(c.b)) / delta
    } else if c.g == max {
        2.0 + (f32::from(c.b) - f32::from(c.r)) / delta
    } else {
        4.0 + (f32::from(c.r) - f32::from(c.g)) / delta
    } * 60.0;
    let m = h % 360.0;
    if m < 0.0 {
        m + 360.0
    } else {
        m
    }
}

fn saturation(c: Color) -> f32 {
    let max = c.r.max(c.g).max(c.b);
    let min = c.r.min(c.g).min(c.b);
    if max == 0 {
        0.0
    } else {
        (f32::from(max) - f32::from(min)) / f32::from(max)
    }
}

fn value(c: Color) -> f32 {
    f32::from(c.r.max(c.g).max(c.b)) / 255.0
}

#[test]
#[allow(clippy::cognitive_complexity)]
fn by_name_and_level() {
    for &n in &[
        Name::Red,
        Name::Flame,
        Name::Orange,
        Name::Amber,
        Name::Yellow,
        Name::Lime,
        Name::Chartreuse,
        Name::Green,
        Name::Sea,
        Name::Turquoise,
        Name::Cyan,
        Name::Sky,
        Name::Azure,
        Name::Blue,
        Name::Han,
        Name::Violet,
        Name::Purple,
        Name::Fuchsia,
        Name::Magenta,
        Name::Pink,
        Name::Crimson,
    ] {
        for &l in &[
            Level::Desaturated,
            Level::Lightest,
            Level::Lighter,
            Level::Light,
            Level::Normal,
            Level::Dark,
            Level::Darker,
            Level::Darkest,
        ] {
            let color = Color::by_name_and_level(n, l);

            // This is no exact science, clearly, but they all fall within
            // fairly narrow ranges.
            match n {
                Name::Red => assert!(hue(color) < 0.1),
                Name::Flame => assert!((hue(color) - 15.).abs() < 0.8),
                Name::Orange => assert!((hue(color) - 30.).abs() < 0.5),
                Name::Amber => assert!((hue(color) - 45.).abs() < 0.3),
                Name::Yellow => assert!((hue(color) - 60.).abs() < 0.1),
                Name::Lime => assert!((hue(color) - 75.).abs() < 0.3),
                Name::Chartreuse => assert!((hue(color) - 90.).abs() < 0.5),
                Name::Green => assert!((hue(color) - 120.).abs() < 0.1),
                Name::Sea => assert!((hue(color) - 150.).abs() < 0.5),
                Name::Turquoise => assert!((hue(color) - 165.).abs() < 0.3),
                Name::Cyan => assert!((hue(color) - 180.).abs() < 0.1),
                Name::Sky => assert!((hue(color) - 195.).abs() < 0.3),
                Name::Azure => assert!((hue(color) - 210.).abs() < 0.5),
                Name::Blue => assert!((hue(color) - 240.).abs() < 0.1),
                Name::Han => assert!((hue(color) - 255.).abs() < 0.8),
                Name::Violet => assert!((hue(color) - 270.).abs() < 0.5),
                Name::Purple => assert!((hue(color) - 285.).abs() < 0.3),
                Name::Fuchsia => assert!((hue(color) - 300.).abs() < 0.1),
                Name::Magenta => assert!((hue(color) - 315.).abs() < 0.3),
                Name::Pink => assert!((hue(color) - 330.).abs() < 0.5),
                Name::Crimson => assert!((hue(color) - 345.).abs() < 0.8),
            }

            match l {
                Level::Desaturated => {
                    assert!((saturation(color) - 0.5).abs() < 0.1);
                    assert!((value(color) - 0.5).abs() < 0.1);
                }
                Level::Lightest => {
                    assert!((saturation(color) - 0.25).abs() < 0.1);
                    assert!((value(color) - 1.0).abs() < 0.1);
                }
                Level::Lighter => {
                    assert!((saturation(color) - 0.5).abs() < 0.1);
                    assert!((value(color) - 1.0).abs() < 0.1);
                }
                Level::Light => {
                    assert!((saturation(color) - 0.75).abs() < 0.1);
                    assert!((value(color) - 1.0).abs() < 0.1);
                }
                Level::Normal => {
                    assert!((saturation(color) - 1.0).abs() < 0.1);
                    assert!((value(color) - 1.0).abs() < 0.1);
                }
                Level::Dark => {
                    assert!((saturation(color) - 1.0).abs() < 0.1);
                    assert!((value(color) - 0.75).abs() < 0.1);
                }
                Level::Darker => {
                    assert!((saturation(color) - 1.0).abs() < 0.1);
                    assert!((value(color) - 0.5).abs() < 0.1);
                }
                Level::Darkest => {
                    assert!((saturation(color) - 1.0).abs() < 0.1);
                    assert!((value(color) - 0.25).abs() < 0.1);
                }
            }
        }
    }
}
