use ellipsis::{Color, ColorParseError};

fn hsv(hue: f32, saturation: f32, value: f32) -> Color {
    Color::Hsv {
        hue: format!("{}", hue),
        saturation: format!("{}", saturation),
        value: format!("{}", value),
    }
}

#[test]
fn as_string() {
    assert_eq!(
        Color::Rgba {
            red: 0,
            green: 255,
            blue: 128,
            alpha: 30
        }
        .as_string(),
        "#00ff801e"
    );

    assert_eq!(hsv(0.5, 0.25, 0.8).as_string(), "0.5 0.25 0.8");
}

#[test]
fn from_str() {
    assert_eq!(
        "#00ff801e".parse::<Color>(),
        Ok(Color::Rgba {
            red: 0,
            green: 255,
            blue: 128,
            alpha: 30
        })
    );

    assert_eq!(
        "#00ff80".parse::<Color>(),
        Ok(Color::Rgba {
            red: 0,
            green: 255,
            blue: 128,
            alpha: 255
        })
    );

    assert_eq!("0.5 0.25 0.8".parse::<Color>(), Ok(hsv(0.5, 0.25, 0.8)));
}

#[test]
fn rgba_text_reads_back() {
    for (red, green, blue, alpha) in [(0, 0, 0, 0), (255, 255, 255, 255), (1, 16, 171, 254), (18, 52, 86, 120)] {
        let c = Color::Rgba { red, green, blue, alpha };
        assert_eq!(Color::parse(&c.as_string()), Ok(c));
    }
}

#[test]
fn rgba_text_is_lowercase_two_digit_hex() {
    let c = Color::Rgba { red: 10, green: 11, blue: 171, alpha: 5 };
    assert_eq!(c.as_string(), "#0a0bab05");
}

#[test]
fn parse_accepts_uppercase_hex() {
    assert_eq!(
        Color::parse("#0A0BAB"),
        Ok(Color::Rgba { red: 10, green: 11, blue: 171, alpha: 255 })
    );
}

#[test]
fn parse_empty_is_an_error() {
    assert_eq!(Color::parse(""), Err(ColorParseError::Empty));
}

#[test]
fn parse_bad_hex_digit_is_an_error() {
    assert!(matches!(Color::parse("#00zz80"), Err(ColorParseError::InvalidRgba(_))));
    assert!(matches!(Color::parse("#00ff80g0"), Err(ColorParseError::InvalidRgba(_))));
}

#[test]
fn parse_other_shapes_are_hsv_errors() {
    assert_eq!(Color::parse("red"), Err(ColorParseError::InvalidHsv));
    assert_eq!(Color::parse("#00ff8"), Err(ColorParseError::InvalidHsv));
    assert_eq!(Color::parse("0.5 0.25"), Err(ColorParseError::InvalidHsv));
    assert_eq!(Color::parse("0.5 x 0.8"), Err(ColorParseError::InvalidHsv));
    assert_eq!(Color::parse("0.5 0.25 0.8 0.1"), Err(ColorParseError::InvalidHsv));
}

#[test]
fn parse_hsv_splits_on_any_white_space() {
    assert_eq!(
        Color::parse("  1\t-2.5e3\n inf "),
        Ok(Color::Hsv {
            hue: "1".to_string(),
            saturation: "-2.5e3".to_string(),
            value: "inf".to_string()
        })
    );
}

#[test]
fn name_is_written_as_given() {
    assert_eq!(Color::Name("light blue".to_string()).as_string(), "light blue");
}
