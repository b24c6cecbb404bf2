use std::str::FromStr;

use nzxtcli::{Color, ColorParseError};

#[test]
fn parse_color() {
    let color = "000000".parse::<Color>().unwrap();
    assert_eq!(color, Color::new(0, 0, 0));
    let color = "ff0000".parse::<Color>().unwrap();
    assert_eq!(color, Color::new(0xff, 0, 0));

    for (str, expected) in [
        ("000000", Color::new(0, 0, 0)),
        ("ff0000", Color::new(0xff, 0, 0)),
        ("#00ff00", Color::new(0, 0xff, 0)),
        ("#0000ff", Color::new(0, 0, 0xff)),
        ("#200800", Color::new(32, 8, 0)),
    ] {
        let color = str.parse::<Color>().unwrap();
        assert_eq!(color, expected);
    }
}

#[test]
fn color_accessors_hide_wire_order() {
    let c = Color::new(1, 2, 3);
    assert_eq!((c.red(), c.green(), c.blue()), (1, 2, 3));
    assert_eq!(c.inner(), &[2, 1, 3]);
}

#[test]
fn inner_mut_changes_wire_bytes() {
    let mut c = Color::new(1, 2, 3);
    c.inner_mut()[0] = 9;
    assert_eq!(c.green(), 9);
    assert_eq!(c.red(), 1);
}

#[test]
fn color_text_round_trip() {
    for c in [
        Color::new(0, 0, 0),
        Color::new(0xff, 0xff, 0xff),
        Color::new(0x12, 0xab, 0x09),
        Color::new(32, 8, 0),
    ] {
        let text = c.to_string();
        assert_eq!(Color::parse(&text), Ok(c));
        assert_eq!(Color::parse(&text[1..]), Ok(c));
    }
    assert_eq!(Color::new(0x12, 0xab, 0x09).to_string(), "#12ab09");
}

#[test]
fn color_parse_is_case_insensitive() {
    assert_eq!(Color::parse("#AbCdEf"), Ok(Color::new(0xab, 0xcd, 0xef)));
    assert_eq!(Color::parse("ABCDEF"), Ok(Color::new(0xab, 0xcd, 0xef)));
}

#[test]
fn color_from_str_matches_parse() {
    for text in ["#12ab09", "12AB09", "#fff", "", "zz0000", "#1234567"] {
        assert_eq!(Color::from_str(text), Color::parse(text));
    }
    assert_eq!("#FF8000".parse::<Color>(), Ok(Color::new(0xff, 0x80, 0)));
}

#[test]
fn color_parse_errors() {
    assert_eq!(Color::parse(""), Err(ColorParseError::InvalidLength));
    assert_eq!(Color::parse("#fff"), Err(ColorParseError::InvalidLength));
    assert_eq!(Color::parse("fffffff"), Err(ColorParseError::InvalidLength));
    assert_eq!(Color::parse("##ffffff"), Err(ColorParseError::InvalidLength));
    assert_eq!(Color::parse("#12345g"), Err(ColorParseError::InvalidDigit));
    assert_eq!(Color::parse("+12345"), Err(ColorParseError::InvalidDigit));
}

#[test]
fn wrap_slice_uses_wire_order() {
    let colors = [Color::new(1, 2, 3), Color::new(4, 5, 6)];
    assert_eq!(Color::wrap_slice(&colors), vec![2, 1, 3, 5, 4, 6]);
    assert!(Color::wrap_slice(&[]).is_empty());
}
