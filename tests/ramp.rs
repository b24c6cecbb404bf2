use nzxtcli::ramp::{breakpoints, normalized_temperature, ramp_color, RampConfigError};
use nzxtcli::sensor::parse_reading;
use nzxtcli::{interpolate, Color, TemperatureRamp};

#[test]
fn color_interpolate() {
    let gray = interpolate(Color::new(0, 0, 0), Color::new(0xff, 0xff, 0xff), 500);
    println!("{gray:?}");
    assert_eq!(gray, Color::new(127, 127, 127));
}

#[test]
fn interpolate_ends_and_clamp() {
    let a = Color::new(10, 20, 30);
    let b = Color::new(200, 100, 0);
    assert_eq!(interpolate(a, b, 0), a);
    assert_eq!(interpolate(a, b, 1000), b);
    assert_eq!(interpolate(a, b, 5000), b);
    // (10 * 750 + 200 * 250) / 1000 = 57.5
    assert_eq!(interpolate(a, b, 250), Color::new(57, 40, 22));
}

#[test]
fn normalized_temperature_clamps() {
    assert_eq!(normalized_temperature(0, 20, 80), 0);
    assert_eq!(normalized_temperature(20_000, 20, 80), 0);
    assert_eq!(normalized_temperature(50_000, 20, 80), 500);
    assert_eq!(normalized_temperature(80_000, 20, 80), 1000);
    assert_eq!(normalized_temperature(95_000, 20, 80), 1000);
}

#[test]
fn ramp_breakpoints_and_midpoint() {
    let ramp = breakpoints();
    assert_eq!(ramp_color(&ramp, 0), Color::new(7, 5, 2));
    assert_eq!(ramp_color(&ramp, 250), Color::new(0x1B, 0x2E, 0x04));
    assert_eq!(ramp_color(&ramp, 900), Color::new(255, 0, 0));
    assert_eq!(ramp_color(&ramp, 1000), Color::new(255, 0, 0));
    // halfway between 600 and 700
    assert_eq!(ramp_color(&ramp, 650), Color::new((0x39 + 0x79) / 2, (0x20 + 0x09) / 2, 1));
}

#[test]
fn temperature_ramp_validation() {
    assert_eq!(TemperatureRamp::new(80, 80).unwrap_err(), RampConfigError::BaseNotBelowWarn);
    assert_eq!(TemperatureRamp::new(90, 80).unwrap_err(), RampConfigError::BaseNotBelowWarn);
    assert_eq!(TemperatureRamp::new(0, u64::MAX).unwrap_err(), RampConfigError::WarnTooLarge);
    let ramp = TemperatureRamp::new(0, 80).unwrap();
    assert_eq!((ramp.base(), ramp.warn()), (0, 80));
}

#[test]
fn temperature_ramp_colors() {
    let ramp = TemperatureRamp::new(0, 80).unwrap();
    assert_eq!(ramp.color_at(0), Color::new(7, 5, 2));
    assert_eq!(ramp.color_at(80_000), Color::new(255, 0, 0));
    assert_eq!(ramp.color_at(120_000), Color::new(255, 0, 0));
    // 20 degrees of 80 is position 250
    assert_eq!(ramp.color_at(20_000), Color::new(0x1B, 0x2E, 0x04));
}

#[test]
fn sensor_readings() {
    assert_eq!(parse_reading("45000\n"), Some(45000));
    assert_eq!(parse_reading("  +12 \t"), Some(12));
    assert_eq!(parse_reading("18446744073709551615"), Some(u64::MAX));
    assert_eq!(parse_reading("18446744073709551616"), None);
    assert_eq!(parse_reading(""), None);
    assert_eq!(parse_reading(" \n"), None);
    assert_eq!(parse_reading("+"), None);
    assert_eq!(parse_reading("4 5"), None);
    assert_eq!(parse_reading("-5"), None);
    assert_eq!(parse_reading("\u{a0}45000\u{3000}"), Some(45000));
    assert_eq!(parse_reading("4\u{2003}5"), None);
}
