use light_show::color::{telemetry_rgb, Color, PadColor, PaletteColor};
use light_show::units::{byte, inv, lerp_byte, unit_mul, FULL};

#[test]
fn a_mul_scales_alpha_only() {
    let c = Color::argbw(40000, 1, 2, 3, 4);
    let d = c.a_mul(32768);
    assert_eq!(d.a, (40000u32 * 32768 / 65535) as u16);
    assert_eq!((d.r, d.g, d.b, d.w), (1, 2, 3, 4));
    assert_eq!(Color::rgb(5, 6, 7).a_mul(0).a, 0);
    assert_eq!(Color::rgb(5, 6, 7).a_mul(FULL), Color::rgb(5, 6, 7));
}

#[test]
fn a_replaces_alpha() {
    let c = Color::rgbw(1, 2, 3, 4).a(9);
    assert_eq!(c, Color::argbw(9, 1, 2, 3, 4));
}

#[test]
fn constructors_fill_defaults() {
    assert_eq!(Color::rgb(1, 2, 3), Color { a: FULL, r: 1, g: 2, b: 3, w: 0 });
    assert_eq!(Color::argb(7, 1, 2, 3), Color { a: 7, r: 1, g: 2, b: 3, w: 0 });
    assert_eq!(Color::aw(7, 8), Color { a: 7, r: 0, g: 0, b: 0, w: 8 });
    assert_eq!(Color::w(8), Color { a: FULL, r: 0, g: 0, b: 0, w: 8 });
    assert_eq!(Color::rgbw(1, 2, 3, 4), Color { a: FULL, r: 1, g: 2, b: 3, w: 4 });
}

#[test]
fn hsv_primaries_are_pure() {
    assert_eq!(Color::hsv(0, FULL, FULL), Color::rgb(FULL, 0, 0));
    assert_eq!(Color::hsv(21845, FULL, FULL), Color::rgb(0, FULL, 0));
    assert_eq!(Color::hsv(43690, FULL, FULL), Color::rgb(0, 0, FULL));
    assert_eq!(Color::hsv(FULL, FULL, FULL), Color::rgb(FULL, 0, 0));
}

#[test]
fn hsv_zero_saturation_is_full_value() {
    assert_eq!(Color::hsv(12345, 0, FULL), Color::rgb(FULL, FULL, FULL));
    assert_eq!(Color::hsv(12345, 0, 0), Color::rgb(0, 0, 0));
}

#[test]
fn hsv_between_primaries_mixes() {
    // Hue 1/6 is yellow.
    let c = Color::hsv(10922, FULL, FULL);
    assert_eq!(c.r, FULL);
    assert!(c.g > 65000);
    assert_eq!(c.b, 0);
}

#[test]
fn palette_entries_name_colours() {
    assert_eq!(Color::from(PaletteColor::Red), Color::rgb(FULL, 0, 0));
    assert_eq!(Color::from(PaletteColor::Off), Color::argbw(0, 0, 0, 0, 0));
    assert_eq!(Color::from(PaletteColor::White), Color::w(FULL));
    assert_eq!(Color::from(PaletteColor::Index(3)), Color::w(FULL));
    assert_eq!(Color::from(PaletteColor::Orange), Color::rgb(FULL, 16449, 0));
}

#[test]
fn white_shows_as_palette_white() {
    assert_eq!(PadColor::from(Color::w(FULL)), PadColor::Palette(PaletteColor::White));
    assert_eq!(PadColor::from(Color::rgb(FULL, FULL, FULL)), PadColor::Palette(PaletteColor::White));
}

#[test]
fn other_colours_show_scaled_by_alpha() {
    assert_eq!(PadColor::from(Color::rgb(FULL, 0, FULL)), PadColor::Rgb(255, 0, 255));
    assert_eq!(PadColor::from(Color::argb(32768, FULL, 0, 0)), PadColor::Rgb(127, 0, 0));
    assert_eq!(PadColor::from(Color::argbw(FULL, FULL, FULL, FULL, 1)), PadColor::Rgb(255, 255, 255));
}

#[test]
fn unit_byte_mapping() {
    assert_eq!(byte(0), 0);
    assert_eq!(byte(FULL), 255);
    assert_eq!(byte(32768), 127);
    assert_eq!(lerp_byte(0, 128, 255), 128);
    assert_eq!(lerp_byte(FULL, 128, 255), 255);
    assert_eq!(lerp_byte(FULL, 200, 100), 100);
    assert_eq!(lerp_byte(32768, 0, 127), 63);
    assert_eq!(unit_mul(FULL, 1234), 1234);
    assert_eq!(inv(1), 65534);
}

#[test]
fn telemetry_reports_white_as_full_rgb() {
    assert_eq!(telemetry_rgb(Color::w(FULL)), (FULL, FULL, FULL));
    assert_eq!(telemetry_rgb(Color::rgb(1, 2, 3)), (1, 2, 3));
    assert_eq!(telemetry_rgb(Color::aw(5, FULL)), (0, 0, 0));
}

#[test]
fn named_colour_constructors() {
    assert_eq!(Color::off(), Color::argbw(0, 0, 0, 0, 0));
    assert_eq!(Color::white(), Color::w(FULL));
    assert_eq!(Color::rgb_white(), Color::rgb(FULL, FULL, FULL));
    assert_eq!(Color::red(), Color::rgb(FULL, 0, 0));
    assert_eq!(Color::cyan(), Color::rgb(0, 52428, FULL));
    assert_eq!(Color::pink(), Color::rgb(FULL, 24903, 52428));
    assert_eq!(PadColor::from(Color::white()), PadColor::Palette(PaletteColor::White));
}
