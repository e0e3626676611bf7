use pathfinder_hal::color::ColorU;
use pathfinder_hal::svg::SvgColor;

#[test]
fn black_is_opaque_black() {
    assert_eq!(ColorU::black(), ColorU { r: 0, g: 0, b: 0, a: 255 });
}

#[test]
fn opaque_color_is_written_in_lowercase_hex() {
    let c = ColorU { r: 0x12, g: 0xab, b: 0xff, a: 255 };
    assert_eq!(c.opaque_hex_string(), Some("#12abff".to_string()));
}

#[test]
fn black_is_written_as_zeros() {
    assert_eq!(ColorU::black().opaque_hex_string(), Some("#000000".to_string()));
}

#[test]
fn translucent_color_has_no_hex_form() {
    let c = ColorU { r: 1, g: 2, b: 3, a: 128 };
    assert_eq!(c.opaque_hex_string(), None);
}

#[test]
fn svg_color_is_drawn_opaque() {
    let c = ColorU::from_svg_color(SvgColor { red: 10, green: 20, blue: 30 });
    assert_eq!(c, ColorU { r: 10, g: 20, b: 30, a: 255 });
}
