use rrss_cli_rs::colors::Rgb;
use rrss_cli_rs::transfer::{
    from_linear, linear_to_rgb, rgb_to_linear, to_linear, LinearRgb, UNIT,
};

#[test]
fn ends_of_the_curve() {
    assert_eq!(to_linear(0), 0);
    assert_eq!(to_linear(255), UNIT);
    assert_eq!(from_linear(0), 0);
    assert_eq!(from_linear(UNIT), 255);
}

#[test]
fn linear_light_of_bytes() {
    assert_eq!(to_linear(1), 304);
    assert_eq!(to_linear(10), 3035);
    assert_eq!(to_linear(11), 3347);
    assert_eq!(to_linear(128), 215_861);
    assert_eq!(to_linear(188), 502_886);
    assert_eq!(to_linear(254), 991_102);
}

#[test]
fn bytes_of_linear_light() {
    assert_eq!(from_linear(151), 0);
    assert_eq!(from_linear(152), 1);
    assert_eq!(from_linear(3130), 10);
    assert_eq!(from_linear(3131), 10);
    assert_eq!(from_linear(3188), 10);
    assert_eq!(from_linear(3189), 11);
    assert_eq!(from_linear(214_041), 127);
    assert_eq!(from_linear(214_042), 128);
    assert_eq!(from_linear(500_000), 188);
    assert_eq!(from_linear(995_545), 254);
    assert_eq!(from_linear(995_546), 255);
    assert_eq!(from_linear(999_999), 255);
}

#[test]
fn above_full_intensity_is_white() {
    assert_eq!(from_linear(UNIT + 1), 255);
    assert_eq!(from_linear(u32::MAX), 255);
}

#[test]
fn round_trip_gives_every_byte_back() {
    for c in 0..=255u8 {
        assert_eq!(from_linear(to_linear(c)), c);
    }
}

#[test]
fn the_curve_rises() {
    for c in 0..255u8 {
        assert!(to_linear(c) < to_linear(c + 1));
    }
}

#[test]
fn the_table_is_the_curve() {
    for c in 0..=255u8 {
        let x = c as f64 / 255.0;
        let y = if x <= 0.04045 { x / 12.92 } else { ((x + 0.055) / 1.055).powf(2.4) };
        let t = to_linear(c) as f64;
        assert!((t - y * 1_000_000.0).abs() <= 0.5 + 1e-6, "byte {}", c);
    }
}

#[test]
fn colours_in_linear_light() {
    let c = Rgb { r: 0, g: 128, b: 255 };
    assert_eq!(rgb_to_linear(c), LinearRgb { r: 0, g: 215_861, b: 1_000_000 });
    assert_eq!(linear_to_rgb(LinearRgb { r: 152, g: 500_000, b: 2_000_000 }), Rgb { r: 1, g: 188, b: 255 });
    for v in 0..=255u8 {
        let c = Rgb { r: v, g: 255 - v, b: v / 2 };
        assert_eq!(linear_to_rgb(rgb_to_linear(c)), c);
    }
}
