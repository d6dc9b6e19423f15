use rrss_cli_rs::colors::{ColorError, Rgb};
use rrss_cli_rs::hsl::{clamp, hex_to_hsl, hsl_to_hex, hsl_to_rgb, rgb_to_hsl, Hsl, Ratio};

fn ratio(num: u32, den: u32) -> Ratio {
    Ratio { num, den }
}

fn hsl(h: (u32, u32), s: (u32, u32), l: (u32, u32)) -> Hsl {
    Hsl { hue: ratio(h.0, h.1), saturation: ratio(s.0, s.1), lightness: ratio(l.0, l.1) }
}

#[test]
fn clamp_cuts_off_on_both_sides() {
    assert_eq!(clamp(5, 10, 20), 10);
    assert_eq!(clamp(25, 10, 20), 20);
    assert_eq!(clamp(15, 10, 20), 15);
    assert_eq!(clamp(10, 10, 20), 10);
    assert_eq!(clamp(20, 10, 20), 20);
    assert_eq!(clamp(5, 20, 10), 10);
}

#[test]
fn primaries_have_full_saturation() {
    assert_eq!(rgb_to_hsl(Rgb { r: 255, g: 0, b: 0 }), hsl((0, 255), (255, 255), (255, 510)));
    assert_eq!(rgb_to_hsl(Rgb { r: 0, g: 255, b: 0 }), hsl((30600, 255), (255, 255), (255, 510)));
    assert_eq!(rgb_to_hsl(Rgb { r: 0, g: 0, b: 255 }), hsl((61200, 255), (255, 255), (255, 510)));
    assert_eq!(rgb_to_hsl(Rgb { r: 255, g: 255, b: 0 }), hsl((15300, 255), (255, 255), (255, 510)));
}

#[test]
fn greys_have_no_hue_and_no_saturation() {
    assert_eq!(rgb_to_hsl(Rgb { r: 128, g: 128, b: 128 }), hsl((0, 1), (0, 1), (256, 510)));
    assert_eq!(rgb_to_hsl(Rgb { r: 0, g: 0, b: 0 }), hsl((0, 1), (0, 1), (0, 510)));
    assert_eq!(rgb_to_hsl(Rgb { r: 255, g: 255, b: 255 }), hsl((0, 1), (0, 1), (510, 510)));
}

#[test]
fn hue_wraps_below_red() {
    // red largest and green below blue: the hue lies between 300 and 360 degrees
    let h = rgb_to_hsl(Rgb { r: 0xbf, g: 0x61, b: 0x6a });
    assert_eq!(h, hsl((33300, 94), (94, 222), (288, 510)));
    assert!(h.hue.num >= 300 * h.hue.den && h.hue.num < 360 * h.hue.den);
}

#[test]
fn dark_blue_grey() {
    assert_eq!(rgb_to_hsl(Rgb { r: 0x2e, g: 0x34, b: 0x40 }), hsl((3960, 18), (18, 110), (110, 510)));
    assert_eq!(rgb_to_hsl(Rgb { r: 1, g: 2, b: 3 }), hsl((420, 2), (2, 4), (4, 510)));
}

#[test]
fn colours_of_hsl() {
    assert_eq!(hsl_to_rgb(&hsl((0, 1), (1, 1), (1, 2))), Rgb { r: 255, g: 0, b: 0 });
    assert_eq!(hsl_to_rgb(&hsl((120, 1), (1, 1), (1, 2))), Rgb { r: 0, g: 255, b: 0 });
    assert_eq!(hsl_to_rgb(&hsl((240, 1), (1, 2), (1, 4))), Rgb { r: 32, g: 32, b: 96 });
    assert_eq!(hsl_to_rgb(&hsl((30, 1), (1, 1), (1, 2))), Rgb { r: 255, g: 128, b: 0 });
    assert_eq!(hsl_to_rgb(&hsl((355, 1), (7, 10), (55, 100))), Rgb { r: 221, g: 60, b: 73 });
    assert_eq!(hsl_to_rgb(&hsl((210, 1), (1, 2), (1, 2))), Rgb { r: 64, g: 128, b: 191 });
}

#[test]
fn lightness_alone_gives_grey() {
    assert_eq!(hsl_to_rgb(&hsl((77, 1), (0, 1), (95, 100))), Rgb { r: 242, g: 242, b: 242 });
    assert_eq!(hsl_to_rgb(&hsl((0, 1), (1, 1), (0, 1))), Rgb { r: 0, g: 0, b: 0 });
    assert_eq!(hsl_to_rgb(&hsl((0, 1), (1, 1), (1, 1))), Rgb { r: 255, g: 255, b: 255 });
}

#[test]
fn large_denominators_are_fine() {
    let big = 4_000_000_000u32;
    let c = hsl_to_rgb(&hsl((big, big / 30), (big, big), (big / 2, big)));
    assert_eq!(c, Rgb { r: 255, g: 128, b: 0 });
}

#[test]
fn round_trip_is_exact() {
    for r in (0..=255u8).step_by(15) {
        for g in (0..=255u8).step_by(17) {
            for b in (0..=255u8).step_by(51) {
                let c = Rgb { r, g, b };
                assert_eq!(hsl_to_rgb(&rgb_to_hsl(c)), c);
            }
        }
    }
}

#[test]
fn hex_to_hsl_reads_the_colour() {
    assert_eq!(hex_to_hsl("#ff0000"), Ok(hsl((0, 255), (255, 255), (255, 510))));
    assert_eq!(hex_to_hsl("808080"), Ok(hsl((0, 1), (0, 1), (256, 510))));
    assert_eq!(hex_to_hsl("#12345"), Err(ColorError::MalformedColor));
}

#[test]
fn hsl_to_hex_writes_the_colour() {
    assert_eq!(hsl_to_hex(&hsl((210, 1), (1, 2), (1, 2))), "#4080bf");
    assert_eq!(hsl_to_hex(&hsl((0, 1), (0, 1), (6, 10))), "#999999");
}
