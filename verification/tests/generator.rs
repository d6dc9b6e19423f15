use rrss_cli_rs::colors::{ColorError, Rgb};
use rrss_cli_rs::generator::{
    fallback_palette, generate_palette, perceptual_palette, seed_palette, PerceptualScheme,
};
use rrss_cli_rs::hsl::{hsl_to_rgb, rgb_to_hsl};
use rrss_cli_rs::themes::Palette;

fn rgb(x: u32) -> Rgb {
    Rgb::from_u32(x)
}

fn scheme() -> PerceptualScheme {
    PerceptualScheme {
        base: rgb(0x101112),
        base_high: rgb(0x202122),
        muted: rgb(0x303132),
        text: rgb(0x404142),
        fg_accents: [rgb(0x505152), rgb(0x606162), rgb(0x707172), rgb(0x808182)],
    }
}

#[test]
fn fallback_of_a_red() {
    let p = fallback_palette(rgb(0xe94560));
    assert_eq!(
        p,
        Palette {
            bg: rgb(0x160e0f),
            surface: rgb(0x231416),
            primary: rgb(0xe94560),
            secondary: rgb(0x814425),
            accent: rgb(0x25544c),
            text: rgb(0xf3f1f2),
            muted: rgb(0xa58d91),
            highlight: rgb(0xac9627),
        }
    );
}

#[test]
fn fallback_of_the_default_accent() {
    let p = fallback_palette(rgb(0x4a3f6b));
    assert_eq!(
        p,
        Palette {
            bg: rgb(0x0a090b),
            surface: rgb(0x0f0e11),
            primary: rgb(0x4a3f6b),
            secondary: rgb(0x332637),
            accent: rgb(0x24261e),
            text: rgb(0xf2f2f3),
            muted: rgb(0x97959d),
            highlight: rgb(0x482f42),
        }
    );
}

#[test]
fn fallback_of_a_grey_is_grey() {
    let p = fallback_palette(rgb(0x808080));
    assert_eq!(
        p,
        Palette {
            bg: rgb(0x0f0f0f),
            surface: rgb(0x171717),
            primary: rgb(0x808080),
            secondary: rgb(0x464646),
            accent: rgb(0x333333),
            text: rgb(0xf2f2f2),
            muted: rgb(0x999999),
            highlight: rgb(0x5a5a5a),
        }
    );
}

#[test]
fn fallback_of_black_and_white() {
    let black = fallback_palette(rgb(0x000000));
    assert_eq!(black.bg, rgb(0x000000));
    assert_eq!(black.primary, rgb(0x000000));
    assert_eq!(black.text, rgb(0xf2f2f2));
    assert_eq!(black.muted, rgb(0x999999));
    let white = fallback_palette(rgb(0xffffff));
    assert_eq!(white.bg, rgb(0x1f1f1f));
    assert_eq!(white.surface, rgb(0x2e2e2e));
    assert_eq!(white.secondary, rgb(0x8c8c8c));
    assert_eq!(white.highlight, rgb(0xb3b3b3));
}

#[test]
fn fallback_primary_is_the_seed() {
    for x in [0x123456u32, 0xfedcba, 0x00ff7f, 0x7f7f80, 0x010203, 0xc0ffee] {
        assert_eq!(fallback_palette(rgb(x)).primary, rgb(x));
    }
}

#[test]
fn fallback_saturation_and_lightness_stay_in_range() {
    for x in [0x123456u32, 0xfedcba, 0x00ff7f, 0xffffff, 0x000000, 0xff0000] {
        let p = fallback_palette(rgb(x));
        for c in [p.bg, p.surface, p.primary, p.secondary, p.accent, p.text, p.muted, p.highlight] {
            let h = rgb_to_hsl(c);
            assert!(h.saturation.den > 0 && h.saturation.num <= h.saturation.den);
            assert!(h.lightness.den > 0 && h.lightness.num <= h.lightness.den);
            assert!(h.hue.den > 0 && h.hue.num < 360 * h.hue.den);
            assert_eq!(hsl_to_rgb(&h), c);
        }
    }
}

#[test]
fn perceptual_scheme_is_laid_out_over_the_roles() {
    let p = perceptual_palette(&scheme());
    assert_eq!(
        p,
        Palette {
            bg: rgb(0x101112),
            surface: rgb(0x202122),
            primary: rgb(0x505152),
            secondary: rgb(0x808182),
            accent: rgb(0x707172),
            text: rgb(0x404142),
            muted: rgb(0x303132),
            highlight: rgb(0x606162),
        }
    );
}

#[test]
fn perceptual_scheme_wins_over_the_fallback() {
    assert_eq!(seed_palette(rgb(0xe94560), Some(scheme())), perceptual_palette(&scheme()));
    assert_eq!(seed_palette(rgb(0xe94560), None), fallback_palette(rgb(0xe94560)));
}

#[test]
fn generated_theme_has_the_eight_roles() {
    let theme = generate_palette("#e94560", None).unwrap();
    assert_eq!(theme.len(), 8);
    assert_eq!(theme.get("bg").unwrap(), "#160e0f");
    assert_eq!(theme.get("surface").unwrap(), "#231416");
    assert_eq!(theme.get("primary").unwrap(), "#e94560");
    assert_eq!(theme.get("secondary").unwrap(), "#814425");
    assert_eq!(theme.get("accent").unwrap(), "#25544c");
    assert_eq!(theme.get("text").unwrap(), "#f3f1f2");
    assert_eq!(theme.get("muted").unwrap(), "#a58d91");
    assert_eq!(theme.get("highlight").unwrap(), "#ac9627");
}

#[test]
fn generated_theme_of_a_perceptual_scheme() {
    let theme = generate_palette("E94560", Some(scheme())).unwrap();
    assert_eq!(theme.len(), 8);
    assert_eq!(theme.get("bg").unwrap(), "#101112");
    assert_eq!(theme.get("primary").unwrap(), "#505152");
    assert_eq!(theme.get("highlight").unwrap(), "#606162");
    assert_eq!(theme.get("accent").unwrap(), "#707172");
    assert_eq!(theme.get("secondary").unwrap(), "#808182");
}

#[test]
fn malformed_seed_is_refused() {
    assert!(matches!(generate_palette("#e9456", None), Err(ColorError::MalformedColor)));
    assert!(matches!(generate_palette("", Some(scheme())), Err(ColorError::MalformedColor)));
}
