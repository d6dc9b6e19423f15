//! Palettes from one seed colour.
//!
//! Two strategies give the eight roles their colours. The perceptual one is
//! computed elsewhere and may fail; its result, where there is one, is only
//! laid out over the roles here. The other derives every role from the hue,
//! saturation and lightness of the seed and never fails.

use crate::colors::{hex_to_rgb_tuple, parse_hex, ColorError, Rgb};
use crate::hsl::{clamp, hsl_of, hsl_to_rgb, rgb_of, rgb_to_hsl, Hsl, Ratio};
use crate::themes::{role_names, theme_of, Palette, Theme};
use vstd::prelude::*;

verus! {

/// The colours of a perceptual scheme that the roles are taken from.
#[derive(Clone, Copy, Debug)]
pub struct PerceptualScheme {
    pub base: Rgb,
    pub base_high: Rgb,
    pub muted: Rgb,
    pub text: Rgb,
    pub fg_accents: [Rgb; 4],
}

/// The palette of a perceptual scheme: bg is its base, surface its raised
/// base, and primary, highlight, accent and secondary its four foreground
/// accents in that order.
pub open spec fn perceptual_palette_of(scheme: PerceptualScheme) -> Palette {
    Palette {
        bg: scheme.base,
        surface: scheme.base_high,
        primary: scheme.fg_accents[0],
        secondary: scheme.fg_accents[3],
        accent: scheme.fg_accents[2],
        text: scheme.text,
        muted: scheme.muted,
        highlight: scheme.fg_accents[1],
    }
}

/// Lays a perceptual scheme out over the eight roles.
pub fn perceptual_palette(scheme: &PerceptualScheme) -> (p: Palette)
    ensures
        p == perceptual_palette_of(*scheme),
{
    Palette {
        bg: scheme.base,
        surface: scheme.base_high,
        primary: scheme.fg_accents[0],
        secondary: scheme.fg_accents[3],
        accent: scheme.fg_accents[2],
        text: scheme.text,
        muted: scheme.muted,
        highlight: scheme.fg_accents[1],
    }
}

/// The seed with its hue turned by a number of degrees and its saturation and
/// lightness taken at a percentage, each cut off at one.
pub open spec fn shade(seed: Hsl, degrees: int, saturation: int, lightness: int) -> Hsl {
    Hsl {
        hue: seed.hue.turned(degrees),
        saturation: seed.saturation.percent(saturation).at_most_one(),
        lightness: seed.lightness.percent(lightness).at_most_one(),
    }
}

/// The seed with its saturation taken at a percentage, cut off at one, and a
/// lightness of its own, given in hundredths.
pub open spec fn tint(seed: Hsl, saturation: int, lightness: int) -> Hsl {
    Hsl {
        hue: seed.hue,
        saturation: seed.saturation.percent(saturation).at_most_one(),
        lightness: Ratio { num: lightness as u32, den: 100 },
    }
}

/// Hue, saturation and lightness of each role that is derived from a seed, by
/// the role's place in the order bg, surface, primary, secondary, accent,
/// text, muted, highlight.
pub open spec fn fallback_shade(seed: Hsl, role: int) -> Hsl {
    if role == 0 {
        shade(seed, 0, 30, 12)
    } else if role == 1 {
        shade(seed, 0, 35, 18)
    } else if role == 2 {
        seed
    } else if role == 3 {
        shade(seed, 30, 70, 55)
    } else if role == 4 {
        shade(seed, 180, 50, 40)
    } else if role == 5 {
        tint(seed, 10, 95)
    } else if role == 6 {
        tint(seed, 15, 60)
    } else {
        shade(seed, 60, 80, 70)
    }
}

/// The palette derived from the hue, saturation and lightness of a seed.
pub open spec fn fallback_palette_of(seed: Rgb) -> Palette {
    let hsl = hsl_of(seed);
    Palette {
        bg: rgb_of(fallback_shade(hsl, 0)),
        surface: rgb_of(fallback_shade(hsl, 1)),
        primary: rgb_of(fallback_shade(hsl, 2)),
        secondary: rgb_of(fallback_shade(hsl, 3)),
        accent: rgb_of(fallback_shade(hsl, 4)),
        text: rgb_of(fallback_shade(hsl, 5)),
        muted: rgb_of(fallback_shade(hsl, 6)),
        highlight: rgb_of(fallback_shade(hsl, 7)),
    }
}

/// Whether a hue, saturation and lightness are those of some sRGB colour: a
/// whole hue below 360 degrees, saturation and lightness between zero and
/// one, and denominators as small as a colour gives them.
pub open spec fn is_seed(hsl: Hsl) -> bool {
    &&& hsl.wf()
    &&& hsl.hue.den <= 255
    &&& hsl.saturation.den <= 255
    &&& hsl.lightness.den <= 510
}

/// Every colour that is derived from a seed has a hue below 360 degrees and a
/// saturation and a lightness between zero and one.
pub proof fn lemma_fallback_shades_in_range(seed: Hsl, role: int)
    requires
        is_seed(seed),
        0 <= role < 8,
    ensures
        fallback_shade(seed, role).wf(),
{
    assert(seed.saturation.num * 100 <= 25500 && seed.saturation.den * 100 <= 25500)
        by (nonlinear_arith)
        requires
            seed.saturation.num <= seed.saturation.den <= 255,
    ;
    assert(seed.lightness.num * 100 <= 51000 && seed.lightness.den * 100 <= 51000)
        by (nonlinear_arith)
        requires
            seed.lightness.num <= seed.lightness.den <= 510,
    ;
}

/// The hue, saturation and lightness of every colour can be a seed.
pub proof fn lemma_color_is_seed(c: Rgb)
    ensures
        is_seed(hsl_of(c)),
{
}

/// Every role of the palette that is derived from a seed colour has a hue
/// below 360 degrees and a saturation and a lightness between zero and one,
/// and the primary colour is the seed itself.
pub proof fn lemma_fallback_palette_in_range(seed: Rgb)
    ensures
        forall|role: int| 0 <= role < 8 ==> (#[trigger] fallback_shade(hsl_of(seed), role)).wf(),
        fallback_palette_of(seed).primary == seed,
{
    lemma_color_is_seed(seed);
    assert forall|role: int| 0 <= role < 8 implies (#[trigger] fallback_shade(
        hsl_of(seed),
        role,
    )).wf() by {
        lemma_fallback_shades_in_range(hsl_of(seed), role);
    }
    crate::hsl::lemma_hsl_round_trip(seed);
}

fn percent_of(x: Ratio, percent: u32) -> (r: Ratio)
    requires
        x.is_unit(),
        x.den <= 510,
        percent <= 100,
    ensures
        r == x.percent(percent as int).at_most_one(),
        r.is_unit(),
{
    assert(x.num * percent <= 51000) by (nonlinear_arith)
        requires
            x.num <= 510,
            percent <= 100,
    ;
    let num: u32 = x.num * percent;
    let den: u32 = x.den * 100;
    Ratio { num: clamp(num, 0, den), den }
}

fn turn(hue: Ratio, degrees: u32) -> (r: Ratio)
    requires
        hue.is_angle(),
        hue.den <= 255,
        degrees < 360,
    ensures
        r == hue.turned(degrees as int),
        r.is_angle(),
{
    assert(degrees * hue.den < 360 * hue.den <= 360 * 255) by (nonlinear_arith)
        requires
            degrees < 360,
            0 < hue.den <= 255,
    ;
    let raw: u32 = hue.num + degrees * hue.den;
    Ratio { num: if raw >= 360 * hue.den { raw - 360 * hue.den } else { raw }, den: hue.den }
}

fn shade_of(seed: &Hsl, degrees: u32, saturation: u32, lightness: u32) -> (h: Hsl)
    requires
        is_seed(*seed),
        degrees < 360,
        saturation <= 100,
        lightness <= 100,
    ensures
        h == shade(*seed, degrees as int, saturation as int, lightness as int),
        h.wf(),
{
    Hsl {
        hue: turn(seed.hue, degrees),
        saturation: percent_of(seed.saturation, saturation),
        lightness: percent_of(seed.lightness, lightness),
    }
}

fn tint_of(seed: &Hsl, saturation: u32, lightness: u32) -> (h: Hsl)
    requires
        is_seed(*seed),
        saturation <= 100,
        lightness <= 100,
    ensures
        h == tint(*seed, saturation as int, lightness as int),
        h.wf(),
{
    Hsl {
        hue: seed.hue,
        saturation: percent_of(seed.saturation, saturation),
        lightness: Ratio { num: lightness, den: 100 },
    }
}

fn role_shade(seed: &Hsl, role: u8) -> (h: Hsl)
    requires
        is_seed(*seed),
        role < 8,
    ensures
        h == fallback_shade(*seed, role as int),
        h.wf(),
{
    if role == 0 {
        shade_of(seed, 0, 30, 12)
    } else if role == 1 {
        shade_of(seed, 0, 35, 18)
    } else if role == 2 {
        *seed
    } else if role == 3 {
        shade_of(seed, 30, 70, 55)
    } else if role == 4 {
        shade_of(seed, 180, 50, 40)
    } else if role == 5 {
        tint_of(seed, 10, 95)
    } else if role == 6 {
        tint_of(seed, 15, 60)
    } else {
        shade_of(seed, 60, 80, 70)
    }
}

fn role_color(seed: &Hsl, role: u8) -> (c: Rgb)
    requires
        is_seed(*seed),
        role < 8,
    ensures
        c == rgb_of(fallback_shade(*seed, role as int)),
{
    let shade = role_shade(seed, role);
    hsl_to_rgb(&shade)
}

/// Derives a palette from the hue, saturation and lightness of a seed: bg and
/// surface are dark and weak in colour, primary is the seed, secondary,
/// accent and highlight turn the hue by 30, 180 and 60 degrees, text and muted
/// have a lightness of their own.
pub fn fallback_palette(seed: Rgb) -> (p: Palette)
    ensures
        p == fallback_palette_of(seed),
{
    let hsl = rgb_to_hsl(seed);
    Palette {
        bg: role_color(&hsl, 0),
        surface: role_color(&hsl, 1),
        primary: role_color(&hsl, 2),
        secondary: role_color(&hsl, 3),
        accent: role_color(&hsl, 4),
        text: role_color(&hsl, 5),
        muted: role_color(&hsl, 6),
        highlight: role_color(&hsl, 7),
    }
}

/// The palette of a seed: that of the perceptual scheme where there is one,
/// and the one derived from the seed's hue, saturation and lightness
/// otherwise.
pub open spec fn palette_of_seed(seed: Rgb, perceptual: Option<PerceptualScheme>) -> Palette {
    match perceptual {
        Some(scheme) => perceptual_palette_of(scheme),
        None => fallback_palette_of(seed),
    }
}

/// The theme of a seed given as a colour text, which is an error unless six
/// characters remain behind the optional `#`.
pub open spec fn theme_of_seed(base_hex: Seq<char>, perceptual: Option<PerceptualScheme>) -> Result<
    Map<Seq<char>, Seq<char>>,
    ColorError,
> {
    match parse_hex(base_hex) {
        Ok((r, g, b)) => Ok(theme_of(palette_of_seed(Rgb { r, g, b }, perceptual))),
        Err(e) => Err(e),
    }
}

/// The palette of a seed. `perceptual` is the outcome of the perceptual
/// strategy on that seed: where it failed, the palette is derived from the
/// seed's hue, saturation and lightness.
pub fn seed_palette(seed: Rgb, perceptual: Option<PerceptualScheme>) -> (p: Palette)
    ensures
        p == palette_of_seed(seed, perceptual),
{
    match perceptual {
        Some(scheme) => perceptual_palette(&scheme),
        None => fallback_palette(seed),
    }
}

/// The theme of a seed given as six hexadecimal digits, with or without a
/// leading `#`: all eight roles, each with its colour as `#rrggbb`.
/// `perceptual` is the outcome of the perceptual strategy on that seed.
pub fn generate_palette(base_hex: &str, perceptual: Option<PerceptualScheme>) -> (res: Result<
    Theme,
    ColorError,
>)
    ensures
        match (res, theme_of_seed(base_hex@, perceptual)) {
            (Ok(theme), Ok(expected)) => theme@ == expected && theme.keys() == role_names(),
            (Err(e), Err(expected)) => e == expected,
            _ => false,
        },
{
    match hex_to_rgb_tuple(base_hex) {
        Ok((r, g, b)) => Ok(seed_palette(Rgb { r, g, b }, perceptual).to_theme()),
        Err(e) => Err(e),
    }
}

} // verus!
