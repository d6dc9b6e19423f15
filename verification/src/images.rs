//! Duotone recolouring of decoded images, and the limits on what is decoded.
//!
//! A pixel's luminance picks a colour on the gradient from the theme's bg to
//! its primary colour, and that colour is blended with the pixel by an
//! intensity. All of it happens in linear light, in millionths of full
//! intensity; the alpha channel passes through.

use crate::colors::{ascii_lowercase, hex_digit_value, strip_pound, Rgb};
use crate::themes::{Role, Theme};
use crate::transfer::{
    from_linear, lemma_linear_ends, lemma_round_trip, lemma_srgb_to_linear, linear_to_srgb,
    srgb_to_linear, to_linear, UNIT,
};
use vstd::prelude::*;
use vstd::string::*;
use vstd::utf8::is_ascii_chars;

verus! {

/// The largest image file that is decoded, in mebibytes.
pub const MAX_IMAGE_SIZE_MB: u64 = 256;

/// The largest width and the largest height, in pixels, of an image that is
/// worked on.
pub const MAX_IMAGE_DIMENSION: u32 = 4096;

/// The ceiling that an image is over.
#[derive(Clone, Copy, Debug, PartialEq, Eq, Structural)]
pub enum Ceiling {
    /// The file has more bytes than `MAX_IMAGE_SIZE_MB` mebibytes.
    FileSize,
    /// The width or the height is over `MAX_IMAGE_DIMENSION`.
    Dimension,
}

/// Why an image was not recoloured.
#[derive(Clone, Copy, Debug, PartialEq, Eq, Structural)]
pub enum ImageError {
    /// The image is over a ceiling.
    ResourceLimitExceeded(Ceiling),
    /// The theme has no colour for the role.
    ThemeMissingRole(Role),
    /// The theme's text for the role is no colour.
    InvalidColorValue(Role),
    /// The pixel data has not four bytes for each pixel of the given width and
    /// height.
    ImageDecodeError,
    /// No dominant colours were found in the pixel data.
    QuantizationFailed,
    /// The operation does not exist yet.
    NotImplemented,
}

/// Whether a file of that many bytes is over the ceiling.
pub open spec fn file_too_large(bytes: u64) -> bool {
    bytes > MAX_IMAGE_SIZE_MB * 1024 * 1024
}

/// Whether an image of that width and height is over the ceiling.
pub open spec fn dimensions_too_large(width: u32, height: u32) -> bool {
    width > MAX_IMAGE_DIMENSION || height > MAX_IMAGE_DIMENSION
}

/// Refuses a file that is over the ceiling on bytes. To be asked before the
/// file is decoded.
pub fn check_file_size(bytes: u64) -> (res: Result<(), ImageError>)
    ensures
        res == if file_too_large(bytes) {
            Err::<(), ImageError>(ImageError::ResourceLimitExceeded(Ceiling::FileSize))
        } else {
            Ok::<(), ImageError>(())
        },
{
    if bytes > MAX_IMAGE_SIZE_MB * 1024 * 1024 {
        Err(ImageError::ResourceLimitExceeded(Ceiling::FileSize))
    } else {
        Ok(())
    }
}

/// Refuses an image whose width or height is over the ceiling. To be asked as
/// soon as the size is known.
pub fn check_dimensions(width: u32, height: u32) -> (res: Result<(), ImageError>)
    ensures
        res == if dimensions_too_large(width, height) {
            Err::<(), ImageError>(ImageError::ResourceLimitExceeded(Ceiling::Dimension))
        } else {
            Ok::<(), ImageError>(())
        },
{
    if width > MAX_IMAGE_DIMENSION || height > MAX_IMAGE_DIMENSION {
        Err(ImageError::ResourceLimitExceeded(Ceiling::Dimension))
    } else {
        Ok(())
    }
}

/// The luminance of a colour in linear light, with the Rec. 709 weights 0.2126,
/// 0.7152 and 0.0722, rounded to the nearest millionth.
pub open spec fn luminance(r: int, g: int, b: int) -> int {
    (2126 * r + 7152 * g + 722 * b + 5000) / 10000
}

/// The point between `a` and `b` at the fraction `f` of the way, with `f` in
/// millionths, rounded to the nearest whole number.
pub open spec fn lerp(a: int, b: int, f: int) -> int {
    (a * (UNIT - f) + b * f + 500_000) / 1_000_000
}

/// An intensity in millionths, cut off at one.
pub open spec fn intensity_of(intensity: u32) -> int {
    if intensity > UNIT { UNIT as int } else { intensity as int }
}

/// One channel of a recoloured pixel: the channel `c` of the pixel in linear
/// light is blended, by the intensity, with the point that the luminance `y`
/// picks between the channels of bg and primary.
pub open spec fn recolored_channel(c: u8, bg: u8, primary: u8, y: int, intensity: int) -> u8 {
    let duotone = lerp(srgb_to_linear(bg), srgb_to_linear(primary), y);
    linear_to_srgb(lerp(srgb_to_linear(c), duotone, intensity)) as u8
}

/// The luminance of a pixel in linear light.
pub open spec fn pixel_luminance(r: u8, g: u8, b: u8) -> int {
    luminance(srgb_to_linear(r), srgb_to_linear(g), srgb_to_linear(b))
}

/// A recoloured pixel. Where alpha is kept, a fully transparent pixel becomes
/// transparent black; every other pixel keeps its alpha and has each channel
/// recoloured by the pixel's luminance.
pub open spec fn recolored_pixel(
    p: (u8, u8, u8, u8),
    bg: Rgb,
    primary: Rgb,
    intensity: u32,
    keep_alpha: bool,
) -> (u8, u8, u8, u8) {
    if p.3 == 0 && keep_alpha {
        (0u8, 0u8, 0u8, 0u8)
    } else {
        let y = pixel_luminance(p.0, p.1, p.2);
        let k = intensity_of(intensity);
        (
            recolored_channel(p.0, bg.r, primary.r, y, k),
            recolored_channel(p.1, bg.g, primary.g, y, k),
            recolored_channel(p.2, bg.b, primary.b, y, k),
            p.3,
        )
    }
}

/// The pixel at a place in RGBA data.
pub open spec fn pixel_at(data: Seq<u8>, i: int) -> (u8, u8, u8, u8) {
    (data[4 * i], data[4 * i + 1], data[4 * i + 2], data[4 * i + 3])
}

/// Whether RGBA data is the recolouring of other RGBA data, pixel by pixel.
pub open spec fn is_recolored(
    out: Seq<u8>,
    pixels: Seq<u8>,
    bg: Rgb,
    primary: Rgb,
    intensity: u32,
    keep_alpha: bool,
) -> bool {
    &&& out.len() == pixels.len()
    &&& forall|i: int|
        0 <= i < pixels.len() / 4 ==> pixel_at(out, i) == recolored_pixel(
            #[trigger] pixel_at(pixels, i),
            bg,
            primary,
            intensity,
            keep_alpha,
        )
}

proof fn lemma_lerp_bounds(a: int, b: int, f: int)
    requires
        0 <= a <= UNIT,
        0 <= b <= UNIT,
        0 <= f <= UNIT,
    ensures
        0 <= a * (UNIT - f) <= 1_000_000_000_000,
        0 <= b * f <= 1_000_000_000_000,
        0 <= lerp(a, b, f) <= UNIT,
        f == 0 ==> lerp(a, b, f) == a,
        f == UNIT ==> lerp(a, b, f) == b,
{
    let u = 1_000_000int;
    assert(0 <= a * (u - f) <= u * (u - f)) by (nonlinear_arith)
        requires
            0 <= a <= u,
            0 <= f <= u,
    ;
    assert(0 <= b * f <= u * f) by (nonlinear_arith)
        requires
            0 <= b <= u,
            0 <= f <= u,
    ;
    assert(u * (u - f) + u * f == u * u) by (nonlinear_arith);
    assert(u * u == 1_000_000_000_000);
    assert(u * (u - f) <= 1_000_000_000_000 && u * f <= 1_000_000_000_000) by (nonlinear_arith)
        requires
            0 <= f <= u,
            u == 1_000_000,
    ;
    if f == 0 {
        assert(b * f == 0) by (nonlinear_arith)
            requires
                f == 0,
        ;
        assert(a * (u - f) == a * 1_000_000) by (nonlinear_arith)
            requires
                f == 0,
                u == 1_000_000,
        ;
    }
    if f == u {
        assert(a * (u - f) == 0) by (nonlinear_arith)
            requires
                f == u,
        ;
        assert(b * f == b * 1_000_000) by (nonlinear_arith)
            requires
                f == u,
                u == 1_000_000,
        ;
    }
}

fn mix(a: u32, b: u32, f: u32) -> (r: u32)
    requires
        a <= UNIT,
        b <= UNIT,
        f <= UNIT,
    ensures
        r == lerp(a as int, b as int, f as int),
        r <= UNIT,
{
    proof {
        lemma_lerp_bounds(a as int, b as int, f as int);
    }
    let x: u64 = (a as u64) * ((UNIT - f) as u64) + (b as u64) * (f as u64) + 500_000;
    (x / 1_000_000) as u32
}

fn recolor_channel(c: u8, bg: u32, primary: u32, y: u32, intensity: u32) -> (r: u8)
    requires
        bg <= UNIT,
        primary <= UNIT,
        y <= UNIT,
        intensity <= UNIT,
    ensures
        r == linear_to_srgb(
            lerp(srgb_to_linear(c), lerp(bg as int, primary as int, y as int), intensity as int),
        ),
{
    let duotone: u32 = mix(bg, primary, y);
    let blended: u32 = mix(to_linear(c), duotone, intensity);
    from_linear(blended)
}

/// Recolours RGBA pixel data with the duotone of two colours. `intensity` is
/// in millionths and counts as one above a million. `keep_alpha` says that the
/// result is stored with its alpha channel.
pub fn recolor_pixels(
    pixels: &Vec<u8>,
    bg: Rgb,
    primary: Rgb,
    intensity: u32,
    keep_alpha: bool,
) -> (out: Vec<u8>)
    requires
        pixels@.len() % 4 == 0,
    ensures
        is_recolored(out@, pixels@, bg, primary, intensity, keep_alpha),
{
    let k: u32 = if intensity > UNIT { UNIT } else { intensity };
    let bg_r: u32 = to_linear(bg.r);
    let bg_g: u32 = to_linear(bg.g);
    let bg_b: u32 = to_linear(bg.b);
    let pr_r: u32 = to_linear(primary.r);
    let pr_g: u32 = to_linear(primary.g);
    let pr_b: u32 = to_linear(primary.b);
    let n: usize = pixels.len() / 4;
    let mut out: Vec<u8> = Vec::new();
    let mut i: usize = 0;
    while i < n
        invariant
            i <= n,
            4 * n == pixels@.len() <= usize::MAX,
            out@.len() == 4 * i,
            k == intensity_of(intensity),
            bg_r == srgb_to_linear(bg.r) && bg_r <= UNIT,
            bg_g == srgb_to_linear(bg.g) && bg_g <= UNIT,
            bg_b == srgb_to_linear(bg.b) && bg_b <= UNIT,
            pr_r == srgb_to_linear(primary.r) && pr_r <= UNIT,
            pr_g == srgb_to_linear(primary.g) && pr_g <= UNIT,
            pr_b == srgb_to_linear(primary.b) && pr_b <= UNIT,
            forall|j: int|
                0 <= j < i ==> pixel_at(out@, j) == recolored_pixel(
                    #[trigger] pixel_at(pixels@, j),
                    bg,
                    primary,
                    intensity,
                    keep_alpha,
                ),
        decreases n - i,
    {
        let r: u8 = pixels[4 * i];
        let g: u8 = pixels[4 * i + 1];
        let b: u8 = pixels[4 * i + 2];
        let a: u8 = pixels[4 * i + 3];
        let ghost before = out@;
        if a == 0 && keep_alpha {
            out.push(0);
            out.push(0);
            out.push(0);
            out.push(0);
        } else {
            let lr: u32 = to_linear(r);
            let lg: u32 = to_linear(g);
            let lb: u32 = to_linear(b);
            let y: u32 = ((2126 * (lr as u64) + 7152 * (lg as u64) + 722 * (lb as u64) + 5000)
                / 10000) as u32;
            out.push(recolor_channel(r, bg_r, pr_r, y, k));
            out.push(recolor_channel(g, bg_g, pr_g, y, k));
            out.push(recolor_channel(b, bg_b, pr_b, y, k));
            out.push(a);
        }
        proof {
            assert forall|j: int| 0 <= j < i implies pixel_at(out@, j) == pixel_at(before, j) by {
                assert(out@[4 * j] == before[4 * j]);
                assert(out@[4 * j + 1] == before[4 * j + 1]);
                assert(out@[4 * j + 2] == before[4 * j + 2]);
                assert(out@[4 * j + 3] == before[4 * j + 3]);
            }
        }
        i += 1;
    }
    out
}

/// At intensity zero a pixel keeps its colour and its alpha, unless it is
/// fully transparent and alpha is kept.
pub proof fn lemma_zero_intensity_keeps_pixel(
    p: (u8, u8, u8, u8),
    bg: Rgb,
    primary: Rgb,
    keep_alpha: bool,
)
    requires
        p.3 != 0 || !keep_alpha,
    ensures
        recolored_pixel(p, bg, primary, 0, keep_alpha) == p,
{
    let y = pixel_luminance(p.0, p.1, p.2);
    lemma_zero_intensity_keeps_channel(p.0, bg.r, primary.r, y);
    lemma_zero_intensity_keeps_channel(p.1, bg.g, primary.g, y);
    lemma_zero_intensity_keeps_channel(p.2, bg.b, primary.b, y);
}

proof fn lemma_zero_intensity_keeps_channel(c: u8, bg: u8, primary: u8, y: int)
    ensures
        recolored_channel(c, bg, primary, y, 0) == c,
{
    lemma_srgb_to_linear(c);
    lemma_round_trip(c);
    let duotone = lerp(srgb_to_linear(bg), srgb_to_linear(primary), y);
    let a = srgb_to_linear(c);
    assert(a * (UNIT - 0) + duotone * 0 + 500_000 == a * 1_000_000 + 500_000) by (nonlinear_arith);
}

proof fn lemma_luminance_bounds(r: int, g: int, b: int)
    requires
        0 <= r <= UNIT,
        0 <= g <= UNIT,
        0 <= b <= UNIT,
    ensures
        0 <= luminance(r, g, b) <= UNIT,
        r == g && g == b ==> luminance(r, g, b) == r,
{
}

/// With black as bg and white as primary, at full intensity, every channel of
/// a pixel becomes the encoding of the pixel's luminance, so a grey pixel
/// stays as it is.
pub proof fn lemma_black_to_white_is_luminance(p: (u8, u8, u8, u8), keep_alpha: bool)
    requires
        p.3 != 0 || !keep_alpha,
    ensures
        ({
            let black = Rgb { r: 0, g: 0, b: 0 };
            let white = Rgb { r: 255, g: 255, b: 255 };
            let q = recolored_pixel(p, black, white, UNIT, keep_alpha);
            let y = linear_to_srgb(pixel_luminance(p.0, p.1, p.2));
            &&& q == (y as u8, y as u8, y as u8, p.3)
            &&& p.0 == p.1 && p.1 == p.2 ==> q == p
        }),
{
    lemma_linear_ends();
    lemma_srgb_to_linear(p.0);
    lemma_srgb_to_linear(p.1);
    lemma_srgb_to_linear(p.2);
    let y = pixel_luminance(p.0, p.1, p.2);
    lemma_luminance_bounds(srgb_to_linear(p.0), srgb_to_linear(p.1), srgb_to_linear(p.2));
    lemma_lerp_bounds(0, UNIT as int, y);
    assert(0 * (UNIT - y) + UNIT * y + 500_000 == y * 1_000_000 + 500_000) by (nonlinear_arith);
    assert(lerp(0, UNIT as int, y) == y);
    lemma_lerp_bounds(srgb_to_linear(p.0), y, UNIT as int);
    lemma_lerp_bounds(srgb_to_linear(p.1), y, UNIT as int);
    lemma_lerp_bounds(srgb_to_linear(p.2), y, UNIT as int);
    if p.0 == p.1 && p.1 == p.2 {
        lemma_round_trip(p.0);
    }
}

/// Where alpha is kept, a fully transparent pixel comes out as transparent
/// black; in every case a pixel keeps its alpha.
pub proof fn lemma_alpha_passes_through(
    p: (u8, u8, u8, u8),
    bg: Rgb,
    primary: Rgb,
    intensity: u32,
    keep_alpha: bool,
)
    ensures
        recolored_pixel(p, bg, primary, intensity, keep_alpha).3 == p.3,
        p.3 == 0 && keep_alpha ==> recolored_pixel(p, bg, primary, intensity, keep_alpha) == (
            0u8,
            0u8,
            0u8,
            0u8,
        ),
{
}

/// At intensity zero the recoloured data is the data itself, where no pixel is
/// fully transparent or alpha is not kept.
pub proof fn lemma_zero_intensity_keeps_image(
    out: Seq<u8>,
    pixels: Seq<u8>,
    bg: Rgb,
    primary: Rgb,
    keep_alpha: bool,
)
    requires
        pixels.len() % 4 == 0,
        is_recolored(out, pixels, bg, primary, 0, keep_alpha),
        keep_alpha ==> forall|i: int| 0 <= i < pixels.len() / 4 ==> (#[trigger] pixel_at(pixels, i)).3
            != 0,
    ensures
        out == pixels,
{
    assert forall|j: int| 0 <= j < pixels.len() implies out[j] == pixels[j] by {
        let i = j / 4;
        let p = pixel_at(pixels, i);
        lemma_zero_intensity_keeps_pixel(p, bg, primary, keep_alpha);
        assert(pixel_at(out, i) == p);
        assert(j == 4 * i || j == 4 * i + 1 || j == 4 * i + 2 || j == 4 * i + 3);
    }
    assert(out =~= pixels);
}

/// The colour at a place in RGB data.
pub open spec fn rgb_at(data: Seq<u8>, i: int) -> (u8, u8, u8) {
    (data[3 * i], data[3 * i + 1], data[3 * i + 2])
}

/// Whether RGB data is RGBA data without its alpha channel.
pub open spec fn is_flattened(out: Seq<u8>, pixels: Seq<u8>) -> bool {
    &&& out.len() == pixels.len() / 4 * 3
    &&& forall|i: int|
        0 <= i < pixels.len() / 4 ==> {
            let p = #[trigger] pixel_at(pixels, i);
            rgb_at(out, i) == (p.0, p.1, p.2)
        }
}

/// The RGB data of RGBA data: each pixel without its alpha.
pub fn drop_alpha(pixels: &Vec<u8>) -> (out: Vec<u8>)
    requires
        pixels@.len() % 4 == 0,
    ensures
        is_flattened(out@, pixels@),
{
    let n: usize = pixels.len() / 4;
    let mut out: Vec<u8> = Vec::new();
    let mut i: usize = 0;
    while i < n
        invariant
            i <= n,
            4 * n == pixels@.len() <= usize::MAX,
            out@.len() == 3 * i,
            forall|j: int|
                0 <= j < i ==> {
                    let p = #[trigger] pixel_at(pixels@, j);
                    rgb_at(out@, j) == (p.0, p.1, p.2)
                },
        decreases n - i,
    {
        let ghost before = out@;
        out.push(pixels[4 * i]);
        out.push(pixels[4 * i + 1]);
        out.push(pixels[4 * i + 2]);
        proof {
            assert forall|j: int| 0 <= j < i implies rgb_at(out@, j) == rgb_at(before, j) by {
                assert(out@[3 * j] == before[3 * j]);
                assert(out@[3 * j + 1] == before[3 * j + 1]);
                assert(out@[3 * j + 2] == before[3 * j + 2]);
            }
        }
        i += 1;
    }
    out
}

/// The byte that two characters of a strict colour text write: two
/// hexadecimal digits, or a `+` and one hexadecimal digit.
pub open spec fn strict_pair(hi: char, lo: char) -> Option<u8> {
    match (hex_digit_value(hi), hex_digit_value(lo)) {
        (Some(h), Some(l)) => Some((16 * h + l) as u8),
        (None, Some(l)) => if hi == '+' { Some(l) } else { None },
        _ => None,
    }
}

/// The colour that a strict colour text denotes, if any. Behind one optional
/// `#` stand three hexadecimal digits, each standing for the byte of that
/// digit twice, or three pairs as `strict_pair` reads them.
pub open spec fn strict_color(s: Seq<char>) -> Option<Rgb> {
    let t = strip_pound(s);
    if !is_ascii_chars(s) {
        None
    } else if t.len() == 3 {
        match (hex_digit_value(t[0]), hex_digit_value(t[1]), hex_digit_value(t[2])) {
            (Some(r), Some(g), Some(b)) => Some(
                Rgb { r: (17 * r) as u8, g: (17 * g) as u8, b: (17 * b) as u8 },
            ),
            _ => None,
        }
    } else if t.len() == 6 {
        match (strict_pair(t[0], t[1]), strict_pair(t[2], t[3]), strict_pair(t[4], t[5])) {
            (Some(r), Some(g), Some(b)) => Some(Rgb { r, g, b }),
            _ => None,
        }
    } else {
        None
    }
}

/// The error with which `palette` refuses a colour text. Nothing is read of
/// it.
#[verifier::external_type_specification]
#[verifier::external_body]
pub struct ExFromHexError(palette::rgb::FromHexError);

/// Reads an ASCII colour text with `palette`'s `from_str` for `Srgb<u8>`.
///
/// It strips one leading `#`, goes by the number of bytes left, three or six,
/// and reads each digit or pair with `u8::from_str_radix` in base 16, which
/// takes hexadecimal digits of either case behind an optional `+`. It fails on
/// any other length and as soon as one part is not read. The text has to be
/// ASCII: on other text it may cut inside a character and panic.
#[verifier::external_body]
fn parse_strict(text: &str) -> (res: Result<Rgb, palette::rgb::FromHexError>)
    requires
        is_ascii_chars(text@),
    ensures
        res is Ok <==> strict_color(text@) is Some,
        res is Ok ==> Some(res->Ok_0) == strict_color(text@),
{
    <palette::Srgb<u8> as std::str::FromStr>::from_str(text).map(
        |c| Rgb { r: c.red, g: c.green, b: c.blue },
    )
}

/// Reads a strict colour text: `#rgb` or `#rrggbb`, with or without the `#`.
pub fn parse_color(text: &str) -> (res: Option<Rgb>)
    ensures
        res == strict_color(text@),
{
    if !text.is_ascii() {
        return None;
    }
    match parse_strict(text) {
        Ok(c) => Some(c),
        Err(_) => None,
    }
}

/// The two colours of the duotone that a theme asks for, bg first and primary
/// second. The roles are looked for before either text is read.
pub open spec fn duotone_of(theme: Map<Seq<char>, Seq<char>>) -> Result<(Rgb, Rgb), ImageError> {
    if !theme.contains_key("bg"@) {
        Err(ImageError::ThemeMissingRole(Role::Bg))
    } else if !theme.contains_key("primary"@) {
        Err(ImageError::ThemeMissingRole(Role::Primary))
    } else {
        match (strict_color(theme["bg"@]), strict_color(theme["primary"@])) {
            (None, _) => Err(ImageError::InvalidColorValue(Role::Bg)),
            (Some(_), None) => Err(ImageError::InvalidColorValue(Role::Primary)),
            (Some(bg), Some(primary)) => Ok((bg, primary)),
        }
    }
}

/// The two colours of the duotone that a theme asks for, bg first and primary
/// second.
pub fn duotone_colors(theme: &Theme) -> (res: Result<(Rgb, Rgb), ImageError>)
    ensures
        res == duotone_of(theme@),
{
    let bg_text = match theme.get("bg") {
        Some(t) => t,
        None => {
            return Err(ImageError::ThemeMissingRole(Role::Bg));
        },
    };
    let primary_text = match theme.get("primary") {
        Some(t) => t,
        None => {
            return Err(ImageError::ThemeMissingRole(Role::Primary));
        },
    };
    let bg = match parse_color(bg_text.as_str()) {
        Some(c) => c,
        None => {
            return Err(ImageError::InvalidColorValue(Role::Bg));
        },
    };
    let primary = match parse_color(primary_text.as_str()) {
        Some(c) => c,
        None => {
            return Err(ImageError::InvalidColorValue(Role::Primary));
        },
    };
    Ok((bg, primary))
}

/// Whether RGB data is the recolouring of RGBA data, pixel by pixel, without
/// the alpha channel. No pixel is left out as transparent.
pub open spec fn is_recolored_rgb(
    out: Seq<u8>,
    pixels: Seq<u8>,
    bg: Rgb,
    primary: Rgb,
    intensity: u32,
) -> bool {
    &&& out.len() == pixels.len() / 4 * 3
    &&& forall|i: int|
        0 <= i < pixels.len() / 4 ==> {
            let q = recolored_pixel(#[trigger] pixel_at(pixels, i), bg, primary, intensity, false);
            rgb_at(out, i) == (q.0, q.1, q.2)
        }
}

/// A decoded image file: the size of the file in bytes, the size of the image
/// in pixels, and its RGBA data, four bytes for each pixel, row by row.
pub struct Raster {
    pub file_size: u64,
    pub width: u32,
    pub height: u32,
    pub pixels: Vec<u8>,
}

impl Raster {
    /// Whether the data has four bytes for each pixel.
    pub open spec fn wf(&self) -> bool {
        self.pixels@.len() == 4 * (self.width * self.height)
    }
}

/// A recoloured image: its size in pixels and its data, RGBA where it has
/// alpha and RGB where it has not.
pub struct Recolored {
    pub width: u32,
    pub height: u32,
    pub has_alpha: bool,
    pub data: Vec<u8>,
}

/// Why an image is not worked on, if it is not. The ceilings come first, the
/// file's before the image's, and then the shape of the data.
pub open spec fn image_refusal(image: &Raster) -> Option<ImageError> {
    if file_too_large(image.file_size) {
        Some(ImageError::ResourceLimitExceeded(Ceiling::FileSize))
    } else if dimensions_too_large(image.width, image.height) {
        Some(ImageError::ResourceLimitExceeded(Ceiling::Dimension))
    } else if !image.wf() {
        Some(ImageError::ImageDecodeError)
    } else {
        None
    }
}

/// An image that is over a ceiling is refused for that, whatever its pixel
/// data holds: the file's size and the image's width and height decide.
pub proof fn lemma_ceilings_need_no_pixels(a: &Raster, b: &Raster)
    requires
        a.file_size == b.file_size,
        a.width == b.width,
        a.height == b.height,
        file_too_large(a.file_size) || dimensions_too_large(a.width, a.height),
    ensures
        image_refusal(a) == image_refusal(b),
        image_refusal(a) matches Some(ImageError::ResourceLimitExceeded(_)),
{
}

/// Refuses an image that is over a ceiling or whose data has not four bytes
/// for each pixel.
pub fn check_image(image: &Raster) -> (res: Result<(), ImageError>)
    ensures
        match res {
            Ok(_) => image_refusal(image) is None,
            Err(e) => image_refusal(image) == Some(e),
        },
        res is Ok ==> image.pixels@.len() <= 4 * 4096 * 4096 && image.pixels@.len() % 4 == 0,
{
    if let Err(e) = check_file_size(image.file_size) {
        return Err(e);
    }
    if let Err(e) = check_dimensions(image.width, image.height) {
        return Err(e);
    }
    assert(image.width * image.height <= 4096 * 4096) by (nonlinear_arith)
        requires
            image.width <= 4096,
            image.height <= 4096,
    ;
    let area: u64 = (image.width as u64) * (image.height as u64);
    let expected: u64 = 4 * area;
    if image.pixels.len() as u64 != expected {
        return Err(ImageError::ImageDecodeError);
    }
    Ok(())
}

/// Why an image is not recoloured, if it is not: the image is refused, or the
/// theme gives no duotone.
pub open spec fn recolor_refusal(image: &Raster, theme: Map<Seq<char>, Seq<char>>) -> Option<
    ImageError,
> {
    match image_refusal(image) {
        Some(e) => Some(e),
        None => match duotone_of(theme) {
            Err(e) => Some(e),
            Ok(_) => None,
        },
    }
}

/// Recolours a decoded image with the duotone of a theme's bg and primary
/// colours. `intensity` is in millionths, and `flatten` says that the result
/// is stored in a format without alpha, such as JPEG: then every pixel is
/// recoloured and the alpha channel is dropped.
pub fn recolor_image(
    image: &Raster,
    theme: &Theme,
    intensity: u32,
    flatten: bool,
) -> (res: Result<Recolored, ImageError>)
    ensures
        match res {
            Err(e) => recolor_refusal(image, theme@) == Some(e),
            Ok(out) => {
                &&& recolor_refusal(image, theme@) is None
                &&& out.width == image.width
                &&& out.height == image.height
                &&& out.has_alpha == !flatten
                &&& if flatten {
                    is_recolored_rgb(
                        out.data@,
                        image.pixels@,
                        duotone_of(theme@)->Ok_0.0,
                        duotone_of(theme@)->Ok_0.1,
                        intensity,
                    )
                } else {
                    is_recolored(
                        out.data@,
                        image.pixels@,
                        duotone_of(theme@)->Ok_0.0,
                        duotone_of(theme@)->Ok_0.1,
                        intensity,
                        true,
                    )
                }
            },
        },
{
    if let Err(e) = check_image(image) {
        return Err(e);
    }
    let (bg, primary) = match duotone_colors(theme) {
        Ok(colors) => colors,
        Err(e) => {
            return Err(e);
        },
    };
    let rgba = recolor_pixels(&image.pixels, bg, primary, intensity, !flatten);
    let data = if flatten {
        let rgb = drop_alpha(&rgba);
        proof {
            assert forall|i: int| 0 <= i < image.pixels@.len() / 4 implies {
                let q = recolored_pixel(
                    #[trigger] pixel_at(image.pixels@, i),
                    bg,
                    primary,
                    intensity,
                    false,
                );
                rgb_at(rgb@, i) == (q.0, q.1, q.2)
            } by {
                let p = pixel_at(rgba@, i);
            }
        }
        rgb
    } else {
        rgba
    };
    Ok(Recolored { width: image.width, height: image.height, has_alpha: !flatten, data })
}

/// Whether a file name extension is that of a JPEG file, in any case of the
/// letters.
pub open spec fn is_jpeg(extension: Seq<char>) -> bool {
    ascii_lowercase(extension) == "jpg"@ || ascii_lowercase(extension) == "jpeg"@
}

fn same_letter(c: char, lower: char, upper: char) -> (b: bool)
    requires
        'a' <= lower <= 'z',
        upper as int + 32 == lower as int,
    ensures
        b == (crate::colors::ascii_lower(c) == lower),
{
    c == lower || c == upper
}

/// Whether a file name extension is that of a JPEG file, which has no alpha.
pub fn is_jpeg_extension(extension: &str) -> (b: bool)
    ensures
        b == is_jpeg(extension@),
{
    proof {
        reveal_strlit("jpg");
        reveal_strlit("jpeg");
    }
    let n: usize = extension.unicode_len();
    let ghost low = ascii_lowercase(extension@);
    if n == 3 {
        let b = same_letter(extension.get_char(0), 'j', 'J') && same_letter(
            extension.get_char(1),
            'p',
            'P',
        ) && same_letter(extension.get_char(2), 'g', 'G');
        proof {
            assert(low.len() == 3 && "jpg"@.len() == 3 && "jpeg"@.len() == 4);
            if b {
                assert(low =~= "jpg"@);
            } else {
                assert(low[0] != "jpg"@[0] || low[1] != "jpg"@[1] || low[2] != "jpg"@[2]);
            }
        }
        b
    } else if n == 4 {
        let b = same_letter(extension.get_char(0), 'j', 'J') && same_letter(
            extension.get_char(1),
            'p',
            'P',
        ) && same_letter(extension.get_char(2), 'e', 'E') && same_letter(
            extension.get_char(3),
            'g',
            'G',
        );
        proof {
            assert(low.len() == 4 && "jpg"@.len() == 3 && "jpeg"@.len() == 4);
            if b {
                assert(low =~= "jpeg"@);
            } else {
                assert(low[0] != "jpeg"@[0] || low[1] != "jpeg"@[1] || low[2] != "jpeg"@[2]
                    || low[3] != "jpeg"@[3]);
            }
        }
        b
    } else {
        proof {
            assert(low.len() == n && "jpg"@.len() == 3 && "jpeg"@.len() == 4);
        }
        false
    }
}

/// The name of the file that a recoloured image is stored in by default: the
/// stem of the source's name, `_`, the theme's name, `.` and the source's
/// extension, which is `png` where the source has none.
pub open spec fn default_output_name_of(
    stem: Seq<char>,
    theme_name: Seq<char>,
    extension: Option<Seq<char>>,
) -> Seq<char> {
    stem + "_"@ + theme_name + "."@ + match extension {
        Some(e) => e,
        None => "png"@,
    }
}

/// The name of the file that a recoloured image is stored in where the caller
/// names none; it goes beside the source.
pub fn default_output_name(stem: &str, theme_name: &str, extension: Option<&str>) -> (name: String)
    ensures
        name@ == default_output_name_of(
            stem@,
            theme_name@,
            match extension {
                Some(e) => Some(e@),
                None => None,
            },
        ),
{
    let mut name = String::from_str(stem);
    name.append("_");
    name.append(theme_name);
    name.append(".");
    match extension {
        Some(e) => name.append(e),
        None => name.append("png"),
    }
    name
}

/// The grey of a colour: its channels weighted with 0.2126, 0.7152 and 0.0722,
/// the fraction cut off.
pub open spec fn luma(r: u8, g: u8, b: u8) -> u8 {
    ((2126 * r + 7152 * g + 722 * b) / 10000) as u8
}

/// The grey and the alpha at a place in data of two bytes for each pixel.
pub open spec fn grey_at(data: Seq<u8>, i: int) -> (u8, u8) {
    (data[2 * i], data[2 * i + 1])
}

/// Whether data of two bytes for each pixel is the grey version of RGBA data:
/// each pixel's grey and its alpha.
pub open spec fn is_contour(out: Seq<u8>, pixels: Seq<u8>) -> bool {
    &&& out.len() == pixels.len() / 4 * 2
    &&& forall|i: int|
        0 <= i < pixels.len() / 4 ==> {
            let p = #[trigger] pixel_at(pixels, i);
            grey_at(out, i) == (luma(p.0, p.1, p.2), p.3)
        }
}

/// Calls `image::imageops::grayscale_alpha` on RGBA data of 8 bits a channel.
///
/// For each pixel, in the order of the data, it gives the grey of the colour,
/// which is the whole part of `(2126 r + 7152 g + 722 b) / 10000`, and the
/// alpha as it came. The data has to have four bytes for each pixel of the
/// given width and height, or no image is made of it.
#[verifier::external_body]
fn grayscale_alpha(width: u32, height: u32, pixels: &Vec<u8>) -> (out: Vec<u8>)
    requires
        pixels@.len() == 4 * (width * height),
    ensures
        is_contour(out@, pixels@),
{
    let view = image::ImageBuffer::<image::Rgba<u8>, &[u8]>::from_raw(width, height, pixels);
    image::imageops::grayscale_alpha(&view.unwrap()).into_raw()
}

/// The contour of a decoded image, which for now is its grey version: for
/// each pixel its grey and its alpha, two bytes a pixel. Only images of four
/// 8-bit channels are dealt with; an image file of another layout is decoded
/// to that layout first.
pub fn generate_contours(image: &Raster) -> (out: Vec<u8>)
    requires
        image.wf(),
    ensures
        is_contour(out@, image.pixels@),
{
    grayscale_alpha(image.width, image.height, &image.pixels)
}

/// The name of the file that the contour of an image is stored in: the stem of
/// the source's name and `_contour.png`.
pub fn contour_output_name(stem: &str) -> (name: String)
    ensures
        name@ == stem@ + "_contour.png"@,
{
    let mut name = String::from_str(stem);
    name.append("_contour.png");
    name
}

/// Contours from noise do not exist yet: always `NotImplemented`.
pub fn generate_noise_contours(_root_path: &str) -> (res: Result<String, ImageError>)
    ensures
        res == Err::<String, ImageError>(ImageError::NotImplemented),
{
    Err(ImageError::NotImplemented)
}

} // verus!
