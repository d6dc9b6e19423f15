//! Dominant colours of an image, and the choice of an accent among them.

use crate::colors::Rgb;
use crate::generator::PerceptualScheme;
use crate::hsl::{hsl_of, rgb_to_hsl};
use crate::images::{check_image, image_refusal, ImageError, Raster};
use vstd::prelude::*;

verus! {

/// The step, in pixels, at which the pixel data is sampled.
pub const SAMPLING_QUALITY: u8 = 10;

/// The most bytes of RGBA data that colours are extracted from: those of an
/// image of 4096 by 4096 pixels.
pub const MAX_PIXEL_BYTES: u32 = 67_108_864;

/// The number of dominant colours among which an accent is chosen.
pub const ACCENT_CANDIDATES: u8 = 12;

/// The accent that is suggested where an image gives none.
pub const DEFAULT_ACCENT: u32 = 0x4a3f6b;

/// The error with which `color_thief` gives up on pixel data. Nothing is read
/// of it.
#[verifier::external_type_specification]
#[verifier::external_body]
pub struct ExQuantizeError(color_thief::Error);

/// The palette that `color_thief::get_palette` finds in RGBA data sampled at
/// a step of `quality` pixels, with at most `max_colors` colours, and `None`
/// where it fails. The colours come with the most dominant first.
pub uninterp spec fn median_cut_palette(pixels: Seq<u8>, quality: u8, max_colors: u8) -> Option<
    Seq<(u8, u8, u8)>,
>;

/// The red, green and blue of each colour.
pub open spec fn triples(colors: Seq<Rgb>) -> Seq<(u8, u8, u8)> {
    Seq::new(colors.len(), |i: int| (colors[i].r, colors[i].g, colors[i].b))
}

/// Calls `color_thief::get_palette` on RGBA data.
///
/// The result is a function of the data and the two numbers alone, named
/// `median_cut_palette`; it has at most `max_colors` colours. The function
/// panics unless `quality` is between 1 and 10 and `max_colors` is at least 2,
/// and it counts samples in 32-bit numbers, which the limit on the data keeps
/// from overflowing.
#[verifier::external_body]
fn get_palette(pixels: &Vec<u8>, quality: u8, max_colors: u8) -> (res: Result<
    Vec<Rgb>,
    color_thief::Error,
>)
    requires
        1 <= quality <= 10,
        max_colors >= 2,
        pixels@.len() <= MAX_PIXEL_BYTES,
    ensures
        match res {
            Ok(colors) => median_cut_palette(pixels@, quality, max_colors) == Some(triples(colors@))
                && colors@.len() <= max_colors,
            Err(_) => median_cut_palette(pixels@, quality, max_colors) is None,
        },
{
    color_thief::get_palette(pixels, color_thief::ColorFormat::Rgba, quality, max_colors).map(
        |found| found.iter().map(|c| Rgb { r: c.r, g: c.g, b: c.b }).collect(),
    )
}

/// The number of colours that the palette is asked for: the count, and two
/// where the count is less.
pub open spec fn asked_colors(count: u8) -> u8 {
    if count < 2 { 2 } else { count }
}

/// The dominant colours of RGBA data, at most `count` of them and the most
/// dominant first, where a palette is found in the data: the first colours of
/// that palette.
pub open spec fn dominant_colors(pixels: Seq<u8>, count: u8) -> Option<Seq<Rgb>> {
    match median_cut_palette(pixels, SAMPLING_QUALITY, asked_colors(count)) {
        Some(found) => Some(
            Seq::new(
                if found.len() > count { count as nat } else { found.len() },
                |i: int| Rgb { r: found[i].0, g: found[i].1, b: found[i].2 },
            ),
        ),
        None => None,
    }
}

/// Why no dominant colours come out of an image, if none do: the image is
/// refused, or no palette is found in its data.
pub open spec fn extraction_refusal(image: &Raster, count: u8) -> Option<ImageError> {
    match image_refusal(image) {
        Some(e) => Some(e),
        None => if median_cut_palette(image.pixels@, SAMPLING_QUALITY, asked_colors(count))
            is None {
            Some(ImageError::QuantizationFailed)
        } else {
            None
        },
    }
}

/// The dominant colours of a decoded image, at most `count` of them, the most
/// dominant first.
pub fn extract_from_image(image: &Raster, count: u8) -> (res: Result<Vec<Rgb>, ImageError>)
    ensures
        match res {
            Ok(colors) => extraction_refusal(image, count) is None && dominant_colors(
                image.pixels@,
                count,
            ) == Some(colors@),
            Err(e) => extraction_refusal(image, count) == Some(e),
        },
{
    if let Err(e) = check_image(image) {
        return Err(e);
    }
    let asked: u8 = if count < 2 { 2 } else { count };
    match get_palette(&image.pixels, SAMPLING_QUALITY, asked) {
        Ok(mut colors) => {
            let ghost found = colors@;
            if colors.len() > count as usize {
                colors.truncate(count as usize);
            }
            proof {
                let palette = median_cut_palette(image.pixels@, SAMPLING_QUALITY, asked)->Some_0;
                assert(palette == triples(found));
                assert forall|i: int| 0 <= i < colors@.len() implies colors@[i] == (Rgb {
                    r: palette[i].0,
                    g: palette[i].1,
                    b: palette[i].2,
                }) by {
                    assert(colors@[i] == found[i]);
                }
                assert(dominant_colors(image.pixels@, count)->Some_0 =~= colors@);
            }
            Ok(colors)
        },
        Err(_) => Err(ImageError::QuantizationFailed),
    }
}

/// Whether a colour can be an accent: its lightness is between 0.08 and 0.92
/// and its saturation is at least 0.05.
pub open spec fn qualifies(c: Rgb) -> bool {
    let hsl = hsl_of(c);
    &&& 100 * hsl.lightness.num >= 8 * hsl.lightness.den
    &&& 100 * hsl.lightness.num <= 92 * hsl.lightness.den
    &&& 100 * hsl.saturation.num >= 5 * hsl.saturation.den
}

/// The numerator of a colour's score over `score_den`. The score is `0.6 s +
/// 0.3 (1 - 2 |l - 0.4|)` for saturation `s` and lightness `l`.
pub open spec fn score_num(c: Rgb) -> int {
    let hsl = hsl_of(c);
    let sn = hsl.saturation.num as int;
    let sd = hsl.saturation.den as int;
    let ln = hsl.lightness.num as int;
    let ld = hsl.lightness.den as int;
    let off = if 5 * ln >= 2 * ld { 5 * ln - 2 * ld } else { 2 * ld - 5 * ln };
    30 * (sn * ld) + 15 * (sd * ld) - 6 * (sd * off)
}

/// The denominator of a colour's score, which is positive.
pub open spec fn score_den(c: Rgb) -> int {
    let hsl = hsl_of(c);
    50 * (hsl.saturation.den * hsl.lightness.den)
}

/// Whether the score of `a` is higher than that of `b`.
pub open spec fn scores_higher(a: Rgb, b: Rgb) -> bool {
    score_num(a) * score_den(b) > score_num(b) * score_den(a)
}

/// Whether the colour at `i` is the accent among the colours: it qualifies, no
/// colour that qualifies scores higher, and it scores higher than every
/// colour before it that qualifies.
pub open spec fn is_accent(colors: Seq<Rgb>, i: int) -> bool {
    &&& 0 <= i < colors.len()
    &&& qualifies(colors[i])
    &&& forall|j: int|
        0 <= j < colors.len() && qualifies(#[trigger] colors[j]) ==> !scores_higher(
            colors[j],
            colors[i],
        )
    &&& forall|j: int|
        0 <= j < i && qualifies(#[trigger] colors[j]) ==> scores_higher(colors[i], colors[j])
}

/// Whether no colour qualifies as an accent.
pub open spec fn none_qualifies(colors: Seq<Rgb>) -> bool {
    forall|j: int| 0 <= j < colors.len() ==> !qualifies(#[trigger] colors[j])
}

/// The accent among colours of which there is at least one: the colour that
/// qualifies and scores highest, the first of them where several do, and the
/// first colour of all where none qualifies.
pub open spec fn accent_among(colors: Seq<Rgb>) -> Rgb {
    if exists|i: int| is_accent(colors, i) {
        colors[choose|i: int| is_accent(colors, i)]
    } else {
        colors[0]
    }
}

/// At most one colour is the accent.
pub proof fn lemma_accent_unique(colors: Seq<Rgb>, i: int, j: int)
    requires
        is_accent(colors, i),
        is_accent(colors, j),
    ensures
        i == j,
{
    if i < j {
        assert(scores_higher(colors[j], colors[i]));
    } else if j < i {
        assert(scores_higher(colors[i], colors[j]));
    }
}

/// Where no colour qualifies, the accent is the first colour.
pub proof fn lemma_accent_without_candidates(colors: Seq<Rgb>)
    requires
        colors.len() > 0,
        none_qualifies(colors),
    ensures
        accent_among(colors) == colors[0],
{
}

struct Score {
    num: i64,
    den: i64,
    qualifies: bool,
}

fn score_of(c: Rgb) -> (s: Score)
    ensures
        s.num == score_num(c),
        s.den == score_den(c),
        s.qualifies == qualifies(c),
        0 < s.den <= 6_502_500,
        -10_000_000 <= s.num <= 10_000_000,
{
    let hsl = rgb_to_hsl(c);
    let sn: i64 = hsl.saturation.num as i64;
    let sd: i64 = hsl.saturation.den as i64;
    let ln: i64 = hsl.lightness.num as i64;
    let ld: i64 = hsl.lightness.den as i64;
    assert(0 <= sn * ld <= 255 * 510 && 0 < sd * ld <= 255 * 510) by (nonlinear_arith)
        requires
            0 <= sn <= sd,
            0 < sd <= 255,
            ld == 510,
    ;
    let off: i64 = if 5 * ln >= 2 * ld { 5 * ln - 2 * ld } else { 2 * ld - 5 * ln };
    assert(0 <= sd * off <= 255 * 1530) by (nonlinear_arith)
        requires
            0 < sd <= 255,
            0 <= off <= 1530,
    ;
    Score {
        num: 30 * (sn * ld) + 15 * (sd * ld) - 6 * (sd * off),
        den: 50 * (sd * ld),
        qualifies: 100 * ln >= 8 * ld && 100 * ln <= 92 * ld && 100 * sn >= 5 * sd,
    }
}

fn higher(a: &Score, b: &Score) -> (r: bool)
    requires
        0 < a.den <= 6_502_500,
        0 < b.den <= 6_502_500,
        -10_000_000 <= a.num <= 10_000_000,
        -10_000_000 <= b.num <= 10_000_000,
    ensures
        r == (a.num * b.den > b.num * a.den),
{
    assert(-65_025_000_000_000 <= a.num * b.den <= 65_025_000_000_000) by (nonlinear_arith)
        requires
            0 < b.den <= 6_502_500,
            -10_000_000 <= a.num <= 10_000_000,
    ;
    assert(-65_025_000_000_000 <= b.num * a.den <= 65_025_000_000_000) by (nonlinear_arith)
        requires
            0 < a.den <= 6_502_500,
            -10_000_000 <= b.num <= 10_000_000,
    ;
    a.num * b.den > b.num * a.den
}

/// The place of the accent among the colours, if any colour qualifies.
pub fn accent_index(colors: &Vec<Rgb>) -> (res: Option<usize>)
    ensures
        match res {
            Some(i) => is_accent(colors@, i as int),
            None => none_qualifies(colors@),
        },
{
    let mut best: Option<usize> = None;
    let mut best_score = Score { num: 0, den: 1, qualifies: false };
    let mut k: usize = 0;
    while k < colors.len()
        invariant
            k <= colors@.len(),
            match best {
                Some(i) => is_accent(colors@.subrange(0, k as int), i as int) && best_score.num
                    == score_num(colors@[i as int]) && best_score.den == score_den(
                    colors@[i as int],
                ),
                None => none_qualifies(colors@.subrange(0, k as int)),
            },
            0 < best_score.den <= 6_502_500,
            -10_000_000 <= best_score.num <= 10_000_000,
        decreases colors@.len() - k,
    {
        let ghost seen = colors@.subrange(0, k as int);
        let ghost next = colors@.subrange(0, k as int + 1);
        let c = colors[k];
        let s = score_of(c);
        proof {
            assert forall|j: int| 0 <= j < k implies next[j] == seen[j] by {}
            assert(next[k as int] == c);
        }
        if s.qualifies {
            let replace = match best {
                Some(_) => higher(&s, &best_score),
                None => true,
            };
            if replace {
                proof {
                    if let Some(i) = best {
                        let b = colors@[i as int];
                        assert(seen[i as int] == b);
                        assert forall|j: int|
                            0 <= j < next.len() && qualifies(#[trigger] next[j]) implies !scores_higher(
                            next[j],
                            c,
                        ) by {
                            if j < k {
                                assert(seen[j] == next[j]);
                                assert(!scores_higher(seen[j], b));
                                lemma_scores_chain(next[j], b, c);
                            }
                        }
                        assert forall|j: int| 0 <= j < k && qualifies(#[trigger] next[j]) implies scores_higher(
                            c,
                            next[j],
                        ) by {
                            assert(seen[j] == next[j]);
                            assert(!scores_higher(seen[j], b));
                            lemma_scores_chain(next[j], b, c);
                        }
                    } else {
                        assert forall|j: int| 0 <= j < k implies !qualifies(#[trigger] next[j]) by {
                            assert(seen[j] == next[j]);
                        }
                    }
                    assert(is_accent(next, k as int));
                }
                best = Some(k);
                best_score = s;
            } else {
                proof {
                    let i = best->Some_0 as int;
                    assert(seen[i] == next[i]);
                    assert forall|j: int|
                        0 <= j < next.len() && qualifies(#[trigger] next[j]) implies !scores_higher(
                        next[j],
                        next[i],
                    ) by {
                        if j < k {
                            assert(seen[j] == next[j]);
                        }
                    }
                    assert forall|j: int| 0 <= j < i && qualifies(#[trigger] next[j]) implies scores_higher(
                        next[i],
                        next[j],
                    ) by {
                        assert(seen[j] == next[j]);
                    }
                    assert(is_accent(next, i));
                }
            }
        } else {
            proof {
                match best {
                    Some(i) => {
                        let i = i as int;
                        assert(seen[i] == next[i]);
                        assert forall|j: int|
                            0 <= j < next.len() && qualifies(#[trigger] next[j]) implies !scores_higher(
                            next[j],
                            next[i],
                        ) by {
                            if j < k {
                                assert(seen[j] == next[j]);
                            }
                        }
                        assert forall|j: int| 0 <= j < i && qualifies(#[trigger] next[j]) implies scores_higher(
                            next[i],
                            next[j],
                        ) by {
                            assert(seen[j] == next[j]);
                        }
                        assert(is_accent(next, i));
                    },
                    None => {
                        assert forall|j: int| 0 <= j < next.len() implies !qualifies(
                            #[trigger] next[j],
                        ) by {
                            if j < k {
                                assert(seen[j] == next[j]);
                            }
                        }
                    },
                }
            }
        }
        k += 1;
    }
    proof {
        assert(colors@.subrange(0, k as int) =~= colors@);
    }
    best
}

/// A colour that scores no higher than a second, which a third scores higher
/// than, scores lower than the third.
proof fn lemma_scores_chain(a: Rgb, b: Rgb, c: Rgb)
    requires
        !scores_higher(a, b),
        scores_higher(c, b),
    ensures
        scores_higher(c, a),
        !scores_higher(a, c),
{
    let (na, da) = (score_num(a), score_den(a));
    let (nb, db) = (score_num(b), score_den(b));
    let (nc, dc) = (score_num(c), score_den(c));
    lemma_score_den_positive(a);
    lemma_score_den_positive(b);
    lemma_score_den_positive(c);
    assert(nc * da > na * dc) by (nonlinear_arith)
        requires
            na * db <= nb * da,
            nc * db > nb * dc,
            da > 0,
            db > 0,
            dc > 0,
    ;
}

proof fn lemma_score_den_positive(c: Rgb)
    ensures
        score_den(c) > 0,
{
    let hsl = hsl_of(c);
    assert(hsl.saturation.den * hsl.lightness.den > 0) by (nonlinear_arith)
        requires
            hsl.saturation.den > 0,
            hsl.lightness.den > 0,
    ;
}

/// The accent that is suggested for an image.
///
/// Where the perceptual strategy gave a scheme, it is the scheme's first
/// foreground accent. Otherwise it is the accent among the dominant colours
/// of the pixel data, and the default accent where there is no pixel data,
/// where the extraction fails or where it finds no colour.
pub open spec fn suggested_accent(
    perceptual: Option<PerceptualScheme>,
    dominant: Option<Seq<Rgb>>,
) -> Rgb {
    match perceptual {
        Some(scheme) => scheme.fg_accents[0],
        None => match dominant {
            Some(colors) => if colors.len() == 0 {
                Rgb::of_u32(DEFAULT_ACCENT)
            } else {
                accent_among(colors)
            },
            None => Rgb::of_u32(DEFAULT_ACCENT),
        },
    }
}

/// Chooses the accent among the outcome of the perceptual strategy and the
/// dominant colours, where either was found.
pub fn choose_accent(perceptual: Option<PerceptualScheme>, dominant: Option<&Vec<Rgb>>) -> (c: Rgb)
    ensures
        c == suggested_accent(
            perceptual,
            match dominant {
                Some(colors) => Some(colors@),
                None => None,
            },
        ),
{
    if let Some(scheme) = perceptual {
        return scheme.fg_accents[0];
    }
    match dominant {
        Some(colors) => {
            if colors.len() == 0 {
                Rgb::from_u32(DEFAULT_ACCENT)
            } else {
                match accent_index(colors) {
                    Some(i) => {
                        proof {
                            let j = choose|j: int| is_accent(colors@, j);
                            lemma_accent_unique(colors@, i as int, j);
                        }
                        colors[i]
                    },
                    None => colors[0],
                }
            }
        },
        None => Rgb::from_u32(DEFAULT_ACCENT),
    }
}

/// The dominant colours among which the accent of an image is chosen, where
/// there is an image and colours are extracted from it.
pub open spec fn accent_candidates(image: Option<&Raster>) -> Option<Seq<Rgb>> {
    match image {
        Some(decoded) => if extraction_refusal(decoded, ACCENT_CANDIDATES) is None {
            dominant_colors(decoded.pixels@, ACCENT_CANDIDATES)
        } else {
            None
        },
        None => None,
    }
}

/// The accent that is suggested for an image, as `#rrggbb`. `perceptual` is
/// the outcome of the perceptual strategy on the image, and `image` the image
/// where it could be decoded. This never fails: the default accent stands in
/// where the image gives none.
pub fn suggest_accent(perceptual: Option<PerceptualScheme>, image: Option<&Raster>) -> (s: String)
    ensures
        s@ == suggested_accent(perceptual, accent_candidates(image)).hex(),
{
    if perceptual.is_some() {
        return choose_accent(perceptual, None).to_hex();
    }
    match image {
        Some(decoded) => match extract_from_image(decoded, ACCENT_CANDIDATES) {
            Ok(colors) => choose_accent(None, Some(&colors)).to_hex(),
            Err(_) => choose_accent(None, None).to_hex(),
        },
        None => choose_accent(None, None).to_hex(),
    }
}

} // verus!
