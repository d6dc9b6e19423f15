//! Hue, saturation and lightness in exact arithmetic.
//!
//! Each coordinate is a fraction of two whole numbers, so the conversions from
//! and to 8-bit sRGB are exact up to the one rounding that the conversion to
//! bytes asks for.

use crate::colors::{hex_to_rgb_tuple, parse_hex, rgb_to_hex, ColorError, Rgb};
use vstd::prelude::*;

verus! {

/// The fraction `num / den`.
#[derive(Clone, Copy, Debug, PartialEq, Eq, Structural)]
pub struct Ratio {
    pub num: u32,
    pub den: u32,
}

/// A colour by hue in degrees, saturation and lightness.
#[derive(Clone, Copy, Debug, PartialEq, Eq, Structural)]
pub struct Hsl {
    pub hue: Ratio,
    pub saturation: Ratio,
    pub lightness: Ratio,
}

impl Ratio {
    /// Whether the fraction lies between zero and one.
    pub open spec fn is_unit(self) -> bool {
        self.den > 0 && self.num <= self.den
    }

    /// Whether the fraction is an angle of at least 0 and less than 360
    /// degrees.
    pub open spec fn is_angle(self) -> bool {
        self.den > 0 && self.num < 360 * self.den
    }

    /// The fraction times `percent / 100`, not reduced.
    pub open spec fn percent(self, percent: int) -> Ratio {
        Ratio { num: (self.num * percent) as u32, den: (self.den * 100) as u32 }
    }

    /// The angle turned by a whole number of degrees, modulo 360.
    pub open spec fn turned(self, degrees: int) -> Ratio {
        let raw = self.num + degrees * self.den;
        Ratio { num: (if raw >= 360 * self.den { raw - 360 * self.den } else { raw }) as u32, ..self }
    }

    /// The fraction cut off at one.
    pub open spec fn at_most_one(self) -> Ratio {
        Ratio { num: clamped(self.num, 0, self.den), ..self }
    }
}

impl Hsl {
    /// Whether the hue is an angle below 360 degrees and saturation and
    /// lightness lie between zero and one.
    pub open spec fn wf(self) -> bool {
        &&& self.hue.is_angle()
        &&& self.saturation.is_unit()
        &&& self.lightness.is_unit()
    }
}

/// A value cut off below at `min` and then above at `max`.
pub open spec fn clamped(val: u32, min: u32, max: u32) -> u32 {
    let v = if val < min { min } else { val };
    if v > max { max } else { v }
}

/// Cuts a value off below at `min` and then above at `max`.
pub fn clamp(val: u32, min: u32, max: u32) -> (v: u32)
    ensures
        v == clamped(val, min, max),
        min <= max ==> min <= v <= max,
{
    let v: u32 = if val < min { min } else { val };
    if v > max { max } else { v }
}

/// The largest channel of a colour.
pub open spec fn max_channel(c: Rgb) -> int {
    if c.r >= c.g && c.r >= c.b { c.r as int } else if c.g >= c.b { c.g as int } else { c.b as int }
}

/// The smallest channel of a colour.
pub open spec fn min_channel(c: Rgb) -> int {
    if c.r <= c.g && c.r <= c.b { c.r as int } else if c.g <= c.b { c.g as int } else { c.b as int }
}

/// Hue, saturation and lightness of an sRGB colour.
///
/// With `max` and `min` the largest and smallest channel and `d` their
/// difference: lightness is `(max + min) / 510`; saturation is `d / (255 -
/// |max + min - 255|)`, and zero for a grey; the hue is 60 degrees times `(g -
/// b) / d` modulo 6 where red is largest, `(b - r) / d + 2` where green is, and
/// `(r - g) / d + 4` where blue is, and zero for a grey.
pub open spec fn hsl_of(c: Rgb) -> Hsl {
    let max = max_channel(c);
    let min = min_channel(c);
    let sum = max + min;
    let d = max - min;
    let lightness = Ratio { num: sum as u32, den: 510 };
    if d == 0 {
        Hsl { hue: Ratio { num: 0, den: 1 }, saturation: Ratio { num: 0, den: 1 }, lightness }
    } else {
        let sixths = if max == c.r {
            if c.g >= c.b { c.g - c.b } else { c.g - c.b + 6 * d }
        } else if max == c.g {
            c.b - c.r + 2 * d
        } else {
            c.r - c.g + 4 * d
        };
        Hsl {
            hue: Ratio { num: (60 * sixths) as u32, den: d as u32 },
            saturation: Ratio {
                num: d as u32,
                den: (if sum <= 255 { sum } else { 510 - sum }) as u32,
            },
            lightness,
        }
    }
}

/// Hue, saturation and lightness of an sRGB colour.
pub fn rgb_to_hsl(c: Rgb) -> (hsl: Hsl)
    ensures
        hsl == hsl_of(c),
        hsl.wf(),
        hsl.hue.den <= 255,
        hsl.saturation.den <= 255,
        hsl.lightness.den == 510,
{
    let r: u32 = c.r as u32;
    let g: u32 = c.g as u32;
    let b: u32 = c.b as u32;
    let max: u32 = if r >= g && r >= b { r } else if g >= b { g } else { b };
    let min: u32 = if r <= g && r <= b { r } else if g <= b { g } else { b };
    let sum: u32 = max + min;
    let d: u32 = max - min;
    let lightness = Ratio { num: sum, den: 510 };
    if d == 0 {
        Hsl { hue: Ratio { num: 0, den: 1 }, saturation: Ratio { num: 0, den: 1 }, lightness }
    } else {
        let sixths: u32 = if max == r {
            if g >= b { g - b } else { g + 6 * d - b }
        } else if max == g {
            b + 2 * d - r
        } else {
            r + 4 * d - g
        };
        Hsl {
            hue: Ratio { num: 60 * sixths, den: d },
            saturation: Ratio { num: d, den: if sum <= 255 { sum } else { 510 - sum } },
            lightness,
        }
    }
}

/// The numerator of one channel of the colour of a hue, saturation and
/// lightness, over `channel_den`.
///
/// With `a = s * min(l, 1 - l)` and `k = (n + h / 30) mod 12`, the channel is
/// `l - a * max(-1, min(k - 3, 9 - k, 1))`; `n` is 0 for red, 8 for green and
/// 4 for blue.
pub open spec fn channel_num(hsl: Hsl, n: int) -> int {
    let hd = hsl.hue.den as int;
    let ln = hsl.lightness.num as int;
    let ld = hsl.lightness.den as int;
    let raw = 30 * n * hd + hsl.hue.num;
    let k = if raw >= 360 * hd { raw - 360 * hd } else { raw };
    let up = k - 90 * hd;
    let down = 270 * hd - k;
    let least = if up <= down { up } else { down };
    let capped = if least >= 30 * hd { 30 * hd } else { least };
    let t = if capped <= -30 * hd { -30 * hd } else { capped };
    let m = if ln <= ld - ln { ln } else { ld - ln };
    (ln * hsl.saturation.den) * (30 * hd) - (hsl.saturation.num * m) * t
}

/// The denominator of the channels of the colour of a hue, saturation and
/// lightness.
pub open spec fn channel_den(hsl: Hsl) -> int {
    (hsl.lightness.den * hsl.saturation.den) * (30 * hsl.hue.den)
}

/// One channel of the colour of a hue, saturation and lightness as a byte:
/// 255 times the channel, rounded to the nearest whole number.
pub open spec fn channel_byte(hsl: Hsl, n: int) -> int {
    (510 * channel_num(hsl, n) + channel_den(hsl)) / (2 * channel_den(hsl))
}

/// The sRGB colour of a hue, saturation and lightness.
pub open spec fn rgb_of(hsl: Hsl) -> Rgb {
    Rgb {
        r: channel_byte(hsl, 0) as u8,
        g: channel_byte(hsl, 8) as u8,
        b: channel_byte(hsl, 4) as u8,
    }
}

proof fn lemma_mul_le(x: int, y: int, a: int, b: int)
    requires
        0 <= x <= y,
        0 <= a <= b,
    ensures
        0 <= x * a <= y * b,
{
    assert(0 <= x * a <= y * b) by (nonlinear_arith)
        requires
            0 <= x <= y,
            0 <= a <= b,
    ;
}

fn mul32(a: u32, b: u32) -> (p: u64)
    ensures
        p == a * b,
{
    proof {
        lemma_mul_le(a as int, 0xffff_ffff, b as int, 0xffff_ffff);
    }
    (a as u64) * (b as u64)
}

fn mul64(a: u64, b: u64) -> (p: u128)
    ensures
        p == a * b,
{
    proof {
        lemma_mul_le(a as int, 0xffff_ffff_ffff_ffff, b as int, 0xffff_ffff_ffff_ffff);
    }
    (a as u128) * (b as u128)
}

/// Every channel lies between zero and one.
pub proof fn lemma_channel_in_unit(hsl: Hsl, n: int)
    requires
        hsl.wf(),
        0 <= n < 12,
    ensures
        0 <= channel_num(hsl, n) <= channel_den(hsl),
        0 < channel_den(hsl),
        0 <= channel_byte(hsl, n) <= 255,
{
    let hd = hsl.hue.den as int;
    let ln = hsl.lightness.num as int;
    let ld = hsl.lightness.den as int;
    let sn = hsl.saturation.num as int;
    let sd = hsl.saturation.den as int;
    let raw = 30 * n * hd + hsl.hue.num;
    let k = if raw >= 360 * hd { raw - 360 * hd } else { raw };
    let up = k - 90 * hd;
    let down = 270 * hd - k;
    let least = if up <= down { up } else { down };
    let capped = if least >= 30 * hd { 30 * hd } else { least };
    let t = if capped <= -30 * hd { -30 * hd } else { capped };
    let m = if ln <= ld - ln { ln } else { ld - ln };
    let big = 30 * hd;
    let a = ln * sd;
    let b = sn * m;
    lemma_mul_le(sn, sd, m, m);
    lemma_mul_le(m, ln, sd, sd);
    lemma_mul_le(m, ld - ln, sd, sd);
    assert(m * sd == sd * m) by (nonlinear_arith);
    assert(ln * sd + (ld - ln) * sd == ld * sd) by (nonlinear_arith);
    assert(0 <= b <= a);
    assert(b <= ld * sd - a);
    let abs_t = if t >= 0 { t } else { -t };
    lemma_mul_le(b, b, abs_t, big);
    lemma_mul_le(b, a, big, big);
    lemma_mul_le(b, ld * sd - a, big, big);
    assert((ld * sd - a) * big == (ld * sd) * big - a * big) by (nonlinear_arith);
    assert(b * (-t) == -(b * t)) by (nonlinear_arith);
    assert(0 < ld * sd) by (nonlinear_arith)
        requires
            0 < ld,
            0 < sd,
    ;
    assert(0 < (ld * sd) * big) by (nonlinear_arith)
        requires
            0 < ld * sd,
            0 < big,
    ;
    let num = channel_num(hsl, n);
    let den = channel_den(hsl);
    assert(num == a * big - b * t);
    assert(den == (ld * sd) * big);
    assert(0 <= num <= den);
    lemma_round_byte(num, den);
}

proof fn lemma_round_byte(num: int, den: int)
    requires
        0 <= num <= den,
        0 < den,
    ensures
        0 <= (510 * num + den) / (2 * den) <= 255,
{
    let q = (510 * num + den) / (2 * den);
    assert(0 <= q <= 255) by (nonlinear_arith)
        requires
            0 <= num <= den,
            0 < den,
            q == (510 * num + den) / (2 * den),
    ;
}

proof fn lemma_half_rounds_down(q: int, v: int)
    requires
        q > 0,
        v >= 0,
    ensures
        (q * (2 * v + 1)) / (2 * q) == v,
{
    let x = q * (2 * v + 1);
    assert(x == v * (2 * q) + q) by (nonlinear_arith)
        requires
            x == q * (2 * v + 1),
    ;
    vstd::arithmetic::div_mod::lemma_fundamental_div_mod_converse(x, 2 * q, v, q);
}

proof fn lemma_channel_round_trip(c: Rgb, n: int, v: int)
    requires
        n == 0 && v == c.r || n == 8 && v == c.g || n == 4 && v == c.b,
    ensures
        channel_byte(hsl_of(c), n) == v,
{
    let hsl = hsl_of(c);
    let max = max_channel(c);
    let min = min_channel(c);
    let sum = max + min;
    let d = max - min;
    let hd = hsl.hue.den as int;
    let ln = hsl.lightness.num as int;
    let ld = hsl.lightness.den as int;
    let sn = hsl.saturation.num as int;
    let sd = hsl.saturation.den as int;
    let turn = 30 * n * hd;
    assert(turn == if n == 0 { 0 } else if n == 4 { 120 * hd } else { 240 * hd })
        by (nonlinear_arith)
        requires
            turn == 30 * n * hd,
            n == 0 || n == 4 || n == 8,
    ;
    let raw = turn + hsl.hue.num;
    let k = if raw >= 360 * hd { raw - 360 * hd } else { raw };
    let up = k - 90 * hd;
    let down = 270 * hd - k;
    let least = if up <= down { up } else { down };
    let capped = if least >= 30 * hd { 30 * hd } else { least };
    let t = if capped <= -30 * hd { -30 * hd } else { capped };
    let m = if ln <= ld - ln { ln } else { ld - ln };
    let num = channel_num(hsl, n);
    let den = channel_den(hsl);
    assert(num == (ln * sd) * (30 * hd) - (sn * m) * t);
    assert(den == (ld * sd) * (30 * hd));
    let p = sd * hd;
    assert(p > 0) by (nonlinear_arith)
        requires
            sd > 0,
            hd > 0,
            p == sd * hd,
    ;
    if d == 0 {
        assert(sum == 2 * v);
        assert(sn * m == 0) by (nonlinear_arith)
            requires
                sn == 0,
        ;
        assert(510 * num + den == (15300 * p) * (2 * v + 1)) by (nonlinear_arith)
            requires
                num == (ln * sd) * (30 * hd) - 0 * t,
                den == (ld * sd) * (30 * hd),
                ld == 510,
                ln == 2 * v,
                p == sd * hd,
        ;
        assert(2 * den == 2 * (15300 * p)) by (nonlinear_arith)
            requires
                den == (ld * sd) * (30 * hd),
                ld == 510,
                p == sd * hd,
        ;
    } else {
        assert(m == sd);
        assert(sn == hd);
        assert(t == 30 * (sum - 2 * v));
        assert(510 * num + den == (15300 * p) * (2 * v + 1)) by (nonlinear_arith)
            requires
                num == (ln * sd) * (30 * hd) - (sn * m) * t,
                den == (ld * sd) * (30 * hd),
                ld == 510,
                m == sd,
                sn == hd,
                t == 30 * (ln - 2 * v),
                p == sd * hd,
        ;
        assert(2 * den == 2 * (15300 * p)) by (nonlinear_arith)
            requires
                den == (ld * sd) * (30 * hd),
                ld == 510,
                p == sd * hd,
        ;
    }
    lemma_half_rounds_down(15300 * p, v);
}

proof fn lemma_channel_at_the_ends(hsl: Hsl, n: int)
    requires
        hsl.wf(),
        0 <= n < 12,
    ensures
        hsl.lightness.num == 0 ==> channel_byte(hsl, n) == 0,
        hsl.lightness.num == hsl.lightness.den ==> channel_byte(hsl, n) == 255,
{
    let hd = hsl.hue.den as int;
    let ln = hsl.lightness.num as int;
    let ld = hsl.lightness.den as int;
    let sn = hsl.saturation.num as int;
    let sd = hsl.saturation.den as int;
    let raw = 30 * n * hd + hsl.hue.num;
    let k = if raw >= 360 * hd { raw - 360 * hd } else { raw };
    let up = k - 90 * hd;
    let down = 270 * hd - k;
    let least = if up <= down { up } else { down };
    let capped = if least >= 30 * hd { 30 * hd } else { least };
    let t = if capped <= -30 * hd { -30 * hd } else { capped };
    let m = if ln <= ld - ln { ln } else { ld - ln };
    let num = channel_num(hsl, n);
    let den = channel_den(hsl);
    lemma_channel_in_unit(hsl, n);
    assert(num == (ln * sd) * (30 * hd) - (sn * m) * t);
    if ln == 0 || ln == ld {
        assert(m == 0);
        assert((sn * m) * t == 0) by (nonlinear_arith)
            requires
                m == 0,
        ;
        if ln == 0 {
            assert((ln * sd) * (30 * hd) == 0) by (nonlinear_arith)
                requires
                    ln == 0,
            ;
            vstd::arithmetic::div_mod::lemma_fundamental_div_mod_converse(
                510 * num + den,
                2 * den,
                0,
                den,
            );
        } else {
            assert(num == den);
            vstd::arithmetic::div_mod::lemma_fundamental_div_mod_converse(
                510 * num + den,
                2 * den,
                255,
                den,
            );
        }
    }
}

/// Whatever the hue and the saturation, lightness zero is black and
/// lightness one is white.
pub proof fn lemma_lightness_ends(hsl: Hsl)
    requires
        hsl.wf(),
    ensures
        hsl.lightness.num == 0 ==> rgb_of(hsl) == (Rgb { r: 0, g: 0, b: 0 }),
        hsl.lightness.num == hsl.lightness.den ==> rgb_of(hsl) == (Rgb { r: 255, g: 255, b: 255 }),
{
    lemma_channel_at_the_ends(hsl, 0);
    lemma_channel_at_the_ends(hsl, 8);
    lemma_channel_at_the_ends(hsl, 4);
}

/// The colour of the hue, saturation and lightness of a colour is that colour.
pub proof fn lemma_hsl_round_trip(c: Rgb)
    ensures
        hsl_of(c).wf(),
        rgb_of(hsl_of(c)) == c,
{
    lemma_channel_round_trip(c, 0, c.r as int);
    lemma_channel_round_trip(c, 8, c.g as int);
    lemma_channel_round_trip(c, 4, c.b as int);
}

fn channel(hsl: &Hsl, n: u32) -> (c: u8)
    requires
        hsl.wf(),
        n == 0 || n == 4 || n == 8,
    ensures
        c == channel_byte(*hsl, n as int),
{
    let hd: i64 = hsl.hue.den as i64;
    let ln: u32 = hsl.lightness.num;
    let ld: u32 = hsl.lightness.den;
    let turn: i64 = if n == 0 { 0 } else if n == 4 { 120 * hd } else { 240 * hd };
    assert(turn == 30 * n * hd) by (nonlinear_arith)
        requires
            n == 0 && turn == 0 || n == 4 && turn == 120 * hd || n == 8 && turn == 240 * hd,
    ;
    let raw: i64 = turn + hsl.hue.num as i64;
    let k: i64 = if raw >= 360 * hd { raw - 360 * hd } else { raw };
    let up: i64 = k - 90 * hd;
    let down: i64 = 270 * hd - k;
    let least: i64 = if up <= down { up } else { down };
    let most: i64 = 30 * hd;
    let capped: i64 = if least >= most { most } else { least };
    let t: i64 = if capped <= 0 - most { 0 - most } else { capped };
    let m: u32 = if ln <= ld - ln { ln } else { ld - ln };
    let big: u64 = 30 * (hsl.hue.den as u64);
    let a: u64 = mul32(ln, hsl.saturation.den);
    let b: u64 = mul32(hsl.saturation.num, m);
    let whole: u64 = mul32(ld, hsl.saturation.den);
    let den: u128 = mul64(whole, big);
    let base: u128 = mul64(a, big);
    proof {
        lemma_channel_in_unit(*hsl, n as int);
        lemma_mul_le(whole as int, 0xffff_ffff_ffff_ffff, big as int, 0xffff_ffff_ffff);
        assert(channel_den(*hsl) == den);
        assert(channel_num(*hsl, n as int) == base - b * t);
    }
    let num: u128 = if t >= 0 {
        let part: u128 = mul64(b, t as u64);
        base - part
    } else {
        let part: u128 = mul64(b, (-t) as u64);
        assert(b * (-t) == -(b * t)) by (nonlinear_arith);
        base + part
    };
    let q: u128 = (510 * num + den) / (2 * den);
    q as u8
}

/// The sRGB colour of a hue, saturation and lightness.
pub fn hsl_to_rgb(hsl: &Hsl) -> (c: Rgb)
    requires
        hsl.wf(),
    ensures
        c == rgb_of(*hsl),
{
    Rgb { r: channel(hsl, 0), g: channel(hsl, 8), b: channel(hsl, 4) }
}

/// Hue, saturation and lightness of a colour text, which is an error unless
/// six characters remain behind the optional `#`.
pub open spec fn hsl_of_hex(s: Seq<char>) -> Result<Hsl, ColorError> {
    match parse_hex(s) {
        Ok((r, g, b)) => Ok(hsl_of(Rgb { r, g, b })),
        Err(e) => Err(e),
    }
}

/// Hue, saturation and lightness of a colour written as six hexadecimal
/// digits, with or without a leading `#`.
pub fn hex_to_hsl(hex_color: &str) -> (res: Result<Hsl, ColorError>)
    ensures
        res == hsl_of_hex(hex_color@),
        res is Ok ==> res->Ok_0.wf(),
{
    match hex_to_rgb_tuple(hex_color) {
        Ok((r, g, b)) => Ok(rgb_to_hsl(Rgb { r, g, b })),
        Err(e) => Err(e),
    }
}

/// Writes the colour of a hue, saturation and lightness as `#rrggbb`.
pub fn hsl_to_hex(hsl: &Hsl) -> (s: String)
    requires
        hsl.wf(),
    ensures
        s@ == rgb_of(*hsl).hex(),
{
    let c = hsl_to_rgb(hsl);
    rgb_to_hex(c.r, c.g, c.b)
}

} // verus!
