//! Colours as 8-bit sRGB triples and their hexadecimal text form.

use vstd::prelude::*;
use vstd::string::*;

verus! {

/// An 8-bit sRGB colour.
#[derive(Clone, Copy, Debug, PartialEq, Eq, Structural)]
pub struct Rgb {
    pub r: u8,
    pub g: u8,
    pub b: u8,
}

impl Rgb {
    /// The colour written as the number `0xRRGGBB`; higher bits are ignored.
    pub open spec fn of_u32(x: u32) -> Rgb {
        Rgb { r: ((x / 65536) % 256) as u8, g: ((x / 256) % 256) as u8, b: (x % 256) as u8 }
    }

    /// The colour written as the number `0xRRGGBB`; higher bits are ignored.
    #[verifier::when_used_as_spec(of_u32)]
    pub fn from_u32(x: u32) -> (c: Rgb)
        ensures
            c == Rgb::of_u32(x),
    {
        Rgb { r: ((x / 65536) % 256) as u8, g: ((x / 256) % 256) as u8, b: (x % 256) as u8 }
    }

    /// The text of the colour, `#rrggbb` in lower case.
    pub open spec fn hex(self) -> Seq<char> {
        hex_text(self.r, self.g, self.b)
    }

    /// Writes the colour as `#rrggbb` in lower case.
    pub fn to_hex(&self) -> (s: String)
        ensures
            s@ == self.hex(),
    {
        rgb_to_hex(self.r, self.g, self.b)
    }
}

/// Why a colour text could not be read.
#[derive(Clone, Copy, Debug, PartialEq, Eq, Structural)]
pub enum ColorError {
    /// The text, after one optional leading `#`, is not six characters long.
    MalformedColor,
}

/// The value of one hexadecimal digit, in either case.
pub open spec fn hex_digit_value(c: char) -> Option<u8> {
    if '0' <= c <= '9' {
        Some((c as u8 - '0' as u8) as u8)
    } else if 'a' <= c <= 'f' {
        Some((c as u8 - 'a' as u8 + 10) as u8)
    } else if 'A' <= c <= 'F' {
        Some((c as u8 - 'A' as u8 + 10) as u8)
    } else {
        None
    }
}

/// The byte written by two characters: sixteen times the first digit plus the
/// second, and zero as soon as one of them is no hexadecimal digit.
pub open spec fn hex_pair_value(hi: char, lo: char) -> u8 {
    match (hex_digit_value(hi), hex_digit_value(lo)) {
        (Some(h), Some(l)) => (16 * h + l) as u8,
        _ => 0u8,
    }
}

/// The text without its one optional leading `#`.
pub open spec fn strip_pound(s: Seq<char>) -> Seq<char> {
    if s.len() > 0 && s[0] == '#' {
        s.subrange(1, s.len() as int)
    } else {
        s
    }
}

/// What a colour text denotes: an error unless six characters remain behind
/// the optional `#`, and otherwise the three bytes of its three pairs.
pub open spec fn parse_hex(s: Seq<char>) -> Result<(u8, u8, u8), ColorError> {
    let t = strip_pound(s);
    if t.len() != 6 {
        Err(ColorError::MalformedColor)
    } else {
        Ok((hex_pair_value(t[0], t[1]), hex_pair_value(t[2], t[3]), hex_pair_value(t[4], t[5])))
    }
}

fn digit_of(c: char) -> (v: Option<u8>)
    ensures
        v == hex_digit_value(c),
{
    let n: u32 = c as u32;
    if 48 <= n && n <= 57 {
        Some((n - 48) as u8)
    } else if 97 <= n && n <= 102 {
        Some((n - 87) as u8)
    } else if 65 <= n && n <= 70 {
        Some((n - 55) as u8)
    } else {
        None
    }
}

fn pair_of(hi: char, lo: char) -> (v: u8)
    ensures
        v == hex_pair_value(hi, lo),
{
    match (digit_of(hi), digit_of(lo)) {
        (Some(h), Some(l)) => 16 * h + l,
        _ => 0,
    }
}

/// Reads a colour written as six hexadecimal digits, with or without a leading
/// `#`. A pair that is not two hexadecimal digits counts as zero.
pub fn hex_to_rgb_tuple(hex_color: &str) -> (res: Result<(u8, u8, u8), ColorError>)
    ensures
        res == parse_hex(hex_color@),
{
    let n: usize = hex_color.unicode_len();
    let start: usize = if n > 0 && hex_color.get_char(0) == '#' { 1 } else { 0 };
    if n - start != 6 {
        return Err(ColorError::MalformedColor);
    }
    let r: u8 = pair_of(hex_color.get_char(start), hex_color.get_char(start + 1));
    let g: u8 = pair_of(hex_color.get_char(start + 2), hex_color.get_char(start + 3));
    let b: u8 = pair_of(hex_color.get_char(start + 4), hex_color.get_char(start + 5));
    Ok((r, g, b))
}

/// The lower-case hexadecimal digit of a value below sixteen.
pub open spec fn hex_digit_char(v: int) -> char {
    if v < 10 {
        (v + 48) as char
    } else {
        (v + 87) as char
    }
}

/// The text of a colour: `#` and two lower-case hexadecimal digits per channel,
/// red first.
pub open spec fn hex_text(r: u8, g: u8, b: u8) -> Seq<char> {
    seq![
        '#',
        hex_digit_char(r as int / 16),
        hex_digit_char(r as int % 16),
        hex_digit_char(g as int / 16),
        hex_digit_char(g as int % 16),
        hex_digit_char(b as int / 16),
        hex_digit_char(b as int % 16),
    ]
}

/// A character in lower case, where it is an ASCII capital letter.
pub open spec fn ascii_lower(c: char) -> char {
    if 'A' <= c <= 'Z' {
        (c as int + 32) as char
    } else {
        c
    }
}

/// A text with every ASCII capital letter in lower case.
pub open spec fn ascii_lowercase(s: Seq<char>) -> Seq<char> {
    Seq::new(s.len(), |i: int| ascii_lower(s[i]))
}

/// Whether a text is six hexadecimal digits behind an optional `#`.
pub open spec fn is_hex_color(s: Seq<char>) -> bool {
    let t = strip_pound(s);
    &&& t.len() == 6
    &&& forall|i: int| 0 <= i < 6 ==> hex_digit_value(#[trigger] t[i]) is Some
}

fn digit_text(v: u8) -> (s: &'static str)
    requires
        v < 16,
    ensures
        s@ == seq![hex_digit_char(v as int)],
{
    proof {
        reveal_strlit("0");
        reveal_strlit("1");
        reveal_strlit("2");
        reveal_strlit("3");
        reveal_strlit("4");
        reveal_strlit("5");
        reveal_strlit("6");
        reveal_strlit("7");
        reveal_strlit("8");
        reveal_strlit("9");
        reveal_strlit("a");
        reveal_strlit("b");
        reveal_strlit("c");
        reveal_strlit("d");
        reveal_strlit("e");
        reveal_strlit("f");
    }
    let s: &'static str = match v {
        0 => "0",
        1 => "1",
        2 => "2",
        3 => "3",
        4 => "4",
        5 => "5",
        6 => "6",
        7 => "7",
        8 => "8",
        9 => "9",
        10 => "a",
        11 => "b",
        12 => "c",
        13 => "d",
        14 => "e",
        _ => "f",
    };
    assert(s@ =~= seq![hex_digit_char(v as int)]);
    s
}

/// Writes a colour as `#rrggbb` in lower case.
pub fn rgb_to_hex(r: u8, g: u8, b: u8) -> (s: String)
    ensures
        s@ == hex_text(r, g, b),
{
    proof {
        reveal_strlit("#");
    }
    let mut s = String::from_str("#");
    s.append(digit_text(r / 16));
    s.append(digit_text(r % 16));
    s.append(digit_text(g / 16));
    s.append(digit_text(g % 16));
    s.append(digit_text(b / 16));
    s.append(digit_text(b % 16));
    assert(s@ =~= hex_text(r, g, b));
    s
}

/// The text of a colour is `#` and six hexadecimal digits, and reading it
/// gives the colour back.
pub proof fn lemma_hex_text_is_read_back(r: u8, g: u8, b: u8)
    ensures
        hex_text(r, g, b).len() == 7,
        hex_text(r, g, b)[0] == '#',
        is_hex_color(hex_text(r, g, b)),
        parse_hex(hex_text(r, g, b)) == Ok::<(u8, u8, u8), ColorError>((r, g, b)),
{
    let s = hex_text(r, g, b);
    let t = strip_pound(s);
    assert forall|v: int| 0 <= v < 16 implies hex_digit_value(#[trigger] hex_digit_char(v))
        == Some(v as u8) by {}
    assert(t =~= seq![
        hex_digit_char(r as int / 16),
        hex_digit_char(r as int % 16),
        hex_digit_char(g as int / 16),
        hex_digit_char(g as int % 16),
        hex_digit_char(b as int / 16),
        hex_digit_char(b as int % 16),
    ]);
    assert(hex_pair_value(t[0], t[1]) == r);
    assert(hex_pair_value(t[2], t[3]) == g);
    assert(hex_pair_value(t[4], t[5]) == b);
}

/// Reading a colour text of six hexadecimal digits and writing the colour
/// again gives the same digits in lower case, behind a `#`.
pub proof fn lemma_hex_round_trip(s: Seq<char>)
    requires
        is_hex_color(s),
    ensures
        parse_hex(s) is Ok,
        ({
            let (r, g, b) = parse_hex(s)->Ok_0;
            hex_text(r, g, b) == seq!['#'] + ascii_lowercase(strip_pound(s))
        }),
        s[0] == '#' ==> ({
            let (r, g, b) = parse_hex(s)->Ok_0;
            hex_text(r, g, b) == ascii_lowercase(s)
        }),
{
    let t = strip_pound(s);
    let (r, g, b) = parse_hex(s)->Ok_0;
    assert forall|hi: char, lo: char|
        hex_digit_value(hi) is Some && hex_digit_value(lo) is Some implies hex_digit_char(
        #[trigger] hex_pair_value(hi, lo) as int / 16,
    ) == ascii_lower(hi) && hex_digit_char(hex_pair_value(hi, lo) as int % 16) == ascii_lower(
        lo,
    ) by {
        let h = hex_digit_value(hi)->Some_0;
        let l = hex_digit_value(lo)->Some_0;
        assert(h < 16 && l < 16);
        assert(hex_pair_value(hi, lo) == 16 * h + l);
    }
    assert(hex_digit_value(t[0]) is Some);
    assert(hex_digit_value(t[1]) is Some);
    assert(hex_digit_value(t[2]) is Some);
    assert(hex_digit_value(t[3]) is Some);
    assert(hex_digit_value(t[4]) is Some);
    assert(hex_digit_value(t[5]) is Some);
    assert(hex_text(r, g, b) =~= seq!['#'] + ascii_lowercase(t));
    if s[0] == '#' {
        assert(ascii_lowercase(s) =~= seq!['#'] + ascii_lowercase(t));
    }
}

} // verus!
