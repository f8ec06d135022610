//! Pure numeric conversion between 8-bit RGB colors and 8-bit luma/chroma
//! triples, plus hex color string parsing.

use vstd::prelude::*;
use crate::error::VideoError;

verus! {

// ------------------------------------------------------------------
// Hex color parsing
// ------------------------------------------------------------------

/// The numeric value of a hex digit, or -1 for any other character.
pub open spec fn hex_digit_value(c: char) -> int {
    if '0' <= c && c <= '9' {
        c as int - '0' as int
    } else if 'a' <= c && c <= 'f' {
        10 + (c as int - 'a' as int)
    } else if 'A' <= c && c <= 'F' {
        10 + (c as int - 'A' as int)
    } else {
        -1
    }
}

/// Whether `c` is a hex digit in either case.
pub open spec fn is_hex_digit(c: char) -> bool {
    hex_digit_value(c) >= 0
}

/// A color string with its optional leading `#` removed.
pub open spec fn strip_hash(s: Seq<char>) -> Seq<char> {
    if s.len() >= 1 && s[0] == '#' {
        s.subrange(1, s.len() as int)
    } else {
        s
    }
}

/// Whether a color string is well formed: after the optional `#`, exactly
/// six hex digits.
pub open spec fn hex_color_wf(s: Seq<char>) -> bool {
    let t = strip_hash(s);
    t.len() == 6 && (forall|i: int| 0 <= i < 6 ==> is_hex_digit(#[trigger] t[i]))
}

/// The value of the `k`-th channel (0 = red, 1 = green, 2 = blue) of a well
/// formed color string, read as a two-digit base-16 number.
pub open spec fn hex_channel(s: Seq<char>, k: int) -> int {
    let t = strip_hash(s);
    16 * hex_digit_value(t[2 * k]) + hex_digit_value(t[2 * k + 1])
}

/// The numeric value of one hex digit character.
fn hex_digit(c: char) -> (r: Option<u8>)
    ensures
        is_hex_digit(c) <==> r is Some,
        r is Some ==> r->0 == hex_digit_value(c) && r->0 < 16,
{
    if '0' <= c && c <= '9' {
        Some((c as u32 - '0' as u32) as u8)
    } else if 'a' <= c && c <= 'f' {
        Some((10 + (c as u32 - 'a' as u32)) as u8)
    } else if 'A' <= c && c <= 'F' {
        Some((10 + (c as u32 - 'A' as u32)) as u8)
    } else {
        None
    }
}

/// Parses a color string: an optional leading `#`, then exactly six hex
/// digits, two per channel.  Returns the `(r, g, b)` triple, or
/// `InvalidColorFormat` carrying the input when the string has any other
/// shape.
pub fn parse_hex_color(hex: &str) -> (r: Result<(u8, u8, u8), VideoError>)
    ensures
        r is Ok <==> hex_color_wf(hex@),
        r matches Ok(c) ==> c.0 == hex_channel(hex@, 0) && c.1 == hex_channel(hex@, 1) && c.2
            == hex_channel(hex@, 2),
        r matches Err(e) ==> e matches VideoError::InvalidColorFormat(s) && s@ == hex@,
{
    let n = hex.unicode_len();
    let start: usize = if n >= 1 && hex.get_char(0) == '#' {
        1
    } else {
        0
    };
    if n - start != 6 {
        return Err(VideoError::InvalidColorFormat(hex.to_owned()));
    }
    assert(strip_hash(hex@) =~= hex@.subrange(start as int, hex@.len() as int));
    let mut digits: [u8; 6] = [0; 6];
    let mut i: usize = 0;
    while i < 6
        invariant
            start <= 1,
            n == hex@.len(),
            n - start == 6,
            strip_hash(hex@) =~= hex@.subrange(start as int, hex@.len() as int),
            i <= 6,
            forall|j: int| 0 <= j < i ==> is_hex_digit(#[trigger] strip_hash(hex@)[j]),
            forall|j: int| 0 <= j < i ==> #[trigger] digits@[j] == hex_digit_value(
                strip_hash(hex@)[j],
            ) && digits@[j] < 16,
        decreases 6 - i,
    {
        let c = hex.get_char(start + i);
        assert(c == strip_hash(hex@)[i as int]);
        match hex_digit(c) {
            Some(v) => {
                digits[i] = v;
            },
            None => {
                return Err(VideoError::InvalidColorFormat(hex.to_owned()));
            },
        }
        i = i + 1;
    }
    let red = 16 * digits[0] + digits[1];
    let green = 16 * digits[2] + digits[3];
    let blue = 16 * digits[4] + digits[5];
    Ok((red, green, blue))
}

/// The lower-case hex digit character for a value below 16.
pub open spec fn hex_char(d: int) -> char {
    if d == 0 {
        '0'
    } else if d == 1 {
        '1'
    } else if d == 2 {
        '2'
    } else if d == 3 {
        '3'
    } else if d == 4 {
        '4'
    } else if d == 5 {
        '5'
    } else if d == 6 {
        '6'
    } else if d == 7 {
        '7'
    } else if d == 8 {
        '8'
    } else if d == 9 {
        '9'
    } else if d == 10 {
        'a'
    } else if d == 11 {
        'b'
    } else if d == 12 {
        'c'
    } else if d == 13 {
        'd'
    } else if d == 14 {
        'e'
    } else {
        'f'
    }
}

/// The six-digit lower-case hex rendering of an RGB triple, without `#`.
pub open spec fn hex_color_string(r: u8, g: u8, b: u8) -> Seq<char> {
    seq![
        hex_char(r as int / 16),
        hex_char(r as int % 16),
        hex_char(g as int / 16),
        hex_char(g as int % 16),
        hex_char(b as int / 16),
        hex_char(b as int % 16),
    ]
}

/// Rendering a hex digit and reading it back is the identity.
proof fn lemma_hex_char_value(d: int)
    requires
        0 <= d < 16,
    ensures
        hex_digit_value(hex_char(d)) == d,
        is_hex_digit(hex_char(d)),
{
}

/// Hex color strings round-trip: rendering any RGB triple as six hex digits,
/// with or without the optional `#` prefix, yields a well formed color string
/// that parses back to the same three byte values.
pub proof fn lemma_hex_color_round_trip(r: u8, g: u8, b: u8)
    ensures
        hex_color_wf(hex_color_string(r, g, b)),
        hex_channel(hex_color_string(r, g, b), 0) == r,
        hex_channel(hex_color_string(r, g, b), 1) == g,
        hex_channel(hex_color_string(r, g, b), 2) == b,
        hex_color_wf(seq!['#'] + hex_color_string(r, g, b)),
        hex_channel(seq!['#'] + hex_color_string(r, g, b), 0) == r,
        hex_channel(seq!['#'] + hex_color_string(r, g, b), 1) == g,
        hex_channel(seq!['#'] + hex_color_string(r, g, b), 2) == b,
{
    let s = hex_color_string(r, g, b);
    assert forall|i: int| 0 <= i < 6 implies is_hex_digit(#[trigger] s[i]) by {
        lemma_digits_of_byte(r);
        lemma_digits_of_byte(g);
        lemma_digits_of_byte(b);
    }
    assert(strip_hash(s) =~= s);
    lemma_digits_of_byte(r);
    lemma_digits_of_byte(g);
    lemma_digits_of_byte(b);
    let p = seq!['#'] + s;
    assert(p[0] == '#');
    assert(strip_hash(p) =~= s);
}

/// Both hex digits of a byte read back to the digit values they render.
proof fn lemma_digits_of_byte(v: u8)
    ensures
        hex_digit_value(hex_char(v as int / 16)) == v as int / 16,
        hex_digit_value(hex_char(v as int % 16)) == v as int % 16,
        16 * (v as int / 16) + v as int % 16 == v,
{
    lemma_hex_char_value(v as int / 16);
    lemma_hex_char_value(v as int % 16);
}

// ------------------------------------------------------------------
// RGB to YUV conversion
// ------------------------------------------------------------------

/// The luma channel of the standard RGB-to-YUV transform, in thousandths:
/// `0.299 r + 0.587 g + 0.114 b`, rounded to the nearest integer.
pub open spec fn yuv_luma(r: u8, g: u8, b: u8) -> int {
    (299 * r + 587 * g + 114 * b + 500) / 1000
}

/// The blue-difference chroma channel, in thousandths and offset by 128:
/// `-0.169 r - 0.331 g + 0.5 b + 127.5`, rounded to the nearest integer.
pub open spec fn yuv_chroma_u(r: u8, g: u8, b: u8) -> int {
    (500 * b + 128000 - 169 * r - 331 * g) / 1000
}

/// The red-difference chroma channel, in thousandths and offset by 128:
/// `0.5 r - 0.419 g - 0.081 b + 127.5`, rounded to the nearest integer.
pub open spec fn yuv_chroma_v(r: u8, g: u8, b: u8) -> int {
    (500 * r + 128000 - 419 * g - 81 * b) / 1000
}

/// Every channel of the transform lands in the 8-bit range for every RGB
/// triple: the luma weights sum to exactly one, and each chroma channel's
/// negative weights sum to exactly the 0.5 scale of its positive weight,
/// so no input can push a channel past [0, 255].
pub proof fn lemma_yuv_channels_in_range(r: u8, g: u8, b: u8)
    ensures
        0 <= yuv_luma(r, g, b) <= 255,
        0 <= yuv_chroma_u(r, g, b) <= 255,
        0 <= yuv_chroma_v(r, g, b) <= 255,
{
}

/// Converts one RGB pixel to the YUV color model.  The transform's
/// coefficients make every channel land in the 8-bit range: the luma weights
/// sum to one, and each chroma channel's negative weights sum to exactly the
/// 0.5 scale of its positive weight, so no wrap or overflow can occur.
pub fn rgb_to_yuv(r: u8, g: u8, b: u8) -> (yuv: (u8, u8, u8))
    ensures
        yuv.0 == yuv_luma(r, g, b),
        yuv.1 == yuv_chroma_u(r, g, b),
        yuv.2 == yuv_chroma_v(r, g, b),
{
    let y: u32 = (299 * (r as u32) + 587 * (g as u32) + 114 * (b as u32) + 500) / 1000;
    let u: u32 = (500 * (b as u32) + 128000 - 169 * (r as u32) - 331 * (g as u32)) / 1000;
    let v: u32 = (500 * (r as u32) + 128000 - 419 * (g as u32) - 81 * (b as u32)) / 1000;
    assert(y <= 255 && u <= 255 && v <= 255);
    (y as u8, u as u8, v as u8)
}

} // verus!
