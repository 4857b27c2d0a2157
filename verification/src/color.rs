use vstd::prelude::*;

verus! {

/// A hexadecimal digit, upper or lower case.
pub open spec fn is_hex_digit(c: char) -> bool {
    ('0' <= c && c <= '9') || ('a' <= c && c <= 'f') || ('A' <= c && c <= 'F')
}

/// The numeric value of a hexadecimal digit.
pub open spec fn hex_digit_value(c: char) -> nat
    recommends
        is_hex_digit(c),
{
    if '0' <= c && c <= '9' {
        (c as nat - '0' as nat) as nat
    } else if 'a' <= c && c <= 'f' {
        (c as nat - 'a' as nat + 10) as nat
    } else {
        (c as nat - 'A' as nat + 10) as nat
    }
}

/// The byte value written by the two hexadecimal digits `hi`, `lo`.
pub open spec fn hex_byte_value(hi: char, lo: char) -> nat
    recommends
        is_hex_digit(hi),
        is_hex_digit(lo),
{
    16 * hex_digit_value(hi) + hex_digit_value(lo)
}

/// A color notation accepted by the parser: exactly seven characters,
/// a leading `#` followed by six hexadecimal digits.
pub open spec fn valid_hex_notation(s: Seq<char>) -> bool {
    &&& s.len() == 7
    &&& s[0] == '#'
    &&& forall|i: int| 1 <= i < 7 ==> is_hex_digit(#[trigger] s[i])
}

/// A device color under the sRGB model, as parsed from a `#RRGGBB`
/// notation: one byte per channel. Downstream stages divide each channel
/// by 255 to get the normalized fraction the conversion formulas use.
#[derive(PartialEq, Eq, Structural, Clone, Copy, Debug)]
pub struct SRGBColor {
    pub r: u8,
    pub g: u8,
    pub b: u8,
}

/// The color that a valid notation denotes.
pub open spec fn color_of(s: Seq<char>) -> SRGBColor
    recommends
        valid_hex_notation(s),
{
    SRGBColor {
        r: hex_byte_value(s[1], s[2]) as u8,
        g: hex_byte_value(s[3], s[4]) as u8,
        b: hex_byte_value(s[5], s[6]) as u8,
    }
}

impl SRGBColor {
    pub fn new(r: u8, g: u8, b: u8) -> (c: SRGBColor)
        ensures
            c == (SRGBColor { r, g, b }),
    {
        SRGBColor { r, g, b }
    }

    /// Parses a `#RRGGBB` notation. Succeeds exactly on valid notations and
    /// never coerces anything else; the result is determined by the text
    /// alone.
    pub fn from_hex_triplet(s: &str) -> (res: Option<SRGBColor>)
        ensures
            res is Some <==> valid_hex_notation(s@),
            res is Some ==> res == Some(color_of(s@)),
    {
        if s.unicode_len() != 7 {
            return None;
        }
        if s.get_char(0) != '#' {
            return None;
        }
        let r = match hex_byte(s.get_char(1), s.get_char(2)) {
            Some(v) => v,
            None => { return None; },
        };
        let g = match hex_byte(s.get_char(3), s.get_char(4)) {
            Some(v) => v,
            None => { return None; },
        };
        let b = match hex_byte(s.get_char(5), s.get_char(6)) {
            Some(v) => v,
            None => { return None; },
        };
        Some(SRGBColor { r, g, b })
    }
}

/// The value of one hexadecimal digit, or `None` for any other character.
pub fn hex_digit(c: char) -> (res: Option<u8>)
    ensures
        res is Some <==> is_hex_digit(c),
        res is Some ==> res == Some(hex_digit_value(c) as u8),
        res is Some ==> res.unwrap() < 16,
{
    if '0' <= c && c <= '9' {
        Some(c as u8 - '0' as u8)
    } else if 'a' <= c && c <= 'f' {
        Some(c as u8 - 'a' as u8 + 10)
    } else if 'A' <= c && c <= 'F' {
        Some(c as u8 - 'A' as u8 + 10)
    } else {
        None
    }
}

/// The byte written by two hexadecimal digits, or `None` if either
/// character is not a hexadecimal digit.
pub fn hex_byte(hi: char, lo: char) -> (res: Option<u8>)
    ensures
        res is Some <==> is_hex_digit(hi) && is_hex_digit(lo),
        res is Some ==> res == Some(hex_byte_value(hi, lo) as u8),
{
    let h = match hex_digit(hi) {
        Some(v) => v,
        None => { return None; },
    };
    let l = match hex_digit(lo) {
        Some(v) => v,
        None => { return None; },
    };
    Some(16 * h + l)
}

} // verus!
