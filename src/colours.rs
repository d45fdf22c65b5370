//! Hex colour helpers: parsing through `hex_color`, the black or white text
//! colour that reads on a background, and an alpha suffix.

use vstd::prelude::*;

verus! {

/// A colour as its red, green, blue and alpha channels.
#[derive(Clone, Copy, PartialEq, Eq, Structural, Debug)]
pub struct Rgba {
    pub r: u8,
    pub g: u8,
    pub b: u8,
    pub a: u8,
}

/// Why a colour string could not be read.
#[derive(Clone, Copy, PartialEq, Eq, Structural, Debug)]
pub enum ColourError {
    /// The string is empty.
    Empty,
    /// The string has a length that no form has, or lacks the leading `#`.
    InvalidFormat,
    /// One of the digits is not hexadecimal.
    InvalidDigit,
}

/// The value of a hexadecimal digit of either case.
pub open spec fn hex_value(c: char) -> Option<nat> {
    if '0' <= c && c <= '9' {
        Some((c as nat - '0' as nat) as nat)
    } else if 'a' <= c && c <= 'f' {
        Some((c as nat - 'a' as nat + 10) as nat)
    } else if 'A' <= c && c <= 'F' {
        Some((c as nat - 'A' as nat + 10) as nat)
    } else {
        None
    }
}

/// Every character is ASCII, so each takes one byte.
pub open spec fn all_ascii(s: Seq<char>) -> bool {
    forall|i: int| 0 <= i < s.len() ==> (#[trigger] s[i] as u32) < 128
}

pub open spec fn is_hex(c: char) -> bool {
    hex_value(c) is Some
}

/// `#` followed by `n` hexadecimal digits.
pub open spec fn hex_form(s: Seq<char>, n: nat) -> bool {
    &&& s.len() == n + 1
    &&& s[0] == '#'
    &&& forall|i: int| 1 <= i < s.len() ==> is_hex(#[trigger] s[i])
}

/// The channel written as the digit at `i`, doubled (`#RGB`, `#RGBA`).
pub open spec fn short_channel(s: Seq<char>, i: int) -> u8 {
    (hex_value(s[i]).unwrap() * 17) as u8
}

/// The channel written as the two digits at `i` and `i + 1`.
pub open spec fn full_channel(s: Seq<char>, i: int) -> u8 {
    (hex_value(s[i]).unwrap() * 16 + hex_value(s[i + 1]).unwrap()) as u8
}

/// The colour that a well-formed hex string denotes, in any of the forms
/// `#RGB`, `#RGBA`, `#RRGGBB` and `#RRGGBBAA`; an absent alpha is opaque.
pub open spec fn hex_colour(s: Seq<char>) -> Option<Rgba> {
    if hex_form(s, 3) {
        Some(Rgba { r: short_channel(s, 1), g: short_channel(s, 2), b: short_channel(s, 3), a: 255 })
    } else if hex_form(s, 4) {
        Some(Rgba { r: short_channel(s, 1), g: short_channel(s, 2), b: short_channel(s, 3), a: short_channel(s, 4) })
    } else if hex_form(s, 6) {
        Some(Rgba { r: full_channel(s, 1), g: full_channel(s, 3), b: full_channel(s, 5), a: 255 })
    } else if hex_form(s, 8) {
        Some(Rgba { r: full_channel(s, 1), g: full_channel(s, 3), b: full_channel(s, 5), a: full_channel(s, 7) })
    } else {
        None
    }
}

/// Where a string is one of the four lengths with a leading `#`, holds no
/// `+`, and has a character that is not a hexadecimal digit.
pub open spec fn bad_digit_form(s: Seq<char>) -> bool {
    &&& all_ascii(s)
    &&& (s.len() == 4 || s.len() == 5 || s.len() == 7 || s.len() == 9)
    &&& s[0] == '#'
    &&& exists|i: int| 1 <= i < s.len() && !is_hex(#[trigger] s[i])
    &&& forall|i: int| 0 <= i < s.len() ==> s[i] != '+'
}

/// The error that reading `s` gives, where the form of `s` settles it: an
/// empty string, a missing `#`, an ASCII string of a length no form has, or
/// a character that is not a hexadecimal digit.
pub open spec fn known_error(s: Seq<char>) -> Option<ColourError> {
    if s.len() == 0 {
        Some(ColourError::Empty)
    } else if s[0] != '#' {
        Some(ColourError::InvalidFormat)
    } else if all_ascii(s) && !(s.len() == 4 || s.len() == 5 || s.len() == 7 || s.len() == 9) {
        Some(ColourError::InvalidFormat)
    } else if bad_digit_form(s) {
        Some(ColourError::InvalidDigit)
    } else {
        None
    }
}

/// Relies on `hex_color::HexColor::parse`: it reads the four forms `#RGB`,
/// `#RGBA`, `#RRGGBB`, `#RRGGBBAA` in either case; it fails with `Empty` on
/// an empty string, with `InvalidFormat` on a missing `#` or a byte length
/// other than 4, 5, 7 or 9, and with `InvalidDigit` when a digit does not
/// parse (a pair of the long forms may also start with `+`).
#[verifier::external_body]
fn parse_hex(s: &str) -> (r: Result<Rgba, ColourError>)
    ensures
        hex_colour(s@) is Some ==> r is Ok && r->Ok_0 == hex_colour(s@).unwrap(),
        known_error(s@) is Some ==> r is Err && r->Err_0 == known_error(s@).unwrap(),
{
    match hex_color::HexColor::parse(s) {
        Ok(c) => Ok(Rgba { r: c.r, g: c.g, b: c.b, a: c.a }),
        Err(hex_color::ParseHexColorError::Empty) => Err(ColourError::Empty),
        Err(hex_color::ParseHexColorError::InvalidFormat) => Err(ColourError::InvalidFormat),
        Err(_) => Err(ColourError::InvalidDigit),
    }
}

/// Reads a hex colour string.
pub fn parse(hex_colour_text: &str) -> (r: Result<Rgba, ColourError>)
    ensures
        hex_colour(hex_colour_text@) is Some ==> r is Ok && r->Ok_0 == hex_colour(hex_colour_text@).unwrap(),
        known_error(hex_colour_text@) is Some ==> r is Err && r->Err_0 == known_error(hex_colour_text@).unwrap(),
{
    parse_hex(hex_colour_text)
}

/// Luma with the Rec. 709 weights, in ten-thousandths:
/// 2126 red + 7152 green + 722 blue.
pub open spec fn luma_spec(c: Rgba) -> nat {
    (2126 * c.r + 7152 * c.g + 722 * c.b) as nat
}

/// The luma of a colour, in ten-thousandths of a channel step.
pub fn luma_scaled(c: Rgba) -> (r: u32)
    ensures
        r == luma_spec(c),
{
    2126 * (c.r as u32) + 7152 * (c.g as u32) + 722 * (c.b as u32)
}

/// The text colour that reads on background `c`: black when its luma is
/// above 165, white otherwise.
pub open spec fn contrast_spec(c: Rgba) -> Seq<char> {
    if luma_spec(c) > 1650000 {
        "#000000"@
    } else {
        "#ffffff"@
    }
}

/// Black or white text, whichever reads on background `c`.
pub fn contrast_text(c: Rgba) -> (r: String)
    ensures
        r@ == contrast_spec(c),
{
    if luma_scaled(c) > 1650000 {
        String::from_str("#000000")
    } else {
        String::from_str("#ffffff")
    }
}

/// A colour string that could not be read, and why.
#[derive(Clone, PartialEq, Eq, Debug)]
pub struct InvalidColour {
    pub value: String,
    pub reason: ColourError,
}

impl InvalidColour {
    /// A description that names the rejected value.
    pub fn message(&self) -> (r: String)
        ensures
            r@ == "Invalid hex colour: "@ + self.value@,
    {
        let mut r = String::from_str("Invalid hex colour: ");
        r.append(self.value.as_str());
        r
    }
}

/// Black or white text for a background given as a hex string; a string
/// that is not a colour is handed back in the error.
pub fn bw_on_bg(background_hex: String) -> (r: Result<String, InvalidColour>)
    ensures
        hex_colour(background_hex@) is Some ==> r is Ok && r->Ok_0@ == contrast_spec(hex_colour(background_hex@).unwrap()),
        known_error(background_hex@) is Some ==> r is Err && r->Err_0.reason == known_error(background_hex@).unwrap(),
        r is Err ==> r->Err_0.value@ == background_hex@,
        r is Ok ==> r->Ok_0@ == "#000000"@ || r->Ok_0@ == "#ffffff"@,
{
    match parse(background_hex.as_str()) {
        Ok(c) => Ok(contrast_text(c)),
        Err(e) => Err(InvalidColour { value: background_hex, reason: e }),
    }
}

/// The lowercase hexadecimal digit of `n`.
pub open spec fn hex_digit_char(n: nat) -> char {
    "0123456789abcdef"@[n as int]
}

/// A byte as two lowercase hexadecimal digits.
pub open spec fn hex_byte(n: u8) -> Seq<char> {
    seq![hex_digit_char(n as nat / 16), hex_digit_char(n as nat % 16)]
}

/// The colour `#RRGGBB` at the start of `hex` with alpha `alpha` appended.
pub fn with_alpha(hex: &str, alpha: u8) -> (r: String)
    requires
        hex@.len() >= 7,
    ensures
        r@ == hex@.subrange(0, 7) + hex_byte(alpha),
{
    let digits = "0123456789abcdef";
    proof {
        reveal_strlit("0123456789abcdef");
    }
    let mut r = String::from_str(hex.substring_char(0, 7));
    let hi = (alpha / 16) as usize;
    let lo = (alpha % 16) as usize;
    r.append(digits.substring_char(hi, hi + 1));
    r.append(digits.substring_char(lo, lo + 1));
    assert(r@ =~= hex@.subrange(0, 7) + hex_byte(alpha));
    r
}

} // verus!
