//! The color value and its text forms.

use vstd::prelude::*;
use crate::structures::alpha::{
    alpha_billionths, alpha_text, lemma_alpha_fraction_rises, write_alpha,
};
use crate::text::{
    chars_of, decimal, hex_char, hex_digit_value, hex_pair, hex_value, is_hex_digit, lower,
    lower_text, push_decimal, push_hex_pair,
};

verus! {

/// An 8-bit sRGB color with an alpha channel; `a == 255` is fully opaque.
#[derive(Clone, Copy, Debug, PartialEq, Eq, Structural, Hash, PartialOrd, Ord)]
pub struct Color {
    pub r: u8,
    pub g: u8,
    pub b: u8,
    pub a: u8,
}

/// Why a text is no hex color.
#[derive(Clone, Copy, Debug, PartialEq, Eq, Structural, Hash)]
pub enum HexError {
    /// The digits are not 3, 4, 6 or 8 (for one of the two narrower readers:
    /// not of a length that it reads).
    InvalidLength,
    /// The length is right, but a character is no hexadecimal digit.
    InvalidDigit,
}

/// The digits of a hex token: the token without its leading `#`, if it has one.
pub open spec fn token_digits(token: Seq<char>) -> Seq<char> {
    if token.len() > 0 && token[0] == '#' {
        token.skip(1)
    } else {
        token
    }
}

/// Whether every character of `digits` is a hexadecimal digit.
pub open spec fn all_hex(digits: Seq<char>) -> bool {
    forall|i: int| 0 <= i < digits.len() ==> is_hex_digit(#[trigger] digits[i])
}

/// The byte that two hexadecimal digits write.
pub open spec fn byte_of(hi: char, lo: char) -> u8
    recommends
        is_hex_digit(hi),
        is_hex_digit(lo),
{
    (hex_value(hi) * 16 + hex_value(lo)) as u8
}

/// The color that `digits` write: two digits a channel where there are 6 or
/// 8 of them, one digit a channel, taken twice, where there are 3 or 4. With
/// 6 or 3 digits the color is opaque.
pub open spec fn color_of_digits(d: Seq<char>) -> Color
    recommends
        d.len() == 3 || d.len() == 4 || d.len() == 6 || d.len() == 8,
        all_hex(d),
{
    if d.len() == 6 {
        Color { r: byte_of(d[0], d[1]), g: byte_of(d[2], d[3]), b: byte_of(d[4], d[5]), a: 255 }
    } else if d.len() == 8 {
        Color {
            r: byte_of(d[0], d[1]),
            g: byte_of(d[2], d[3]),
            b: byte_of(d[4], d[5]),
            a: byte_of(d[6], d[7]),
        }
    } else if d.len() == 3 {
        Color { r: byte_of(d[0], d[0]), g: byte_of(d[1], d[1]), b: byte_of(d[2], d[2]), a: 255 }
    } else {
        Color {
            r: byte_of(d[0], d[0]),
            g: byte_of(d[1], d[1]),
            b: byte_of(d[2], d[2]),
            a: byte_of(d[3], d[3]),
        }
    }
}

/// What reading a token gives: `with_alpha` admits 4 or 8 digits,
/// `without_alpha` 3 or 6. The length is looked at before the digits.
pub open spec fn read_token(token: Seq<char>, with_alpha: bool, without_alpha: bool) -> Result<
    Color,
    HexError,
> {
    let d = token_digits(token);
    let rgb = d.len() == 3 || d.len() == 6;
    let rgba = d.len() == 4 || d.len() == 8;
    if !((rgb && without_alpha) || (rgba && with_alpha)) {
        Err(HexError::InvalidLength)
    } else if !all_hex(d) {
        Err(HexError::InvalidDigit)
    } else {
        Ok(color_of_digits(d))
    }
}

impl Default for Color {
    /// Opaque black.
    fn default() -> (c: Color)
        ensures
            c == Color::spec_default(),
    {
        Color { r: 0, g: 0, b: 0, a: 255 }
    }
}

impl Color {
    /// Opaque black, the color of a slot that nothing has set.
    pub open spec fn spec_default() -> Color {
        Color { r: 0, g: 0, b: 0, a: 255 }
    }

    /// What `parse` gives for a token.
    pub open spec fn spec_parse(token: Seq<char>) -> Result<Color, HexError> {
        read_token(token, true, true)
    }

    /// What `from_hex` gives for a token.
    pub open spec fn spec_from_hex(token: Seq<char>) -> Result<Color, HexError> {
        read_token(token, false, true)
    }

    /// What `from_hex8` gives for a token.
    pub open spec fn spec_from_hex8(token: Seq<char>) -> Result<Color, HexError> {
        read_token(token, true, false)
    }

    /// `RRGGBB`.
    pub open spec fn spec_hex_stripped(self) -> Seq<char> {
        hex_pair(self.r) + hex_pair(self.g) + hex_pair(self.b)
    }

    /// `RRGGBBAA`.
    pub open spec fn spec_hex8_stripped(self) -> Seq<char> {
        self.spec_hex_stripped() + hex_pair(self.a)
    }

    /// `#RRGGBB`.
    pub open spec fn spec_hex(self) -> Seq<char> {
        seq!['#'] + self.spec_hex_stripped()
    }

    /// `#RRGGBBAA`.
    pub open spec fn spec_hex8(self) -> Seq<char> {
        seq!['#'] + self.spec_hex8_stripped()
    }

    /// `#AARRGGBB`.
    pub open spec fn spec_xrgba(self) -> Seq<char> {
        seq!['#'] + hex_pair(self.a) + self.spec_hex_stripped()
    }

    /// `R,G,B` in decimal.
    pub open spec fn spec_rgb(self) -> Seq<char> {
        decimal(self.r as nat) + seq![','] + decimal(self.g as nat) + seq![','] + decimal(
            self.b as nat,
        )
    }

    /// `R,G,B,A` in decimal.
    pub open spec fn spec_rgba(self) -> Seq<char> {
        self.spec_rgb() + seq![','] + decimal(self.a as nat)
    }

    /// The alpha channel as a fraction of full opacity, written as a
    /// single-precision number prints.
    pub open spec fn spec_alpha(self) -> Seq<char> {
        alpha_text(self.a)
    }

    /// The alpha channel as a share of full opacity, in percent, rounded to
    /// the nearest whole number.
    pub open spec fn spec_alpha_percentage(self) -> int {
        (200 * self.a + 255) / 510
    }

    /// The color with these four channels.
    pub fn new(r: u8, g: u8, b: u8, a: u8) -> (c: Color)
        ensures
            c == (Color { r, g, b, a }),
    {
        Color { r, g, b, a }
    }

    /// Reads a hex token, with or without a leading `#`: 6 or 3 digits give
    /// an opaque color, 8 or 4 digits a color with its alpha channel.
    pub fn parse(token: &str) -> (r: Result<Color, HexError>)
        ensures
            r == Color::spec_parse(token@),
    {
        read(token, true, true)
    }

    /// Reads a hex token of 6 or 3 digits, with or without a leading `#`.
    pub fn from_hex(token: &str) -> (r: Result<Color, HexError>)
        ensures
            r == Color::spec_from_hex(token@),
    {
        read(token, false, true)
    }

    /// Reads a hex token of 8 or 4 digits, with or without a leading `#`.
    pub fn from_hex8(token: &str) -> (r: Result<Color, HexError>)
        ensures
            r == Color::spec_from_hex8(token@),
    {
        read(token, true, false)
    }

    /// `RRGGBB` in lower case.
    pub fn hex_stripped(&self) -> (out: String)
        ensures
            out@ == self.spec_hex_stripped(),
    {
        let mut out = String::new();
        push_hex_pair(&mut out, self.r);
        push_hex_pair(&mut out, self.g);
        push_hex_pair(&mut out, self.b);
        out
    }

    /// `RRGGBBAA` in lower case.
    pub fn hex8_stripped(&self) -> (out: String)
        ensures
            out@ == self.spec_hex8_stripped(),
    {
        let mut out = self.hex_stripped();
        push_hex_pair(&mut out, self.a);
        out
    }

    /// `#RRGGBB` in lower case.
    pub fn hex(&self) -> (out: String)
        ensures
            out@ == self.spec_hex(),
    {
        let mut out = String::new();
        out.push('#');
        push_hex_pair(&mut out, self.r);
        push_hex_pair(&mut out, self.g);
        push_hex_pair(&mut out, self.b);
        out
    }

    /// `#RRGGBBAA` in lower case.
    pub fn hex8(&self) -> (out: String)
        ensures
            out@ == self.spec_hex8(),
    {
        let mut out = self.hex();
        push_hex_pair(&mut out, self.a);
        out
    }

    /// `#AARRGGBB` in lower case: the alpha channel first.
    pub fn xrgba(&self) -> (out: String)
        ensures
            out@ == self.spec_xrgba(),
    {
        let mut out = String::new();
        out.push('#');
        push_hex_pair(&mut out, self.a);
        push_hex_pair(&mut out, self.r);
        push_hex_pair(&mut out, self.g);
        push_hex_pair(&mut out, self.b);
        out
    }

    /// `R,G,B` in decimal.
    pub fn rgb(&self) -> (out: String)
        ensures
            out@ == self.spec_rgb(),
    {
        let mut out = String::new();
        push_decimal(&mut out, self.r);
        out.push(',');
        push_decimal(&mut out, self.g);
        out.push(',');
        push_decimal(&mut out, self.b);
        out
    }

    /// `R,G,B,A` in decimal.
    pub fn rgba(&self) -> (out: String)
        ensures
            out@ == self.spec_rgba(),
    {
        let mut out = self.rgb();
        out.push(',');
        push_decimal(&mut out, self.a);
        out
    }

    /// The decimal form carries no marker, so its stripped form is the form
    /// itself.
    pub fn rgb_stripped(&self) -> (out: String)
        ensures
            out@ == self.spec_rgb(),
    {
        self.rgb()
    }

    /// The decimal form carries no marker, so its stripped form is the form
    /// itself.
    pub fn rgba_stripped(&self) -> (out: String)
        ensures
            out@ == self.spec_rgba(),
    {
        self.rgba()
    }

    /// The alpha channel as a fraction of full opacity, between `0` and `1`.
    pub fn alpha(&self) -> (out: String)
        ensures
            out@ == self.spec_alpha(),
    {
        write_alpha(self.a)
    }

    /// The alpha channel in percent of full opacity, rounded to the nearest
    /// whole number.
    pub fn alpha_percentage(&self) -> (p: u8)
        ensures
            p == self.spec_alpha_percentage(),
            p <= 100,
    {
        let scaled: u32 = 200 * (self.a as u32) + 255;
        (scaled / 510) as u8
    }
}

/// Reads a token, accepting the digit counts that the two flags allow.
fn read(token: &str, with_alpha: bool, without_alpha: bool) -> (r: Result<Color, HexError>)
    ensures
        r == read_token(token@, with_alpha, without_alpha),
{
    let chars = chars_of(token);
    let start: usize = if chars.len() > 0 && chars[0] == '#' {
        1
    } else {
        0
    };
    let n: usize = chars.len() - start;
    let ghost d = token_digits(token@);
    let rgb = n == 3 || n == 6;
    let rgba = n == 4 || n == 8;
    if !((rgb && without_alpha) || (rgba && with_alpha)) {
        return Err(HexError::InvalidLength);
    }
    let mut vals: Vec<u8> = Vec::new();
    let mut i: usize = 0;
    while i < n
        invariant
            i <= n,
            n == d.len(),
            n + start == chars.len(),
            d == chars@.skip(start as int),
            d == token_digits(token@),
            rgb == (n == 3 || n == 6),
            rgba == (n == 4 || n == 8),
            (rgb && without_alpha) || (rgba && with_alpha),
            vals.len() == i,
            forall|j: int| 0 <= j < i ==> is_hex_digit(#[trigger] d[j]),
            forall|j: int| 0 <= j < i ==> #[trigger] vals[j] == hex_value(d[j]) && vals[j] < 16,
        decreases n - i,
    {
        match hex_digit_value(chars[start + i]) {
            Some(v) => {
                vals.push(v);
            },
            None => {
                return Err(HexError::InvalidDigit);
            },
        }
        i = i + 1;
    }
    let c = if n == 6 {
        Color {
            r: vals[0] * 16 + vals[1],
            g: vals[2] * 16 + vals[3],
            b: vals[4] * 16 + vals[5],
            a: 255,
        }
    } else if n == 8 {
        Color {
            r: vals[0] * 16 + vals[1],
            g: vals[2] * 16 + vals[3],
            b: vals[4] * 16 + vals[5],
            a: vals[6] * 16 + vals[7],
        }
    } else if n == 3 {
        Color {
            r: vals[0] * 16 + vals[0],
            g: vals[1] * 16 + vals[1],
            b: vals[2] * 16 + vals[2],
            a: 255,
        }
    } else {
        Color {
            r: vals[0] * 16 + vals[0],
            g: vals[1] * 16 + vals[1],
            b: vals[2] * 16 + vals[2],
            a: vals[3] * 16 + vals[3],
        }
    };
    Ok(c)
}

/// Two hexadecimal digits, read as a byte and written again, come back in
/// lower case.
pub proof fn lemma_pair_round_trip(hi: char, lo: char)
    requires
        is_hex_digit(hi),
        is_hex_digit(lo),
    ensures
        hex_pair(byte_of(hi, lo)) == seq![lower(hi), lower(lo)],
{
}

/// A token of six hexadecimal digits, with or without a leading `#`, is read
/// as an opaque color whose `hex` form is `#` and the six digits in lower
/// case: reading and writing gives the token back, but for the case of its
/// letters.
pub proof fn lemma_hex_round_trip(token: Seq<char>)
    requires
        token_digits(token).len() == 6,
        all_hex(token_digits(token)),
    ensures
        Color::spec_parse(token) is Ok,
        Color::spec_parse(token) == Color::spec_from_hex(token),
        Color::spec_parse(token)->Ok_0.a == 255,
        Color::spec_parse(token)->Ok_0.spec_hex_stripped() == lower_text(token_digits(token)),
        Color::spec_parse(token)->Ok_0.spec_hex() == seq!['#'] + lower_text(token_digits(token)),
        token[0] == '#' ==> Color::spec_parse(token)->Ok_0.spec_hex() == lower_text(token),
{
    let d = token_digits(token);
    lemma_pair_round_trip(d[0], d[1]);
    lemma_pair_round_trip(d[2], d[3]);
    lemma_pair_round_trip(d[4], d[5]);
}

/// A token of eight hexadecimal digits, with or without a leading `#`, is
/// read as a color whose `hex8` form is `#` and the eight digits in lower
/// case.
pub proof fn lemma_hex8_round_trip(token: Seq<char>)
    requires
        token_digits(token).len() == 8,
        all_hex(token_digits(token)),
    ensures
        Color::spec_parse(token) is Ok,
        Color::spec_parse(token) == Color::spec_from_hex8(token),
        Color::spec_parse(token)->Ok_0.spec_hex8_stripped() == lower_text(token_digits(token)),
        Color::spec_parse(token)->Ok_0.spec_hex8() == seq!['#'] + lower_text(token_digits(token)),
        token[0] == '#' ==> Color::spec_parse(token)->Ok_0.spec_hex8() == lower_text(token),
{
    let d = token_digits(token);
    lemma_pair_round_trip(d[0], d[1]);
    lemma_pair_round_trip(d[2], d[3]);
    lemma_pair_round_trip(d[4], d[5]);
    lemma_pair_round_trip(d[6], d[7]);
}

/// The `hex8` form of any color is read back as that color, and its `hex`
/// form as the color made opaque.
pub proof fn lemma_written_is_read(c: Color)
    ensures
        Color::spec_parse(c.spec_hex8()) == Ok::<Color, HexError>(c),
        Color::spec_parse(c.spec_hex()) == Ok::<Color, HexError>(Color { a: 255, ..c }),
{
    lemma_pair_is_read(c.r);
    lemma_pair_is_read(c.g);
    lemma_pair_is_read(c.b);
    lemma_pair_is_read(c.a);
}

/// The two digits that write a byte are hexadecimal digits, and they write
/// that byte.
pub proof fn lemma_pair_is_read(v: u8)
    ensures
        is_hex_digit(hex_pair(v)[0]),
        is_hex_digit(hex_pair(v)[1]),
        byte_of(hex_pair(v)[0], hex_pair(v)[1]) == v,
{
}

/// The alpha percentage lies between 0 and 100, is 0 for a clear and 100 for
/// an opaque color, and never falls when the alpha channel, or the alpha
/// fraction, rises.
pub proof fn lemma_alpha_percentage_monotonic(c: Color, d: Color)
    ensures
        0 <= c.spec_alpha_percentage() <= 100,
        c.a == 0 ==> c.spec_alpha_percentage() == 0,
        c.a == 255 ==> c.spec_alpha_percentage() == 100,
        c.a <= d.a ==> c.spec_alpha_percentage() <= d.spec_alpha_percentage(),
        alpha_billionths(c.a) <= alpha_billionths(d.a) ==> c.spec_alpha_percentage()
            <= d.spec_alpha_percentage(),
{
    if d.a < c.a {
        lemma_alpha_fraction_rises(d.a, c.a);
    }
}

/// The alpha percentage is the whole number nearest to `100 * a / 255`.
pub proof fn lemma_alpha_percentage_nearest(c: Color)
    ensures
        -255 < 510 * c.spec_alpha_percentage() - 200 * c.a <= 255,
{
}

} // verus!
