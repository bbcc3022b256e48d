//! Colors: written as `#rrggbbaa`, as three numbers for hue, saturation and
//! value, or by name; and read back from the first two forms.

use vstd::prelude::*;
use vstd::utf8::{encode_scalar, encode_utf8, is_ascii_chars, is_ascii_chars_encode_utf8};
use hex::FromHexError;
use crate::chars::push_char;
use crate::number::{float_text, is_float_text};

verus! {

/// hex's `FromHexError`, carried as it is inside
/// `ColorParseError::InvalidRgba`.
#[verifier::external_type_specification]
#[verifier::external_body]
pub struct ExFromHexError(FromHexError);

#[derive(Clone, Debug, PartialEq)]
pub enum Color {
    Rgba { red: u8, green: u8, blue: u8, alpha: u8 },
    /// Hue, saturation and value, each held as the decimal text of a number.
    Hsv { hue: String, saturation: String, value: String },
    Name(String),
}

#[derive(Debug, PartialEq)]
pub enum ColorParseError {
    /// The text was empty.
    Empty,
    /// The text had the shape of a hexadecimal color but held a bad digit.
    InvalidRgba(FromHexError),
    /// The text was not three numbers separated by white space.
    InvalidHsv,
}

/// The lowercase hexadecimal digit for `d`, which is below sixteen.
pub open spec fn hex_digit(d: u8) -> char {
    if d < 10 {
        (48 + d) as char
    } else {
        (87 + d) as char
    }
}

/// The two lowercase hexadecimal digits of `b`.
pub open spec fn hex_byte_text(b: u8) -> Seq<char> {
    seq![hex_digit(b / 16), hex_digit(b % 16)]
}

pub open spec fn is_hex_digit_byte(b: u8) -> bool {
    (48 <= b <= 57) || (97 <= b <= 102) || (65 <= b <= 70)
}

pub open spec fn hex_value(b: u8) -> u8 {
    if b <= 57 {
        (b - 48) as u8
    } else if b >= 97 {
        (b - 87) as u8
    } else {
        (b - 55) as u8
    }
}

/// An even number of hexadecimal digits, in either case.
pub open spec fn hex_text(b: Seq<u8>) -> bool {
    b.len() % 2 == 0 && forall|i: int| 0 <= i < b.len() ==> is_hex_digit_byte(#[trigger] b[i])
}

/// The bytes that the digit pairs of `b` stand for, high digit first.
pub open spec fn hex_decoded(b: Seq<u8>) -> Seq<u8> {
    Seq::new(b.len() / 2, |i: int| (hex_value(b[2 * i]) * 16 + hex_value(b[2 * i + 1])) as u8)
}

/// Relies on hex's `FromHex for Vec<u8>`: an even number of hexadecimal
/// digits decodes to one byte per pair, and anything else is an error.
#[verifier::external_body]
fn decode_hex(t: &str) -> (r: Result<Vec<u8>, FromHexError>)
    ensures
        r is Ok <==> hex_text(encode_utf8(t@)),
        r matches Ok(v) ==> v@ == hex_decoded(encode_utf8(t@)),
{
    <Vec<u8> as hex::FromHex>::from_hex(t)
}

pub open spec fn white_space(c: char) -> bool {
    ||| '\u{9}' <= c <= '\u{d}'
    ||| c == ' '
    ||| c == '\u{85}'
    ||| c == '\u{a0}'
    ||| c == '\u{1680}'
    ||| '\u{2000}' <= c <= '\u{200a}'
    ||| c == '\u{2028}'
    ||| c == '\u{2029}'
    ||| c == '\u{202f}'
    ||| c == '\u{205f}'
    ||| c == '\u{3000}'
}

/// The words of `s` after the word `current` that is being read: the
/// maximal runs of characters that are not white space, in order.
pub open spec fn words_from(s: Seq<char>, current: Seq<char>) -> Seq<Seq<char>>
    decreases s.len(),
{
    if s.len() == 0 {
        if current.len() == 0 {
            seq![]
        } else {
            seq![current]
        }
    } else if white_space(s[0]) {
        (if current.len() == 0 {
            seq![]
        } else {
            seq![current]
        }) + words_from(s.drop_first(), seq![])
    } else {
        words_from(s.drop_first(), current.push(s[0]))
    }
}

pub open spec fn words_of(s: Seq<char>) -> Seq<Seq<char>> {
    words_from(s, seq![])
}

/// Relies on `str::split_whitespace`: the pieces of `s` between runs of
/// Unicode white space, without empty ones.
#[verifier::external_body]
fn split_whitespace(s: &str) -> (r: Vec<String>)
    ensures
        r@.len() == words_of(s@).len(),
        forall|i: int| 0 <= i < r@.len() ==> #[trigger] r@[i]@ == words_of(s@)[i],
{
    s.split_whitespace().map(String::from).collect()
}

/// What a color text reads as, or why it does not.
pub enum ColorReading {
    Rgba(u8, u8, u8, u8),
    Hsv(Seq<char>, Seq<char>, Seq<char>),
    Named(Seq<char>),
    Empty,
    InvalidRgba,
    InvalidHsv,
}

/// `s` has the shape of a hexadecimal color: `#` and eight or six more bytes.
pub open spec fn hex_color_shape(s: Seq<char>) -> bool {
    s.len() > 0 && s[0] == '#' && (encode_utf8(s).len() == 9 || encode_utf8(s).len() == 7)
}

/// How a color text is read: `#rrggbbaa` or `#rrggbb` (opaque), or three
/// numbers separated by white space for hue, saturation and value.
pub open spec fn read_color(s: Seq<char>) -> ColorReading {
    if s.len() == 0 {
        ColorReading::Empty
    } else if hex_color_shape(s) {
        let digits = encode_utf8(s.drop_first());
        if !hex_text(digits) {
            ColorReading::InvalidRgba
        } else {
            let v = hex_decoded(digits);
            ColorReading::Rgba(
                v[0],
                v[1],
                v[2],
                if encode_utf8(s).len() == 9 {
                    v[3]
                } else {
                    0xFF
                },
            )
        }
    } else {
        let w = words_of(s);
        if w.len() == 3 && float_text(w[0]) && float_text(w[1]) && float_text(w[2]) {
            ColorReading::Hsv(w[0], w[1], w[2])
        } else {
            ColorReading::InvalidHsv
        }
    }
}

/// The reading that a parse result stands for.
pub open spec fn reading_of(r: Result<Color, ColorParseError>) -> ColorReading {
    match r {
        Ok(Color::Rgba { red, green, blue, alpha }) => ColorReading::Rgba(red, green, blue, alpha),
        Ok(Color::Hsv { hue, saturation, value }) => ColorReading::Hsv(
            hue@,
            saturation@,
            value@,
        ),
        Ok(Color::Name(n)) => ColorReading::Named(n@),
        Err(ColorParseError::Empty) => ColorReading::Empty,
        Err(ColorParseError::InvalidRgba(_)) => ColorReading::InvalidRgba,
        Err(ColorParseError::InvalidHsv) => ColorReading::InvalidHsv,
    }
}

fn hex_digit_char(d: u8) -> (r: char)
    requires
        d < 16,
    ensures
        r == hex_digit(d),
{
    if d < 10 {
        (48 + d) as char
    } else {
        (87 + d) as char
    }
}

fn push_hex_byte(out: &mut String, b: u8)
    ensures
        final(out)@ == old(out)@ + hex_byte_text(b),
{
    push_char(out, hex_digit_char(b / 16));
    push_char(out, hex_digit_char(b % 16));
    assert(out@ =~= old(out)@ + hex_byte_text(b));
}

impl Color {
    /// The color as it is written.
    pub open spec fn text(&self) -> Seq<char> {
        match self {
            Color::Rgba { red, green, blue, alpha } => seq!['#'] + hex_byte_text(*red)
                + hex_byte_text(*green) + hex_byte_text(*blue) + hex_byte_text(*alpha),
            Color::Hsv { hue, saturation, value } => hue@ + seq![' '] + saturation@ + seq![' ']
                + value@,
            Color::Name(name) => name@,
        }
    }

    pub fn as_string(&self) -> (r: String)
        ensures
            r@ == self.text(),
    {
        match self {
            Color::Rgba { red, green, blue, alpha } => {
                let mut r = String::new();
                push_char(&mut r, '#');
                push_hex_byte(&mut r, *red);
                push_hex_byte(&mut r, *green);
                push_hex_byte(&mut r, *blue);
                push_hex_byte(&mut r, *alpha);
                assert(r@ =~= self.text());
                r
            },
            Color::Hsv { hue, saturation, value } => {
                let mut r = hue.clone();
                push_char(&mut r, ' ');
                r.append(saturation.as_str());
                push_char(&mut r, ' ');
                r.append(value.as_str());
                assert(r@ =~= self.text());
                r
            },
            Color::Name(name) => name.clone(),
        }
    }

    /// Reads a color from `s` (see [`read_color`]).
    pub fn parse(s: &str) -> (r: Result<Color, ColorParseError>)
        ensures
            reading_of(r) == read_color(s@),
    {
        if s.is_empty() {
            return Err(ColorParseError::Empty);
        }
        let n = s.as_bytes().len();
        if s.get_char(0) == '#' && (n == 9 || n == 7) {
            proof {
                assert(encode_utf8(s@) == encode_scalar(s@[0] as u32) + encode_utf8(s@.drop_first()));
            }
            let tail = s.substring_char(1, s.unicode_len());
            assert(tail@ =~= s@.drop_first());
            match decode_hex(tail) {
                Ok(v) => {
                    let alpha = if n == 9 {
                        v[3]
                    } else {
                        0xFF
                    };
                    Ok(Color::Rgba { red: v[0], green: v[1], blue: v[2], alpha })
                },
                Err(e) => Err(ColorParseError::InvalidRgba(e)),
            }
        } else {
            let words = split_whitespace(s);
            if words.len() == 3 && is_float_text(words[0].as_str()) && is_float_text(
                words[1].as_str(),
            ) && is_float_text(words[2].as_str()) {
                Ok(
                    Color::Hsv {
                        hue: words[0].clone(),
                        saturation: words[1].clone(),
                        value: words[2].clone(),
                    },
                )
            } else {
                Err(ColorParseError::InvalidHsv)
            }
        }
    }
}

proof fn lemma_hex_digit(d: u8)
    requires
        d < 16,
    ensures
        is_hex_digit_byte(hex_digit(d) as u8),
        hex_value(hex_digit(d) as u8) == d,
        hex_digit(d) <= '\u{7f}',
{
}

/// Reading back the text of an RGBA color gives the same four channels.
pub proof fn lemma_rgba_round_trip(red: u8, green: u8, blue: u8, alpha: u8)
    ensures
        read_color(Color::Rgba { red, green, blue, alpha }.text()) == ColorReading::Rgba(
            red,
            green,
            blue,
            alpha,
        ),
{
    let t = Color::Rgba { red, green, blue, alpha }.text();
    let channels = seq![red, green, blue, alpha];
    assert forall|k: int| 0 <= k < 4 implies t[1 + 2 * k] == hex_digit(channels[k] / 16) && t[2
        + 2 * k] == hex_digit(channels[k] % 16) by {}
    assert forall|k: int| 0 <= k < 4 implies {
        &&& is_hex_digit_byte(hex_digit(#[trigger] channels[k] / 16) as u8)
        &&& is_hex_digit_byte(hex_digit(channels[k] % 16) as u8)
        &&& hex_value(hex_digit(channels[k] / 16) as u8) == channels[k] / 16
        &&& hex_value(hex_digit(channels[k] % 16) as u8) == channels[k] % 16
        &&& hex_digit(channels[k] / 16) <= '\u{7f}'
        &&& hex_digit(channels[k] % 16) <= '\u{7f}'
    } by {
        lemma_hex_digit(channels[k] / 16);
        lemma_hex_digit(channels[k] % 16);
    }
    assert(t.len() == 9);
    assert(is_ascii_chars(t)) by {
        assert forall|i: int| 0 <= i < t.len() implies '\0' <= #[trigger] t[i] <= '\u{7f}' by {
            if i > 0 {
                let k = (i - 1) / 2;
                assert(i == 1 + 2 * k || i == 2 + 2 * k);
            }
        }
    }
    is_ascii_chars_encode_utf8(t);
    let tail = t.drop_first();
    assert(is_ascii_chars(tail));
    is_ascii_chars_encode_utf8(tail);
    let digits = encode_utf8(tail);
    assert(digits.len() == 8);
    assert forall|i: int| 0 <= i < 8 implies digits[i] == t[i + 1] as u8 by {}
    assert(hex_text(digits)) by {
        assert forall|i: int| 0 <= i < digits.len() implies is_hex_digit_byte(#[trigger] digits[i]) by {
            let k = i / 2;
            assert(i == 2 * k || i == 2 * k + 1);
        }
    }
    let v = hex_decoded(digits);
    assert forall|k: int| 0 <= k < 4 implies v[k] == channels[k] by {
        assert(digits[2 * k] == hex_digit(channels[k] / 16) as u8);
        assert(digits[2 * k + 1] == hex_digit(channels[k] % 16) as u8);
    }
    assert(v[3] == alpha);
}

impl core::str::FromStr for Color {
    type Err = ColorParseError;

    fn from_str(s: &str) -> Result<Color, ColorParseError> {
        Color::parse(s)
    }
}

} // verus!
