//! Colors as text: what a typed color means.
//!
//! A color is typed as `#` and six or eight hexadecimal digits, as `#` and
//! channels between commas, or as `rgb(..)` or `rgba(..)` with channels
//! between commas.  The channels red, green and blue are numbers from 0 to
//! 255.  The opacity of the comma forms is a fraction, which is handed on
//! as it was typed.

use vstd::prelude::*;
use crate::text::{chars_of, digit_char, has_char, has_prefix, hex_byte, hex_value, parse_hex_byte,
    parse_u8, parsed_u8,
    remove_prefixes, remove_trailing, slice, split, split_on, starts_with, string_of,
    strip_prefixes, strip_trailing, trim, trimmed, views};

verus! {

/// How opaque a typed color is.
#[derive(Clone, Debug)]
pub enum Opacity {
    /// Fully opaque: nothing was typed.
    Full,
    /// A byte, of which 255 is fully opaque.
    Byte(u8),
    /// A fraction, as it was typed.
    Fraction(String),
}

/// The mathematical value of an [`Opacity`].
pub enum OpacityView {
    Full,
    Byte(u8),
    Fraction(Seq<char>),
}

impl View for Opacity {
    type V = OpacityView;

    open spec fn view(&self) -> OpacityView {
        match *self {
            Opacity::Full => OpacityView::Full,
            Opacity::Byte(b) => OpacityView::Byte(b),
            Opacity::Fraction(t) => OpacityView::Fraction(t@),
        }
    }
}

/// A typed color.
#[derive(Clone, Debug)]
pub struct TypedColor {
    pub red: u8,
    pub green: u8,
    pub blue: u8,
    pub opacity: Opacity,
}

/// The mathematical value of a [`TypedColor`].
pub struct TypedColorView {
    pub red: u8,
    pub green: u8,
    pub blue: u8,
    pub opacity: OpacityView,
}

impl View for TypedColor {
    type V = TypedColorView;

    open spec fn view(&self) -> TypedColorView {
        TypedColorView {
            red: self.red,
            green: self.green,
            blue: self.blue,
            opacity: self.opacity@,
        }
    }
}

/// Whether a text is a color being typed: it begins with `#`, `rgb(` or
/// `rgba(`.
pub open spec fn is_color_text(text: Seq<char>) -> bool {
    starts_with(text, "#"@) || starts_with(text, "rgb("@) || starts_with(text, "rgba("@)
}

/// The length of a text in bytes.
pub open spec fn byte_len(text: Seq<char>) -> nat {
    vstd::utf8::encode_utf8(text).len()
}

/// The color that hexadecimal digits denote: six digits, or eight with the
/// opacity.
pub open spec fn hex_color(digits: Seq<char>) -> Option<TypedColorView> {
    if digits.len() == 6 || digits.len() == 8 {
        match (
            hex_byte(digits[0], digits[1]),
            hex_byte(digits[2], digits[3]),
            hex_byte(digits[4], digits[5]),
        ) {
            (Some(r), Some(g), Some(b)) => {
                if digits.len() == 6 {
                    Some(TypedColorView { red: r, green: g, blue: b, opacity: OpacityView::Full })
                } else {
                    match hex_byte(digits[6], digits[7]) {
                        Some(a) => Some(
                            TypedColorView {
                                red: r,
                                green: g,
                                blue: b,
                                opacity: OpacityView::Byte(a),
                            },
                        ),
                        None => None,
                    }
                }
            },
            _ => None,
        }
    } else {
        None
    }
}

/// The color that channels between commas denote: three channels, or four
/// with the opacity, each taken without white space around it.
pub open spec fn channel_color(channels: Seq<char>) -> Option<TypedColorView> {
    let parts = split_on(channels, ',');
    if parts.len() == 3 || parts.len() == 4 {
        match (
            parsed_u8(trimmed(parts[0])),
            parsed_u8(trimmed(parts[1])),
            parsed_u8(trimmed(parts[2])),
        ) {
            (Some(r), Some(g), Some(b)) => Some(
                TypedColorView {
                    red: r,
                    green: g,
                    blue: b,
                    opacity: if parts.len() == 4 {
                        OpacityView::Fraction(trimmed(parts[3]))
                    } else {
                        OpacityView::Full
                    },
                },
            ),
            _ => None,
        }
    } else {
        None
    }
}

/// The color that a text denotes, if it denotes one.  A text of `#` and
/// six or eight more bytes is read as hexadecimal digits; any other text
/// with `#` in front as channels, if it has a comma.  What stands in
/// `rgb(..)` or `rgba(..)` is read as channels.
pub open spec fn typed_color(text: Seq<char>) -> Option<TypedColorView> {
    if starts_with(text, "#"@) {
        if byte_len(text) == 7 || byte_len(text) == 9 {
            hex_color(text.skip(1))
        } else if text.contains(',') {
            channel_color(text.skip(1))
        } else {
            None
        }
    } else if starts_with(text, "rgba("@) {
        channel_color(strip_trailing(strip_prefixes(text, "rgba("@), ')'))
    } else if starts_with(text, "rgb("@) {
        channel_color(strip_trailing(strip_prefixes(text, "rgb("@), ')'))
    } else {
        None
    }
}

/// Whether `text` is a color being typed.
pub fn is_color_query(text: &str) -> (r: bool)
    ensures
        r == is_color_text(text@),
{
    let t = chars_of(text);
    has_prefix(&t, &chars_of("#")) || has_prefix(&t, &chars_of("rgb(")) || has_prefix(
        &t,
        &chars_of("rgba("),
    )
}

fn color_of_hex(digits: &Vec<char>) -> (r: Option<TypedColor>)
    ensures
        match r {
            Some(c) => hex_color(digits@) == Some(c@),
            None => hex_color(digits@) is None,
        },
{
    if digits.len() != 6 && digits.len() != 8 {
        return None;
    }
    let red = parse_hex_byte(digits[0], digits[1]);
    let green = parse_hex_byte(digits[2], digits[3]);
    let blue = parse_hex_byte(digits[4], digits[5]);
    match (red, green, blue) {
        (Some(r), Some(g), Some(b)) => {
            if digits.len() == 6 {
                Some(TypedColor { red: r, green: g, blue: b, opacity: Opacity::Full })
            } else {
                match parse_hex_byte(digits[6], digits[7]) {
                    Some(a) => Some(
                        TypedColor { red: r, green: g, blue: b, opacity: Opacity::Byte(a) },
                    ),
                    None => None,
                }
            }
        },
        _ => None,
    }
}

fn color_of_channels(channels: &Vec<char>) -> (r: Option<TypedColor>)
    ensures
        match r {
            Some(c) => channel_color(channels@) == Some(c@),
            None => channel_color(channels@) is None,
        },
{
    let parts = split(channels, ',');
    if parts.len() != 3 && parts.len() != 4 {
        return None;
    }
    assert(views(parts@)[0] == parts@[0]@);
    assert(views(parts@)[1] == parts@[1]@);
    assert(views(parts@)[2] == parts@[2]@);
    let red = parse_u8(&trim(&parts[0]));
    let green = parse_u8(&trim(&parts[1]));
    let blue = parse_u8(&trim(&parts[2]));
    match (red, green, blue) {
        (Some(r), Some(g), Some(b)) => {
            let opacity = if parts.len() == 4 {
                assert(views(parts@)[3] == parts@[3]@);
                Opacity::Fraction(string_of(&trim(&parts[3])))
            } else {
                Opacity::Full
            };
            Some(TypedColor { red: r, green: g, blue: b, opacity })
        },
        _ => None,
    }
}

/// The color that `text` denotes, if it denotes one.
pub fn parse_color(text: &str) -> (r: Option<TypedColor>)
    ensures
        match r {
            Some(c) => typed_color(text@) == Some(c@),
            None => typed_color(text@) is None,
        },
{
    let t = chars_of(text);
    if has_prefix(&t, &chars_of("#")) {
        proof {
            reveal_strlit("#");
        }
        let rest = slice(&t, 1, t.len());
        assert(rest@ =~= t@.skip(1));
        let bytes: usize = text.as_bytes().len();
        assert(bytes == byte_len(text@));
        if bytes == 7 || bytes == 9 {
            color_of_hex(&rest)
        } else if has_char(&t, ',') {
            color_of_channels(&rest)
        } else {
            None
        }
    } else if has_prefix(&t, &chars_of("rgba(")) {
        let inner = remove_trailing(&remove_prefixes(&t, &chars_of("rgba(")), ')');
        color_of_channels(&inner)
    } else if has_prefix(&t, &chars_of("rgb(")) {
        let inner = remove_trailing(&remove_prefixes(&t, &chars_of("rgb(")), ')');
        color_of_channels(&inner)
    } else {
        None
    }
}


/// The character of a hexadecimal digit value, in upper case.
pub open spec fn hex_digit(d: nat) -> char {
    if d < 10 {
        digit_char(d)
    } else if d == 10 {
        'A'
    } else if d == 11 {
        'B'
    } else if d == 12 {
        'C'
    } else if d == 13 {
        'D'
    } else if d == 14 {
        'E'
    } else {
        'F'
    }
}

/// A color as text: `#` and two hexadecimal digits, in upper case, for
/// each of red, green, blue and the opacity.
pub open spec fn hex_code_of(red: u8, green: u8, blue: u8, alpha: u8) -> Seq<char> {
    seq![
        '#',
        hex_digit(red as nat / 16),
        hex_digit(red as nat % 16),
        hex_digit(green as nat / 16),
        hex_digit(green as nat % 16),
        hex_digit(blue as nat / 16),
        hex_digit(blue as nat % 16),
        hex_digit(alpha as nat / 16),
        hex_digit(alpha as nat % 16),
    ]
}

fn digit_of(d: u8) -> (c: char)
    requires
        d < 16,
    ensures
        c == hex_digit(d as nat),
{
    if d == 0 {
        '0'
    } else if d == 1 {
        '1'
    } else if d == 2 {
        '2'
    } else if d == 3 {
        '3'
    } else if d == 4 {
        '4'
    } else if d == 5 {
        '5'
    } else if d == 6 {
        '6'
    } else if d == 7 {
        '7'
    } else if d == 8 {
        '8'
    } else if d == 9 {
        '9'
    } else if d == 10 {
        'A'
    } else if d == 11 {
        'B'
    } else if d == 12 {
        'C'
    } else if d == 13 {
        'D'
    } else if d == 14 {
        'E'
    } else {
        'F'
    }
}

/// The color as `#` and eight hexadecimal digits.
pub fn hex_code(red: u8, green: u8, blue: u8, alpha: u8) -> (r: String)
    ensures
        r@ == hex_code_of(red, green, blue, alpha),
{
    let mut out: Vec<char> = Vec::new();
    out.push('#');
    out.push(digit_of(red / 16));
    out.push(digit_of(red % 16));
    out.push(digit_of(green / 16));
    out.push(digit_of(green % 16));
    out.push(digit_of(blue / 16));
    out.push(digit_of(blue % 16));
    out.push(digit_of(alpha / 16));
    out.push(digit_of(alpha % 16));
    assert(out@ =~= hex_code_of(red, green, blue, alpha));
    string_of(&out)
}

/// The digits of a hexadecimal digit value denote that value.
proof fn lemma_hex_digit_reads_back(d: nat)
    requires
        d < 16,
    ensures
        hex_value(hex_digit(d)) == Some(d),
{
}

/// A color written by [`hex_code`] is read back as the same color.
pub proof fn lemma_hex_code_reads_back(red: u8, green: u8, blue: u8, alpha: u8)
    ensures
        hex_color(hex_code_of(red, green, blue, alpha).skip(1)) == Some(
            TypedColorView { red, green, blue, opacity: OpacityView::Byte(alpha) },
        ),
{
    let digits = hex_code_of(red, green, blue, alpha).skip(1);
    lemma_hex_digit_reads_back(red as nat / 16);
    lemma_hex_digit_reads_back(red as nat % 16);
    lemma_hex_digit_reads_back(green as nat / 16);
    lemma_hex_digit_reads_back(green as nat % 16);
    lemma_hex_digit_reads_back(blue as nat / 16);
    lemma_hex_digit_reads_back(blue as nat % 16);
    lemma_hex_digit_reads_back(alpha as nat / 16);
    lemma_hex_digit_reads_back(alpha as nat % 16);
    assert(digits.len() == 8);
    assert(digits[0] == hex_digit(red as nat / 16) && digits[1] == hex_digit(red as nat % 16));
    assert(digits[2] == hex_digit(green as nat / 16) && digits[3] == hex_digit(green as nat % 16));
    assert(digits[4] == hex_digit(blue as nat / 16) && digits[5] == hex_digit(blue as nat % 16));
    assert(digits[6] == hex_digit(alpha as nat / 16) && digits[7] == hex_digit(alpha as nat % 16));
    assert(hex_byte(digits[0], digits[1]) == Some(red));
    assert(hex_byte(digits[2], digits[3]) == Some(green));
    assert(hex_byte(digits[4], digits[5]) == Some(blue));
    assert(hex_byte(digits[6], digits[7]) == Some(alpha));
}

} // verus!
