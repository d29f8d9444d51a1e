//! Two-way codec between a color and its six-hex-digit text form.
use vstd::prelude::*;
use vstd::arithmetic::div_mod::{lemma_basic_div, lemma_div_decreases, lemma_div_non_zero, lemma_small_mod};

use crate::color::Rgb;

verus! {

/// Why a text could not be read as a color.
#[derive(Clone, Copy, Debug, PartialEq, Eq, Structural)]
pub enum ColorError {
    /// Fewer than six characters.
    TooShort,
    /// One of the first six characters is not a hex digit.
    InvalidDigit,
}

/// The digits of every radix up to 36, in value order.
pub open spec fn digit_alphabet() -> Seq<char> {
    seq![
        '0', '1', '2', '3', '4', '5', '6', '7', '8', '9',
        'a', 'b', 'c', 'd', 'e', 'f', 'g', 'h', 'i', 'j',
        'k', 'l', 'm', 'n', 'o', 'p', 'q', 'r', 's', 't',
        'u', 'v', 'w', 'x', 'y', 'z',
    ]
}

/// Digits of `x` in base `radix`, most significant first, without leading zeros
/// (zero itself is the single digit `0`).
pub open spec fn radix_digits(x: nat, radix: nat) -> Seq<char>
    decreases x,
    via radix_digits_decreases
{
    if radix < 2 || radix > 36 {
        Seq::empty()
    } else if x < radix {
        seq![digit_alphabet()[x as int]]
    } else {
        radix_digits(x / radix, radix).push(digit_alphabet()[(x % radix) as int])
    }
}

#[via_fn]
proof fn radix_digits_decreases(x: nat, radix: nat) {
    if 2 <= radix && radix <= 36 && x >= radix {
        lemma_div_decreases(x as int, radix as int);
    }
}

/// A channel as exactly two lower-case hex digits.
pub open spec fn channel_hex(v: u8) -> Seq<char> {
    seq![digit_alphabet()[(v / 16) as int], digit_alphabet()[(v % 16) as int]]
}

/// The six-digit text of a color: red, green, blue, each zero-padded to two digits.
pub open spec fn color_hex(c: Rgb) -> Seq<char> {
    channel_hex(c.r) + channel_hex(c.g) + channel_hex(c.b)
}

/// The value of a hex digit of either case.
pub open spec fn hex_digit_value(c: char) -> Option<u8> {
    let v = c as u32;
    if 48 <= v <= 57 {
        Some((v - 48) as u8)
    } else if 97 <= v <= 102 {
        Some((v - 87) as u8)
    } else if 65 <= v <= 70 {
        Some((v - 55) as u8)
    } else {
        None
    }
}

/// The byte written by two hex digits, high digit first.
pub open spec fn hex_byte(hi: char, lo: char) -> Option<u8> {
    match (hex_digit_value(hi), hex_digit_value(lo)) {
        (Some(h), Some(l)) => Some((h * 16 + l) as u8),
        _ => None,
    }
}

/// The color that a text denotes: its first six characters, read as three hex pairs
/// in the order red, green, blue. Characters past the sixth are not read.
pub open spec fn parse_color(s: Seq<char>) -> Result<Rgb, ColorError> {
    if s.len() < 6 {
        Err(ColorError::TooShort)
    } else {
        match (hex_byte(s[0], s[1]), hex_byte(s[2], s[3]), hex_byte(s[4], s[5])) {
            (Some(r), Some(g), Some(b)) => Ok(Rgb { r, g, b }),
            _ => Err(ColorError::InvalidDigit),
        }
    }
}

/// Writes `x` in base `radix` with the digits `0-9a-z`, most significant first.
pub fn format_radix(x: u32, radix: u32) -> (r: String)
    requires
        2 <= radix <= 36,
    ensures
        r@ == radix_digits(x as nat, radix as nat),
{
    let digits = "0123456789abcdefghijklmnopqrstuvwxyz";
    proof {
        reveal_strlit("0123456789abcdefghijklmnopqrstuvwxyz");
        assert(digits@ =~= digit_alphabet());
    }
    let ghost x0 = x as nat;
    let mut x = x;
    let m = x % radix;
    let first = digits.substring_char(m as usize, m as usize + 1);
    assert(first@ =~= seq![digit_alphabet()[m as int]]);
    let mut result = String::from_str(first);
    x = x / radix;
    proof {
        if x0 >= radix as nat {
            assert(radix_digits(x0, radix as nat) =~= radix_digits(x as nat, radix as nat)
                + result@);
        }
    }
    while x > 0
        invariant
            2 <= radix <= 36,
            digits@ == digit_alphabet(),
            radix_digits(x0, radix as nat) == (if x == 0 {
                result@
            } else {
                radix_digits(x as nat, radix as nat) + result@
            }),
        decreases x,
    {
        let m = x % radix;
        let piece = digits.substring_char(m as usize, m as usize + 1);
        assert(piece@ =~= seq![digit_alphabet()[m as int]]);
        let ghost before = result@;
        result = String::from_str(piece).concat(result.as_str());
        let ghost xs = x as nat;
        x = x / radix;
        proof {
            lemma_div_decreases(xs as int, radix as int);
            if xs >= radix as nat {
                lemma_div_non_zero(xs as int, radix as int);
                assert(radix_digits(xs, radix as nat) + before =~= radix_digits(
                    x as nat,
                    radix as nat,
                ) + result@);
            } else {
                lemma_small_mod(xs, radix as nat);
                lemma_basic_div(xs as int, radix as int);
                assert(radix_digits(xs, radix as nat) + before =~= result@);
            }
        }
    }
    result
}

proof fn lemma_byte_radix16(v: u8)
    ensures
        v < 16 ==> radix_digits(v as nat, 16) == seq![digit_alphabet()[v as int]],
        v >= 16 ==> radix_digits(v as nat, 16) == channel_hex(v),
{
    if v >= 16 {
        assert(radix_digits((v / 16) as nat, 16) == seq![digit_alphabet()[(v / 16) as int]]);
        assert(radix_digits(v as nat, 16) =~= channel_hex(v));
    }
}

/// Two lower-case hex digits for one channel, padded with a leading zero.
fn channel_to_hex(v: u8) -> (r: String)
    ensures
        r@ == channel_hex(v),
{
    let s = format_radix(v as u32, 16);
    proof {
        lemma_byte_radix16(v);
    }
    if v < 16 {
        let zero = "0";
        proof {
            reveal_strlit("0");
        }
        let r = String::from_str(zero).concat(s.as_str());
        assert(r@ =~= channel_hex(v));
        r
    } else {
        s
    }
}

/// Encodes a color as six lower-case hex digits, red, green, blue in that order.
pub fn string_from_col(color: &Rgb) -> (r: String)
    ensures
        r@ == color_hex(*color),
        r@.len() == 6,
{
    let red = channel_to_hex(color.r);
    let green = channel_to_hex(color.g);
    let blue = channel_to_hex(color.b);
    let r = red.concat(green.as_str()).concat(blue.as_str());
    r
}

/// The value of one hex digit, if it is one.
fn hex_digit(c: char) -> (r: Option<u8>)
    ensures
        r == hex_digit_value(c),
{
    let v = c as u32;
    if 48 <= v && v <= 57 {
        Some((v - 48) as u8)
    } else if 97 <= v && v <= 102 {
        Some((v - 87) as u8)
    } else if 65 <= v && v <= 70 {
        Some((v - 55) as u8)
    } else {
        None
    }
}

/// The byte written by two hex digits, if both are digits.
fn hex_pair(hi: char, lo: char) -> (r: Option<u8>)
    ensures
        r == hex_byte(hi, lo),
{
    match (hex_digit(hi), hex_digit(lo)) {
        (Some(h), Some(l)) => Some(h * 16 + l),
        _ => None,
    }
}

/// Decodes a color from the first six characters of `string`.
pub fn col_from_str(string: &str) -> (r: Result<Rgb, ColorError>)
    ensures
        r == parse_color(string@),
{
    let len = string.unicode_len();
    if len < 6 {
        return Err(ColorError::TooShort);
    }
    let red = hex_pair(string.get_char(0), string.get_char(1));
    let green = hex_pair(string.get_char(2), string.get_char(3));
    let blue = hex_pair(string.get_char(4), string.get_char(5));
    match (red, green, blue) {
        (Some(r), Some(g), Some(b)) => Ok(Rgb { r, g, b }),
        _ => Err(ColorError::InvalidDigit),
    }
}

/// Decodes a color from an owned text; see [`col_from_str`].
pub fn col_from_string(string: String) -> (r: Result<Rgb, ColorError>)
    ensures
        r == parse_color(string@),
{
    col_from_str(string.as_str())
}

proof fn lemma_hex_digit_round_trip(d: u8)
    requires
        d < 16,
    ensures
        hex_digit_value(digit_alphabet()[d as int]) == Some(d),
{
    let a = digit_alphabet();
    if d == 0 { assert(a[0] == '0'); }
    else if d == 1 { assert(a[1] == '1'); }
    else if d == 2 { assert(a[2] == '2'); }
    else if d == 3 { assert(a[3] == '3'); }
    else if d == 4 { assert(a[4] == '4'); }
    else if d == 5 { assert(a[5] == '5'); }
    else if d == 6 { assert(a[6] == '6'); }
    else if d == 7 { assert(a[7] == '7'); }
    else if d == 8 { assert(a[8] == '8'); }
    else if d == 9 { assert(a[9] == '9'); }
    else if d == 10 { assert(a[10] == 'a'); }
    else if d == 11 { assert(a[11] == 'b'); }
    else if d == 12 { assert(a[12] == 'c'); }
    else if d == 13 { assert(a[13] == 'd'); }
    else if d == 14 { assert(a[14] == 'e'); }
    else { assert(a[15] == 'f'); }
}

proof fn lemma_channel_round_trip(v: u8)
    ensures
        hex_byte(channel_hex(v)[0], channel_hex(v)[1]) == Some(v),
{
    lemma_hex_digit_round_trip(v / 16);
    lemma_hex_digit_round_trip(v % 16);
    assert((v / 16) * 16 + v % 16 == v) by (nonlinear_arith);
}

/// Decoding the text of any color gives that color back: the encoding pads every
/// channel to two digits, so this holds for channels below 16 as well.
pub proof fn lemma_color_round_trip(c: Rgb)
    ensures
        parse_color(color_hex(c)) == Ok::<Rgb, ColorError>(c),
{
    let s = color_hex(c);
    lemma_channel_round_trip(c.r);
    lemma_channel_round_trip(c.g);
    lemma_channel_round_trip(c.b);
    assert(s[0] == channel_hex(c.r)[0] && s[1] == channel_hex(c.r)[1]);
    assert(s[2] == channel_hex(c.g)[0] && s[3] == channel_hex(c.g)[1]);
    assert(s[4] == channel_hex(c.b)[0] && s[5] == channel_hex(c.b)[1]);
}

} // verus!
