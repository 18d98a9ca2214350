//! An RGBA color, parsed from the `#rrggbb` / `#aarrggbb` strings that map
//! documents carry.
//!
//! Parsing never fails: a string of the wrong shape yields a fixed fallback
//! color, and a non-hex digit counts as zero.  A bad color in authored map
//! data is cosmetic and must not abort a whole load.

use vstd::prelude::*;
use crate::error::LoadError;
use crate::json::JsonField;
use crate::json::JsonValue;
use crate::json::spec_field;

verus! {

/// An RGBA color with 8-bit channels.
#[derive(Debug, Clone, Copy, PartialEq, Eq, Structural)]
pub struct Color {
    pub r: u8,
    pub g: u8,
    pub b: u8,
    pub a: u8,
}

/// The value of one hex digit; a non-hex character counts as zero.
pub open spec fn spec_hex_char_to_u8(hex: char) -> u8 {
    match hex {
        '0' => 0x00,
        '1' => 0x01,
        '2' => 0x02,
        '3' => 0x03,
        '4' => 0x04,
        '5' => 0x05,
        '6' => 0x06,
        '7' => 0x07,
        '8' => 0x08,
        '9' => 0x09,
        'a' | 'A' => 0x0A,
        'b' | 'B' => 0x0B,
        'c' | 'C' => 0x0C,
        'd' | 'D' => 0x0D,
        'e' | 'E' => 0x0E,
        'f' | 'F' => 0x0F,
        _ => 0x00,
    }
}

/// The byte spelled by two hex digits.
pub open spec fn spec_hex_set_to_u8(hex1: char, hex2: char) -> u8 {
    (spec_hex_char_to_u8(hex1) * 16 + spec_hex_char_to_u8(hex2)) as u8
}

/// The uppercase hex digit of a nibble; values above 15 give '0'.
pub open spec fn spec_u8_to_hex_char(n: u8) -> char {
    match n {
        0x00 => '0',
        0x01 => '1',
        0x02 => '2',
        0x03 => '3',
        0x04 => '4',
        0x05 => '5',
        0x06 => '6',
        0x07 => '7',
        0x08 => '8',
        0x09 => '9',
        0x0A => 'A',
        0x0B => 'B',
        0x0C => 'C',
        0x0D => 'D',
        0x0E => 'E',
        0x0F => 'F',
        _ => '0',
    }
}

/// The two uppercase hex digits of a byte.
pub open spec fn spec_u8_to_hex(n: u8) -> Seq<char> {
    seq![spec_u8_to_hex_char(n / 16), spec_u8_to_hex_char(n % 16)]
}

/// What `Color::new` makes of a string: `#rrggbb` or `#aarrggbb` parsed
/// digit by digit, anything else the fallback color.
pub open spec fn spec_parse_color(s: Seq<char>) -> Color {
    if (s.len() != 7 && s.len() != 9) || s[0] != '#' {
        Color { r: 255, g: 0, b: 255, a: 255 }
    } else if s.len() == 9 {
        Color {
            a: spec_hex_set_to_u8(s[1], s[2]),
            r: spec_hex_set_to_u8(s[3], s[4]),
            g: spec_hex_set_to_u8(s[5], s[6]),
            b: spec_hex_set_to_u8(s[7], s[8]),
        }
    } else {
        Color {
            a: 255,
            r: spec_hex_set_to_u8(s[1], s[2]),
            g: spec_hex_set_to_u8(s[3], s[4]),
            b: spec_hex_set_to_u8(s[5], s[6]),
        }
    }
}

impl Color {
    /// Parses a `#rrggbb` or `#aarrggbb` string.
    ///
    /// Fails silently: a string of the wrong length, or one without the
    /// leading `#`, gives the fallback color, and non-hex digits count as
    /// zero.
    pub fn new(string: &str) -> (c: Color)
        ensures
            c == spec_parse_color(string@),
    {
        let length = string.unicode_len();
        if (length != 7 && length != 9) || string.get_char(0) != '#' {
            return Color::default_color();
        }

        let a = if length == 9 {
            hex_set_to_u8(string.get_char(1), string.get_char(2))
        } else {
            255
        };
        let off: usize = if length == 9 { 2 } else { 0 };
        let r = hex_set_to_u8(string.get_char(off + 1), string.get_char(off + 2));
        let g = hex_set_to_u8(string.get_char(off + 3), string.get_char(off + 4));
        let b = hex_set_to_u8(string.get_char(off + 5), string.get_char(off + 6));

        Color { r, g, b, a }
    }

    /// The fallback color that `Color::new` gives for a string of the wrong
    /// shape.
    pub fn default_color() -> (c: Color)
        ensures
            c == (Color { r: 255, g: 0, b: 255, a: 255 }),
    {
        Color { r: 255, g: 0, b: 255, a: 255 }
    }

    /// The fallback color of `Color::new`, spelled as a `#aarrggbb` string.
    pub fn default_color_string() -> (s: String)
        ensures
            s@ == "#FFFF00FF"@,
    {
        "#FFFF00FF".to_owned()
    }

    /// The color as a `#aarrggbb` string with uppercase digits.
    pub fn as_hex_string(&self) -> (s: String)
        ensures
            s@ == seq!['#'] + spec_u8_to_hex(self.a) + spec_u8_to_hex(self.r) + spec_u8_to_hex(
                self.g,
            ) + spec_u8_to_hex(self.b),
    {
        proof {
            reveal_strlit("#");
        }
        let mut s = "#".to_owned();
        let ha = u8_to_hex_string(self.a);
        let hr = u8_to_hex_string(self.r);
        let hg = u8_to_hex_string(self.g);
        let hb = u8_to_hex_string(self.b);
        s.append(ha.as_str());
        s.append(hr.as_str());
        s.append(hg.as_str());
        s.append(hb.as_str());
        proof {
            assert(s@ =~= seq!['#'] + spec_u8_to_hex(self.a) + spec_u8_to_hex(self.r)
                + spec_u8_to_hex(self.g) + spec_u8_to_hex(self.b));
        }
        s
    }

    /// Get the red value.
    pub fn red(self) -> (v: u8)
        ensures
            v == self.r,
    {
        self.r
    }

    /// Get the blue value.
    pub fn blue(self) -> (v: u8)
        ensures
            v == self.b,
    {
        self.b
    }

    /// Get the green value.
    pub fn green(self) -> (v: u8)
        ensures
            v == self.g,
    {
        self.g
    }

    /// Get the alpha value.
    pub fn alpha(self) -> (v: u8)
        ensures
            v == self.a,
    {
        self.a
    }
}

/// The value of one hex digit; a non-hex character counts as zero, so that
/// a sloppy color never aborts a load.
pub fn hex_char_to_u8(hex: char) -> (v: u8)
    ensures
        v == spec_hex_char_to_u8(hex),
        v <= 15,
{
    match hex {
        '0' => 0x00,
        '1' => 0x01,
        '2' => 0x02,
        '3' => 0x03,
        '4' => 0x04,
        '5' => 0x05,
        '6' => 0x06,
        '7' => 0x07,
        '8' => 0x08,
        '9' => 0x09,
        'a' | 'A' => 0x0A,
        'b' | 'B' => 0x0B,
        'c' | 'C' => 0x0C,
        'd' | 'D' => 0x0D,
        'e' | 'E' => 0x0E,
        'f' | 'F' => 0x0F,
        _ => 0x00,
    }
}

/// The byte spelled by two hex digits.
pub fn hex_set_to_u8(hex1: char, hex2: char) -> (v: u8)
    ensures
        v == spec_hex_set_to_u8(hex1, hex2),
{
    let v1 = hex_char_to_u8(hex1);
    let v2 = hex_char_to_u8(hex2);
    proof {
        assert(v1 <= 15 && v2 <= 15 ==> (v1 << 4) == v1 * 16) by (bit_vector);
    }
    (v1 << 4) + v2
}

/// The two uppercase hex digits of a byte, as a string.
pub fn u8_to_hex_string(n: u8) -> (s: String)
    ensures
        s@ == spec_u8_to_hex(n),
{
    proof {
        assert((n >> 4) == n / 16 && (n & 0x0F) == n % 16) by (bit_vector);
    }
    let p1 = nibble_str(n >> 4);
    let p2 = nibble_str(n & 0x0F);
    let mut s = p1.to_owned();
    s.append(p2);
    proof {
        assert(s@ =~= spec_u8_to_hex(n));
    }
    s
}

/// The uppercase hex digit of a nibble.
pub fn u8_to_hex_char(n: u8) -> (c: char)
    ensures
        c == spec_u8_to_hex_char(n),
{
    match n {
        0x00 => '0',
        0x01 => '1',
        0x02 => '2',
        0x03 => '3',
        0x04 => '4',
        0x05 => '5',
        0x06 => '6',
        0x07 => '7',
        0x08 => '8',
        0x09 => '9',
        0x0A => 'A',
        0x0B => 'B',
        0x0C => 'C',
        0x0D => 'D',
        0x0E => 'E',
        0x0F => 'F',
        _ => '0',
    }
}

/// Mirror of `opt_color_field`.
pub open spec fn spec_opt_color(fields: Seq<JsonField>, key: Seq<char>, default: Color) -> Option<
    Color,
> {
    match spec_field(fields, key) {
        None => Some(default),
        Some(JsonValue::Str(s)) => Some(spec_parse_color(s@)),
        Some(_) => None,
    }
}

/// Mirror of `maybe_color_field`: outer `None` means the load fails, inner
/// `None` means the member is absent.
pub open spec fn spec_maybe_color(fields: Seq<JsonField>, key: Seq<char>) -> Option<Option<Color>> {
    match spec_field(fields, key) {
        None => Some(None),
        Some(JsonValue::Str(s)) => Some(Some(spec_parse_color(s@))),
        Some(_) => None,
    }
}

/// An optional color member: absent means `default`, present must be a
/// string (parsed leniently, as `Color::new` does).
pub fn opt_color_field(fields: &Vec<JsonField>, key: &str, default: Color) -> (r: Result<
    Color,
    LoadError,
>)
    ensures
        match spec_opt_color(fields@, key@, default) {
            Some(c) => r matches Ok(x) && x == c,
            None => r matches Err(e) && e is MalformedDocument,
        },
{
    match crate::json::json_field(fields, key) {
        None => Ok(default),
        Some(JsonValue::Str(s)) => Ok(Color::new(s.as_str())),
        Some(_) => Err(LoadError::MalformedDocument),
    }
}

/// An optional color member kept optional: absent stays `None`.
pub fn maybe_color_field(fields: &Vec<JsonField>, key: &str) -> (r: Result<
    Option<Color>,
    LoadError,
>)
    ensures
        match spec_maybe_color(fields@, key@) {
            Some(Some(c)) => r matches Ok(o) && o == Some(c),
            Some(None) => r matches Ok(o) && o is None,
            None => r matches Err(e) && e is MalformedDocument,
        },
{
    match crate::json::json_field(fields, key) {
        None => Ok(None),
        Some(JsonValue::Str(s)) => Ok(Some(Color::new(s.as_str()))),
        Some(_) => Err(LoadError::MalformedDocument),
    }
}

/// The hex digit of a nibble as a one-character string.
fn nibble_str(n: u8) -> (s: &'static str)
    ensures
        s@ == seq![spec_u8_to_hex_char(n)],
{
    proof {
        reveal_strlit("0");
        reveal_strlit("1");
        reveal_strlit("2");
        reveal_strlit("3");
        reveal_strlit("4");
        reveal_strlit("5");
        reveal_strlit("6");
        reveal_strlit("7");
        reveal_strlit("8");
        reveal_strlit("9");
        reveal_strlit("A");
        reveal_strlit("B");
        reveal_strlit("C");
        reveal_strlit("D");
        reveal_strlit("E");
        reveal_strlit("F");
    }
    let s = match n {
        0x00 => "0",
        0x01 => "1",
        0x02 => "2",
        0x03 => "3",
        0x04 => "4",
        0x05 => "5",
        0x06 => "6",
        0x07 => "7",
        0x08 => "8",
        0x09 => "9",
        0x0A => "A",
        0x0B => "B",
        0x0C => "C",
        0x0D => "D",
        0x0E => "E",
        0x0F => "F",
        _ => "0",
    };
    proof {
        assert(s@ =~= seq![spec_u8_to_hex_char(n)]);
    }
    s
}

} // verus!
