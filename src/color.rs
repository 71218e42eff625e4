//! Parsing of the optional `RRGGBB` color of a theme entry.
use vstd::prelude::*;

verus! {

/// A color given by its red, green and blue components.
#[derive(Clone, Copy, Debug, PartialEq, Eq, Structural)]
pub struct Rgb {
    pub r: u8,
    pub g: u8,
    pub b: u8,
}

pub open spec fn is_hex_digit(c: char) -> bool {
    ('0' <= c && c <= '9') || ('a' <= c && c <= 'f') || ('A' <= c && c <= 'F')
}

/// The value of a hexadecimal digit, either case.
pub open spec fn hex_value(c: char) -> int {
    if '0' <= c && c <= '9' {
        c as int - '0' as int
    } else if 'a' <= c && c <= 'f' {
        c as int - 'a' as int + 10
    } else {
        c as int - 'A' as int + 10
    }
}

/// The byte written by the two hexadecimal digits `hi` and `lo`.
pub open spec fn hex_byte(hi: char, lo: char) -> u8 {
    (16 * hex_value(hi) + hex_value(lo)) as u8
}

/// `s` without one leading `#`, if it has one.
pub open spec fn strip_hash(s: Seq<char>) -> Seq<char> {
    if s.len() > 0 && s[0] == '#' {
        s.drop_first()
    } else {
        s
    }
}

/// The color written as six hexadecimal digits, optionally after a `#`;
/// anything else writes no color.
pub open spec fn hex_color(s: Seq<char>) -> Option<Rgb> {
    let h = strip_hash(s);
    if h.len() == 6 && forall|i: int| 0 <= i < 6 ==> is_hex_digit(#[trigger] h[i]) {
        Some(
            Rgb {
                r: hex_byte(h[0], h[1]),
                g: hex_byte(h[2], h[3]),
                b: hex_byte(h[4], h[5]),
            },
        )
    } else {
        None
    }
}

/// The color that an entry's optional color text gives.
pub open spec fn color_spec(value: Option<Seq<char>>) -> Option<Rgb> {
    match value {
        Some(v) => hex_color(v),
        None => None,
    }
}

fn hex_digit(c: char) -> (r: Option<u8>)
    ensures
        r == (if is_hex_digit(c) {
            Some(hex_value(c) as u8)
        } else {
            None::<u8>
        }),
        r is Some ==> r->0 < 16,
{
    if '0' <= c && c <= '9' {
        Some((c as u32 - '0' as u32) as u8)
    } else if 'a' <= c && c <= 'f' {
        Some((c as u32 - 'a' as u32 + 10) as u8)
    } else if 'A' <= c && c <= 'F' {
        Some((c as u32 - 'A' as u32 + 10) as u8)
    } else {
        None
    }
}

/// Reads the byte written by the two hexadecimal digits at `at` and `at + 1`.
fn byte_at(s: &str, at: usize) -> (r: Option<u8>)
    requires
        at + 1 < s@.len() <= usize::MAX,
    ensures
        r == (if is_hex_digit(s@[at as int]) && is_hex_digit(s@[at + 1]) {
            Some(hex_byte(s@[at as int], s@[at + 1]))
        } else {
            None::<u8>
        }),
{
    let hi = hex_digit(s.get_char(at));
    let lo = hex_digit(s.get_char(at + 1));
    match (hi, lo) {
        (Some(h), Some(l)) => Some(16 * h + l),
        _ => None,
    }
}

/// Reads a color written as six hexadecimal digits, with or without a
/// leading `#`.
pub fn parse_hex_color(s: &str) -> (r: Option<Rgb>)
    ensures
        r == hex_color(s@),
{
    let n = s.unicode_len();
    let start: usize = if n > 0 && s.get_char(0) == '#' {
        1
    } else {
        0
    };
    let ghost h = strip_hash(s@);
    assert(h =~= s@.subrange(start as int, n as int));
    if n - start != 6 {
        return None;
    }
    let r = byte_at(s, start);
    let g = byte_at(s, start + 2);
    let b = byte_at(s, start + 4);
    match (r, g, b) {
        (Some(r), Some(g), Some(b)) => {
            assert(forall|i: int| 0 <= i < 6 ==> is_hex_digit(#[trigger] h[i])) by {
                assert(forall|i: int| 0 <= i < 6 ==> h[i] == s@[start + i]);
            }
            Some(Rgb { r, g, b })
        },
        _ => {
            assert(!is_hex_digit(h[0]) || !is_hex_digit(h[1]) || !is_hex_digit(h[2])
                || !is_hex_digit(h[3]) || !is_hex_digit(h[4]) || !is_hex_digit(h[5]));
            None
        },
    }
}

/// The color of an entry from its optional color text: text that is not six
/// hexadecimal digits after an optional `#` gives no color.
pub fn parse_color(value: Option<&str>) -> (r: Option<Rgb>)
    ensures
        r == color_spec(
            match value {
                Some(v) => Some(v@),
                None => None,
            },
        ),
{
    match value {
        Some(v) => parse_hex_color(v),
        None => None,
    }
}

} // verus!
