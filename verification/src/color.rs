//! Color command validation.
//!
//! A color command names its color as a string; the boundary must reject an
//! unparsable one with a client error distinct from resolution and server
//! failures.  The accepted grammar: an optional leading `#`, then exactly
//! six hexadecimal digits, two per channel, case-insensitive.

use vstd::prelude::*;

use crate::error::Error;

verus! {

/// An RGB color value.
#[derive(Debug, PartialEq, Eq, Clone, Copy)]
pub struct Color {
    pub red: u8,
    pub green: u8,
    pub blue: u8,
}

/// Whether `c` is a hexadecimal digit.
pub open spec fn is_hex_digit(c: char) -> bool {
    ('0' <= c && c <= '9') || ('a' <= c && c <= 'f') || ('A' <= c && c <= 'F')
}

/// The value of a hexadecimal digit.
pub open spec fn hex_val(c: char) -> int {
    if '0' <= c && c <= '9' {
        c as int - '0' as int
    } else if 'a' <= c && c <= 'f' {
        10 + c as int - 'a' as int
    } else {
        10 + c as int - 'A' as int
    }
}

/// The digits of a color string: everything after an optional leading `#`.
pub open spec fn color_body(s: Seq<char>) -> Seq<char> {
    if s.len() > 0 && s[0] == '#' {
        s.drop_first()
    } else {
        s
    }
}

/// The color a string names, if it parses: exactly six hex digits after the
/// optional `#`, read two per channel.
pub open spec fn color_of(s: Seq<char>) -> Option<Color> {
    let b = color_body(s);
    if b.len() == 6 && (forall|i: int| 0 <= i < 6 ==> is_hex_digit(#[trigger] b[i])) {
        Some(
            Color {
                red: (hex_val(b[0]) * 16 + hex_val(b[1])) as u8,
                green: (hex_val(b[2]) * 16 + hex_val(b[3])) as u8,
                blue: (hex_val(b[4]) * 16 + hex_val(b[5])) as u8,
            },
        )
    } else {
        None
    }
}

/// The value of one hex digit, or `None` if `c` is not a hex digit.
fn hex_digit(c: char) -> (r: Option<u8>)
    ensures
        match r {
            Some(v) => is_hex_digit(c) && v == hex_val(c) && v < 16,
            None => !is_hex_digit(c),
        },
{
    if '0' <= c && c <= '9' {
        Some((c as u8) - ('0' as u8))
    } else if 'a' <= c && c <= 'f' {
        Some(10 + (c as u8) - ('a' as u8))
    } else if 'A' <= c && c <= 'F' {
        Some(10 + (c as u8) - ('A' as u8))
    } else {
        None
    }
}

/// Parse a color string, or reject it with `InvalidColor` naming the
/// offending input.  Returns `Ok` exactly on the strings `color_of` accepts.
pub fn parse_color(s: &str) -> (r: Result<Color, Error>)
    ensures
        match color_of(s@) {
            Some(c) => r == Ok::<Color, Error>(c),
            None => r matches Err(e) && e matches Error::InvalidColor(t) && t@ == s@,
        },
{
    let n = s.unicode_len();
    let start: usize = if n > 0 && s.get_char(0) == '#' {
        1
    } else {
        0
    };
    proof {
        assert(color_body(s@) =~= s@.skip(start as int));
    }
    if n - start != 6 {
        return Err(Error::InvalidColor(s.to_owned()));
    }
    let ghost b = color_body(s@);
    proof {
        assert(b.len() == 6);
        assert(forall|i: int| 0 <= i < 6 ==> b[i] == s@[start as int + i]);
    }
    let d0 = hex_digit(s.get_char(start));
    let d1 = hex_digit(s.get_char(start + 1));
    let d2 = hex_digit(s.get_char(start + 2));
    let d3 = hex_digit(s.get_char(start + 3));
    let d4 = hex_digit(s.get_char(start + 4));
    let d5 = hex_digit(s.get_char(start + 5));
    match (d0, d1, d2, d3, d4, d5) {
        (Some(v0), Some(v1), Some(v2), Some(v3), Some(v4), Some(v5)) => {
            let c = Color {
                red: v0 * 16 + v1,
                green: v2 * 16 + v3,
                blue: v4 * 16 + v5,
            };
            proof {
                assert(color_of(s@) == Some(c));
            }
            Ok(c)
        },
        _ => {
            proof {
                assert(color_of(s@) is None);
            }
            Err(Error::InvalidColor(s.to_owned()))
        },
    }
}

} // verus!
