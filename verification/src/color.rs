//! RGBA color model: parsing `#RRGGBB` / `#RRGGBBAA` literals, serializing
//! back to uppercase `#RRGGBBAA`, and additive (saturating) blending, used
//! to compute alternating-tint colors.

use vstd::prelude::*;

use crate::errors::Error;

verus! {

/// A character that may appear in a color literal after the leading `#`.
pub open spec fn is_hex_digit(c: char) -> bool {
    ('0' <= c && c <= '9') || ('a' <= c && c <= 'f') || ('A' <= c && c <= 'F')
}

/// Numeric value of a hexadecimal digit character.
pub open spec fn hex_val(c: char) -> int
    recommends
        is_hex_digit(c),
{
    if '0' <= c && c <= '9' {
        c as int - '0' as int
    } else if 'a' <= c && c <= 'f' {
        c as int - 'a' as int + 10
    } else {
        c as int - 'A' as int + 10
    }
}

/// The literal has the right frame: a `#` followed by 6 or 8 characters.
pub open spec fn color_shape_ok(s: Seq<char>) -> bool {
    (s.len() == 7 || s.len() == 9) && s[0] == '#'
}

/// A well-formed color literal: `#` followed by 6 or 8 hex digits.
pub open spec fn spec_color_ok(s: Seq<char>) -> bool {
    color_shape_ok(s) && (forall|i: int| 1 <= i < s.len() ==> is_hex_digit(#[trigger] s[i]))
}

/// The byte encoded by the two hex digits at positions `i`, `i + 1`.
pub open spec fn spec_byte_at(s: Seq<char>, i: int) -> int {
    16 * hex_val(s[i]) + hex_val(s[i + 1])
}

/// The channels of a well-formed color literal; alpha defaults to 255 when
/// only 6 digits are given.
pub open spec fn spec_parse_color(s: Seq<char>) -> (u8, u8, u8, u8)
    recommends
        spec_color_ok(s),
{
    (
        spec_byte_at(s, 1) as u8,
        spec_byte_at(s, 3) as u8,
        spec_byte_at(s, 5) as u8,
        if s.len() == 9 {
            spec_byte_at(s, 7) as u8
        } else {
            255u8
        },
    )
}

/// Index of the first non-hex character at or after position `i`, or the
/// length of the sequence when every remaining character is a hex digit.
pub open spec fn first_nonhex(s: Seq<char>, i: int) -> int
    recommends
        0 <= i <= s.len(),
    decreases s.len() - i when 0 <= i <= s.len()
{
    if i >= s.len() {
        s.len() as int
    } else if !is_hex_digit(s[i]) {
        i
    } else {
        first_nonhex(s, i + 1)
    }
}

/// The substring reported by a failed parse: the whole literal when its
/// frame is wrong, else the two-digit group holding the first non-hex
/// character.
pub open spec fn spec_color_offender(s: Seq<char>) -> Seq<char>
    recommends
        !spec_color_ok(s),
{
    if !color_shape_ok(s) {
        s
    } else {
        let k = (first_nonhex(s, 1) - 1) / 2;
        s.subrange(1 + 2 * k, 3 + 2 * k)
    }
}

proof fn lemma_first_nonhex(s: Seq<char>, i: int, p: int)
    requires
        0 <= i <= p < s.len(),
        forall|j: int| i <= j < p ==> is_hex_digit(#[trigger] s[j]),
        !is_hex_digit(s[p]),
    ensures
        first_nonhex(s, i) == p,
    decreases p - i,
{
    if i < p {
        lemma_first_nonhex(s, i + 1, p);
    }
}

/// Numeric value of one hex digit character, or `None` for any other
/// character.
fn hex_digit_val(c: char) -> (r: Option<u8>)
    ensures
        r is Some <==> is_hex_digit(c),
        r matches Some(v) ==> v == hex_val(c) && v < 16,
{
    let u = c as u32;
    if u >= '0' as u32 && u <= '9' as u32 {
        Some((u - '0' as u32) as u8)
    } else if u >= 'a' as u32 && u <= 'f' as u32 {
        Some((u - 'a' as u32 + 10) as u8)
    } else if u >= 'A' as u32 && u <= 'F' as u32 {
        Some((u - 'A' as u32 + 10) as u8)
    } else {
        None
    }
}

/// Reads the two hex digits at the odd position `i` of a framed color
/// literal; on failure reports the offending two-character group.
fn hex_byte_at(s: &str, i: usize) -> (r: Result<u8, Error>)
    requires
        color_shape_ok(s@),
        1 <= i,
        i + 1 < s@.len(),
        i % 2 == 1,
        forall|j: int| 1 <= j < i ==> is_hex_digit(#[trigger] s@[j]),
    ensures
        (is_hex_digit(s@[i as int]) && is_hex_digit(s@[i + 1])) ==> (r matches Ok(v) && v
            == spec_byte_at(s@, i as int)),
        !(is_hex_digit(s@[i as int]) && is_hex_digit(s@[i + 1])) ==> (r matches Err(e)
            && e matches Error::InvalidColor(t) && t@ == spec_color_offender(s@)),
{
    let hi = hex_digit_val(s.get_char(i));
    let lo = hex_digit_val(s.get_char(i + 1));
    match (hi, lo) {
        (Some(h), Some(l)) => Ok(16 * h + l),
        (hi, lo) => {
            proof {
                let p: int = if hi is None {
                    i as int
                } else {
                    i + 1
                };
                lemma_first_nonhex(s@, 1, p);
                assert(first_nonhex(s@, 1) == p);
                assert((p - 1) / 2 == (i - 1) / 2 as int);
                assert(1 + 2 * ((i - 1) / 2 as int) == i);
            }
            Err(Error::InvalidColor(s.substring_char(i, i + 2).to_owned()))
        },
    }
}

/// Parses a `#RRGGBB` or `#RRGGBBAA` literal into its four 8-bit channels;
/// alpha defaults to 255 when omitted. Rejects anything else with
/// [`Error::InvalidColor`] naming the offending substring.
pub fn color_from_rgba(color: &str) -> (res: Result<(u8, u8, u8, u8), Error>)
    ensures
        spec_color_ok(color@) ==> (res matches Ok(c) && c == spec_parse_color(color@)),
        !spec_color_ok(color@) ==> (res matches Err(e) && e matches Error::InvalidColor(t) && t@
            == spec_color_offender(color@)),
{
    let n = color.unicode_len();
    if !(n == 7 || n == 9) {
        return Err(Error::InvalidColor(color.to_owned()));
    }
    if color.get_char(0) != '#' {
        return Err(Error::InvalidColor(color.to_owned()));
    }
    let r = match hex_byte_at(color, 1) {
        Ok(v) => v,
        Err(e) => {
            return Err(e);
        },
    };
    let g = match hex_byte_at(color, 3) {
        Ok(v) => v,
        Err(e) => {
            return Err(e);
        },
    };
    let b = match hex_byte_at(color, 5) {
        Ok(v) => v,
        Err(e) => {
            return Err(e);
        },
    };
    let a = if n == 9 {
        match hex_byte_at(color, 7) {
            Ok(v) => v,
            Err(e) => {
                return Err(e);
            },
        }
    } else {
        255
    };
    proof {
        assert forall|i: int| 1 <= i < color@.len() implies is_hex_digit(#[trigger] color@[i]) by {
            if i == 1 || i == 2 {
                assert(is_hex_digit(color@[i]));
            } else if i == 3 || i == 4 {
                assert(is_hex_digit(color@[i]));
            } else if i == 5 || i == 6 {
                assert(is_hex_digit(color@[i]));
            } else {
                assert(is_hex_digit(color@[i]));
            }
        }
    }
    Ok((r, g, b, a))
}

/// Uppercase hex digit character for a value below sixteen.
pub open spec fn hex_upper(v: int) -> char {
    if v == 0 {
        '0'
    } else if v == 1 {
        '1'
    } else if v == 2 {
        '2'
    } else if v == 3 {
        '3'
    } else if v == 4 {
        '4'
    } else if v == 5 {
        '5'
    } else if v == 6 {
        '6'
    } else if v == 7 {
        '7'
    } else if v == 8 {
        '8'
    } else if v == 9 {
        '9'
    } else if v == 10 {
        'A'
    } else if v == 11 {
        'B'
    } else if v == 12 {
        'C'
    } else if v == 13 {
        'D'
    } else if v == 14 {
        'E'
    } else {
        'F'
    }
}

/// Two uppercase hex digit characters for a byte value.
pub open spec fn spec_hex_pair(b: int) -> Seq<char> {
    seq![hex_upper(b / 16), hex_upper(b % 16)]
}

/// The canonical uppercase `#RRGGBBAA` rendering of a color.
pub open spec fn spec_color_str(c: (u8, u8, u8, u8)) -> Seq<char> {
    seq!['#'] + spec_hex_pair(c.0 as int) + spec_hex_pair(c.1 as int) + spec_hex_pair(c.2 as int)
        + spec_hex_pair(c.3 as int)
}

fn hex_char(v: u8) -> (c: char)
    requires
        v < 16,
    ensures
        c == hex_upper(v as int),
{
    if v == 0 {
        '0'
    } else if v == 1 {
        '1'
    } else if v == 2 {
        '2'
    } else if v == 3 {
        '3'
    } else if v == 4 {
        '4'
    } else if v == 5 {
        '5'
    } else if v == 6 {
        '6'
    } else if v == 7 {
        '7'
    } else if v == 8 {
        '8'
    } else if v == 9 {
        '9'
    } else if v == 10 {
        'A'
    } else if v == 11 {
        'B'
    } else if v == 12 {
        'C'
    } else if v == 13 {
        'D'
    } else if v == 14 {
        'E'
    } else {
        'F'
    }
}

/// Serializes a color as uppercase `#RRGGBBAA`, alpha always included.
pub fn color_to_rgba(color: (u8, u8, u8, u8)) -> (r: String)
    ensures
        r@ == spec_color_str(color),
{
    let mut s = String::new();
    crate::text::push_char(&mut s, '#');
    crate::text::push_char(&mut s, hex_char(color.0 / 16));
    crate::text::push_char(&mut s, hex_char(color.0 % 16));
    crate::text::push_char(&mut s, hex_char(color.1 / 16));
    crate::text::push_char(&mut s, hex_char(color.1 % 16));
    crate::text::push_char(&mut s, hex_char(color.2 / 16));
    crate::text::push_char(&mut s, hex_char(color.2 % 16));
    crate::text::push_char(&mut s, hex_char(color.3 / 16));
    crate::text::push_char(&mut s, hex_char(color.3 % 16));
    proof {
        assert(s@ =~= spec_color_str(color));
    }
    s
}

/// One channel of the additive blend: the sum, capped at 255.
pub open spec fn sat_add_u8(a: u8, b: u8) -> u8 {
    if a + b > 255 {
        255u8
    } else {
        (a + b) as u8
    }
}

/// Channel-wise saturating sum of two colors.
pub open spec fn spec_add_colors(x: (u8, u8, u8, u8), y: (u8, u8, u8, u8)) -> (u8, u8, u8, u8) {
    (sat_add_u8(x.0, y.0), sat_add_u8(x.1, y.1), sat_add_u8(x.2, y.2), sat_add_u8(x.3, y.3))
}

fn sat_add(a: u8, b: u8) -> (r: u8)
    ensures
        r == sat_add_u8(a, b),
{
    let sum = a as u16 + b as u16;
    if sum > 255 {
        255
    } else {
        sum as u8
    }
}

/// Additive tint blending on optional color literals: no base color yields
/// no color, a missing tint leaves the base unchanged, and two literals are
/// parsed, summed channel-wise with saturation, and re-serialized.
pub fn add_colors(a: Option<&str>, b: Option<&str>) -> (res: Result<Option<String>, Error>)
    ensures
        match (a, b) {
            (None, _) => res matches Ok(r) && r is None,
            (Some(x), None) => res matches Ok(r) && r matches Some(s) && s@ == x@,
            (Some(x), Some(y)) => {
                if spec_color_ok(x@) && spec_color_ok(y@) {
                    res matches Ok(r) && r matches Some(s) && s@ == spec_color_str(
                        spec_add_colors(spec_parse_color(x@), spec_parse_color(y@)),
                    )
                } else if !spec_color_ok(x@) {
                    res matches Err(e) && e matches Error::InvalidColor(t) && t@
                        == spec_color_offender(x@)
                } else {
                    res matches Err(e) && e matches Error::InvalidColor(t) && t@
                        == spec_color_offender(y@)
                }
            },
        },
{
    match (a, b) {
        (None, _) => Ok(None),
        (Some(x), None) => Ok(Some(x.to_owned())),
        (Some(x), Some(y)) => {
            let xc = match color_from_rgba(x) {
                Ok(c) => c,
                Err(e) => {
                    return Err(e);
                },
            };
            let yc = match color_from_rgba(y) {
                Ok(c) => c,
                Err(e) => {
                    return Err(e);
                },
            };
            Ok(
                Some(
                    color_to_rgba(
                        (
                            sat_add(xc.0, yc.0),
                            sat_add(xc.1, yc.1),
                            sat_add(xc.2, yc.2),
                            sat_add(xc.3, yc.3),
                        ),
                    ),
                ),
            )
        },
    }
}

/// Law: serializing any color and parsing it back returns the same four
/// channels, and the serialized form is itself a well-formed literal.
pub proof fn lemma_color_round_trip(c: (u8, u8, u8, u8))
    ensures
        spec_color_ok(spec_color_str(c)),
        spec_parse_color(spec_color_str(c)) == c,
{
    lemma_hex_upper_inverts();
    let s = spec_color_str(c);
    assert(s.len() == 9);
    assert(s[0] == '#');
    assert(s[1] == hex_upper(c.0 as int / 16) && s[2] == hex_upper(c.0 as int % 16));
    assert(s[3] == hex_upper(c.1 as int / 16) && s[4] == hex_upper(c.1 as int % 16));
    assert(s[5] == hex_upper(c.2 as int / 16) && s[6] == hex_upper(c.2 as int % 16));
    assert(s[7] == hex_upper(c.3 as int / 16) && s[8] == hex_upper(c.3 as int % 16));
    assert(spec_byte_at(s, 1) == c.0 as int);
    assert(spec_byte_at(s, 3) == c.1 as int);
    assert(spec_byte_at(s, 5) == c.2 as int);
    assert(spec_byte_at(s, 7) == c.3 as int);
}

proof fn lemma_hex_upper_inverts()
    ensures
        forall|v: int|
            0 <= v < 16 ==> is_hex_digit(#[trigger] hex_upper(v)) && hex_val(hex_upper(v)) == v,
{
}

/// Law: blending two well-formed color literals yields a literal that
/// parses back to exactly the channel-wise saturating sum of the inputs —
/// no channel ever wraps past 255.
pub proof fn lemma_blend_adds(a: Seq<char>, b: Seq<char>)
    requires
        spec_color_ok(a),
        spec_color_ok(b),
    ensures
        ({
            let c = spec_add_colors(spec_parse_color(a), spec_parse_color(b));
            spec_color_ok(spec_color_str(c)) && spec_parse_color(spec_color_str(c)) == c
        }),
{
    let c = spec_add_colors(spec_parse_color(a), spec_parse_color(b));
    lemma_color_round_trip(c);
}

} // verus!
