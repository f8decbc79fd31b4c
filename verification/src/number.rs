//! The discrete core of the engineering-notation number formatter: the
//! suffix tables and the decimal-count rule. The host performs the floating
//! point scaling and final digit rendering; every table decision is made
//! here.

use vstd::prelude::*;

verus! {

/// Minimum exponent level for a suffix name: "T" is 10^12 down through "n"
/// at 10^-9; any other name (including the empty one) allows every level.
pub open spec fn spec_min_exp_level(s: Seq<char>) -> int {
    if s.len() == 1 {
        let c = s[0];
        if c == 'T' {
            4
        } else if c == 'G' {
            3
        } else if c == 'M' {
            2
        } else if c == 'K' {
            1
        } else if c == '1' {
            0
        } else if c == 'm' {
            -1
        } else if c == 'u' {
            -2
        } else if c == 'n' {
            -3
        } else {
            -4
        }
    } else {
        -4
    }
}

/// Maps a minimum-suffix name to the lowest exponent level the formatter
/// may choose.
pub fn min_exp_level(min_suffix: &str) -> (l: i32)
    ensures
        l == spec_min_exp_level(min_suffix@),
{
    if min_suffix.unicode_len() != 1 {
        return -4;
    }
    let c = min_suffix.get_char(0);
    if c == 'T' {
        4
    } else if c == 'G' {
        3
    } else if c == 'M' {
        2
    } else if c == 'K' {
        1
    } else if c == '1' {
        0
    } else if c == 'm' {
        -1
    } else if c == 'u' {
        -2
    } else if c == 'n' {
        -3
    } else {
        -4
    }
}

/// The suffix printed for an exponent level; levels below -3 fall back to
/// "p".
pub open spec fn spec_suffix_for_level(level: int) -> Seq<char> {
    if level == 4 {
        "T"@
    } else if level == 3 {
        "G"@
    } else if level == 2 {
        "M"@
    } else if level == 1 {
        "K"@
    } else if level == 0 {
        ""@
    } else if level == -1 {
        "m"@
    } else if level == -2 {
        "u"@
    } else if level == -3 {
        "n"@
    } else {
        "p"@
    }
}

/// Maps an exponent level to its printed suffix.
pub fn suffix_for_level(level: i32) -> (s: &'static str)
    ensures
        s@ == spec_suffix_for_level(level as int),
{
    if level == 4 {
        "T"
    } else if level == 3 {
        "G"
    } else if level == 2 {
        "M"
    } else if level == 1 {
        "K"
    } else if level == 0 {
        ""
    } else if level == -1 {
        "m"
    } else if level == -2 {
        "u"
    } else if level == -3 {
        "n"
    } else {
        "p"
    }
}

/// Clamps a raw exponent level into `[min_level, 4]`.
pub fn clamp_exp_level(raw: i32, min_level: i32) -> (l: i32)
    requires
        min_level <= 4,
    ensures
        l == if raw < min_level {
            min_level as int
        } else if raw > 4 {
            4int
        } else {
            raw as int
        },
{
    if raw < min_level {
        min_level
    } else if raw > 4 {
        4
    } else {
        raw
    }
}

/// How many decimals fit behind the scaled value: the digit budget minus the
/// integer digits shown (three for values at or above 100, two at or above
/// 10, one otherwise), floored at zero.
pub open spec fn spec_decimal_count(total_digits: int, ge_100: bool, ge_10: bool) -> int {
    let d = if ge_100 {
        total_digits - 3
    } else if ge_10 {
        total_digits - 2
    } else {
        total_digits - 1
    };
    if d < 0 {
        0
    } else {
        d
    }
}

/// Decimal count for a digit budget, given in which magnitude band the
/// scaled value lies.
pub fn decimal_count(total_digits: usize, ge_100: bool, ge_10: bool) -> (d: usize)
    ensures
        d == spec_decimal_count(total_digits as int, ge_100, ge_10),
{
    let cut: usize = if ge_100 {
        3
    } else if ge_10 {
        2
    } else {
        1
    };
    if total_digits < cut {
        0
    } else {
        total_digits - cut
    }
}

} // verus!
