//! Block-glyph bar graphs: a ten-bucket percent bar and a per-sample bar
//! graph over pre-computed glyph levels.
//!
//! The hosts feed this module plain integers: a percentage expressed in
//! quarter-percent steps, and per-sample levels from 0 to 7. The eight
//! glyphs are the Unicode eighth-block characters, so level 0 still renders
//! a faint mark and a zero-value bar stays visible.

use vstd::prelude::*;

use crate::text::push_char;

verus! {

/// The eighth-block glyph for a level; levels at or below 0 give the
/// emptiest glyph, levels at or above 7 the full block.
pub open spec fn bar_glyph(level: int) -> char {
    if level <= 0 {
        '\u{2581}'
    } else if level == 1 {
        '\u{2582}'
    } else if level == 2 {
        '\u{2583}'
    } else if level == 3 {
        '\u{2584}'
    } else if level == 4 {
        '\u{2585}'
    } else if level == 5 {
        '\u{2586}'
    } else if level == 6 {
        '\u{2587}'
    } else {
        '\u{2588}'
    }
}

/// Glyph level of percent bucket `j` for a percentage of `q` quarter-percent
/// steps: how far the percentage reaches into the bucket `[10 * j, 10 * (j + 1))`,
/// in steps of 1.25 percent, capped at the full block.
pub open spec fn bucket_level(q: int, j: int) -> int {
    let f = q - 40 * j;
    if f < 5 {
        0
    } else if f < 10 {
        1
    } else if f < 15 {
        2
    } else if f < 20 {
        3
    } else if f < 25 {
        4
    } else if f < 30 {
        5
    } else if f < 35 {
        6
    } else {
        7
    }
}

fn eighth_block(level: u8) -> (c: char)
    ensures
        c == bar_glyph(level as int),
{
    if level == 0 {
        '\u{2581}'
    } else if level == 1 {
        '\u{2582}'
    } else if level == 2 {
        '\u{2583}'
    } else if level == 3 {
        '\u{2584}'
    } else if level == 4 {
        '\u{2585}'
    } else if level == 5 {
        '\u{2586}'
    } else if level == 6 {
        '\u{2587}'
    } else {
        '\u{2588}'
    }
}

/// Renders the ten-bucket percent bar for a percentage given in
/// quarter-percent steps (`0 ..= 400`): one glyph per bucket, each chosen by
/// how far the percentage reaches into that bucket.
pub fn percent_bar_quarters(quarters: u16) -> (r: String)
    requires
        quarters <= 400,
    ensures
        r@.len() == 10,
        forall|j: int| 0 <= j < 10 ==> r@[j] == bar_glyph(bucket_level(quarters as int, j)),
{
    let mut s = String::new();
    let mut j: usize = 0;
    while j < 10
        invariant
            quarters <= 400,
            0 <= j <= 10,
            s@.len() == j,
            forall|k: int| 0 <= k < j ==> s@[k] == bar_glyph(bucket_level(quarters as int, k)),
        decreases 10 - j,
    {
        let f: i32 = quarters as i32 - 40 * (j as i32);
        let level: u8 = if f < 5 {
            0
        } else if f < 10 {
            1
        } else if f < 15 {
            2
        } else if f < 20 {
            3
        } else if f < 25 {
            4
        } else if f < 30 {
            5
        } else if f < 35 {
            6
        } else {
            7
        };
        push_char(&mut s, eighth_block(level));
        j = j + 1;
    }
    s
}

/// Renders one glyph per sample level; levels above 7 are drawn as the full
/// block.
pub fn bar_graph_from_levels(levels: &Vec<u8>) -> (r: String)
    ensures
        r@.len() == levels@.len(),
        forall|j: int| 0 <= j < levels@.len() ==> r@[j] == bar_glyph(levels@[j] as int),
{
    let mut s = String::new();
    let mut j: usize = 0;
    while j < levels.len()
        invariant
            0 <= j <= levels@.len(),
            s@.len() == j,
            forall|k: int| 0 <= k < j ==> s@[k] == bar_glyph(levels@[k] as int),
        decreases levels@.len() - j,
    {
        push_char(&mut s, eighth_block(levels[j]));
        j = j + 1;
    }
    s
}

/// Renders the degenerate bar graph used when the sample range is empty or
/// not a normal quantity: every position is the emptiest glyph. One glyph
/// fewer than the sample count is produced (none for an empty input); that
/// width is deliberate and pinned by tests, since consumers may rely on it.
pub fn bar_graph_flat(count: usize) -> (r: String)
    ensures
        r@.len() == (if count == 0 {
            0int
        } else {
            count - 1
        }),
        forall|j: int| 0 <= j < r@.len() ==> r@[j] == bar_glyph(0),
{
    let mut s = String::new();
    if count == 0 {
        return s;
    }
    let mut j: usize = 0;
    while j < count - 1
        invariant
            count >= 1,
            0 <= j <= count - 1,
            s@.len() == j,
            forall|k: int| 0 <= k < j ==> s@[k] == bar_glyph(0),
        decreases count - 1 - j,
    {
        push_char(&mut s, eighth_block(0));
        j = j + 1;
    }
    s
}

/// Law: within every bucket, the glyph of the percent bar is monotonically
/// non-decreasing as the percentage increases — both the level and the
/// glyph's code point can only grow with the input.
pub proof fn lemma_percent_bar_monotone(q1: int, q2: int, j: int)
    requires
        0 <= q1 <= q2 <= 400,
        0 <= j < 10,
    ensures
        bucket_level(q1, j) <= bucket_level(q2, j),
        bar_glyph(bucket_level(q1, j)) as int <= bar_glyph(bucket_level(q2, j)) as int,
{
}

} // verus!
