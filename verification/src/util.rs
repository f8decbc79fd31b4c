//! Leaf utilities used by the data-producing blocks: widget identity
//! allocation, Pango markup escaping, and the battery icon table.

use vstd::prelude::*;

use crate::errors::Error;
use crate::text::push_char;

verus! {

/// The process-wide widget-identity counter. It is created once during
/// process setup at the maximum value and handed to whatever allocates
/// widget identities; identifiers decrease monotonically, so they stay
/// unique until the counter would wrap.
pub struct IdCounter {
    /// The identifier the next allocation will return.
    pub next_id: usize,
}

impl IdCounter {
    /// A fresh counter, starting at the maximum value.
    pub fn new() -> (c: Self)
        ensures
            c.next_id == usize::MAX,
    {
        IdCounter { next_id: usize::MAX }
    }
}

/// Draws the next widget identifier from the counter: returns the current
/// value and decrements it (wrapping back to the maximum only at
/// exhaustion, as a fetch-and-subtract would).
pub fn pseudo_uuid(ids: &mut IdCounter) -> (id: usize)
    ensures
        id == old(ids).next_id,
        final(ids).next_id as int == (if old(ids).next_id == 0 {
            usize::MAX as int
        } else {
            old(ids).next_id - 1
        }),
{
    let id = ids.next_id;
    ids.next_id = if id == 0 {
        usize::MAX
    } else {
        id - 1
    };
    id
}

/// How one character is written in Pango markup text.
pub open spec fn spec_pango_escape_char(c: char) -> Seq<char> {
    if c == '&' {
        "&amp;"@
    } else if c == '<' {
        "&lt;"@
    } else if c == '>' {
        "&gt;"@
    } else if c == '\'' {
        "&#39;"@
    } else {
        seq![c]
    }
}

/// A whole string written in Pango markup text, character by character.
pub open spec fn spec_pango_escape(s: Seq<char>) -> Seq<char>
    decreases s.len(),
{
    if s.len() == 0 {
        Seq::empty()
    } else {
        spec_pango_escape(s.drop_last()) + spec_pango_escape_char(s.last())
    }
}

/// Escapes the characters that Pango markup reserves (`&`, `<`, `>`, `'`);
/// every other character is kept as it is.
pub fn escape_pango_text(text: String) -> (r: String)
    ensures
        r@ == spec_pango_escape(text@),
{
    let s = text.as_str();
    let n = s.unicode_len();
    let mut out = String::new();
    let mut i: usize = 0;
    while i < n
        invariant
            n == s@.len(),
            0 <= i <= n,
            out@ == spec_pango_escape(s@.take(i as int)),
        decreases n - i,
    {
        let c = s.get_char(i);
        if c == '&' {
            out.append("&amp;");
        } else if c == '<' {
            out.append("&lt;");
        } else if c == '>' {
            out.append("&gt;");
        } else if c == '\'' {
            out.append("&#39;");
        } else {
            push_char(&mut out, c);
        }
        proof {
            assert(s@.take(i + 1).drop_last() =~= s@.take(i as int));
            assert(s@.take(i + 1).last() == s@[i as int]);
            assert(spec_pango_escape_char(s@[i as int]) == seq![s@[i as int]] || c == '&' || c
                == '<' || c == '>' || c == '\'');
            if c != '&' && c != '<' && c != '>' && c != '\'' {
                assert(out@.push(c) =~= out@ + seq![c]);
            }
        }
        i = i + 1;
    }
    proof {
        assert(s@.take(n as int) =~= s@);
    }
    out
}

/// The icon name shown for a battery charge reading; a failed reading or a
/// reading above 75 percent shows the full icon.
pub open spec fn spec_battery_icon(charge: Result<u64, Error>) -> Seq<char> {
    match charge {
        Ok(level) => {
            if level <= 5 {
                "bat_empty"@
            } else if level <= 25 {
                "bat_quarter"@
            } else if level <= 50 {
                "bat_half"@
            } else if level <= 75 {
                "bat_three_quarters"@
            } else {
                "bat_full"@
            }
        },
        Err(_) => "bat_full"@,
    }
}

/// Maps a battery charge reading to the name of the icon that represents it.
pub fn battery_level_to_icon(charge_level: Result<u64, Error>) -> (icon: &'static str)
    ensures
        icon@ == spec_battery_icon(charge_level),
{
    match charge_level {
        Ok(level) => {
            if level <= 5 {
                "bat_empty"
            } else if level <= 25 {
                "bat_quarter"
            } else if level <= 50 {
                "bat_half"
            } else if level <= 75 {
                "bat_three_quarters"
            } else {
                "bat_full"
            }
        },
        Err(_) => "bat_full",
    }
}

} // verus!
