//! The format-template tokenizer and renderer used to build human-readable
//! strings from named values.
//!
//! A placeholder is a single `{`, one or more characters from
//! `[A-Za-z0-9_-]`, and a `}`; any other use of braces is literal text and
//! there is no escaping. The template is scanned once, left to right,
//! non-overlapping; a literal token is emitted for the gap before each
//! placeholder. Text after the final placeholder is not part of any gap
//! and is therefore dropped; renders carry only the gaps and placeholders.

use vstd::prelude::*;

use crate::errors::Error;
use crate::text::{assoc_get, assoc_lookup};

verus! {

/// A character allowed inside a placeholder name.
pub open spec fn is_placeholder_char(c: char) -> bool {
    ('A' <= c && c <= 'Z') || ('a' <= c && c <= 'z') || ('0' <= c && c <= '9') || c == '_' || c
        == '-'
}

fn placeholder_char(c: char) -> (r: bool)
    ensures
        r == is_placeholder_char(c),
{
    (c >= 'A' && c <= 'Z') || (c >= 'a' && c <= 'z') || (c >= '0' && c <= '9') || c == '_' || c
        == '-'
}

/// Length of the run of placeholder characters starting at position `i`.
pub open spec fn run_len(s: Seq<char>, i: int) -> int
    recommends
        0 <= i <= s.len(),
    decreases s.len() - i when 0 <= i <= s.len()
{
    if i >= s.len() {
        0
    } else if !is_placeholder_char(s[i]) {
        0
    } else {
        1 + run_len(s, i + 1)
    }
}

/// A placeholder match starts at position `i`: a `{`, at least one name
/// character, and a closing `}` right after the name run.
pub open spec fn match_at(s: Seq<char>, i: int) -> bool
    recommends
        0 <= i < s.len(),
{
    &&& s[i] == '{'
    &&& run_len(s, i + 1) >= 1
    &&& i + 1 + run_len(s, i + 1) < s.len()
    &&& s[i + 1 + run_len(s, i + 1)] == '}'
}

/// One template token: literal text, or a placeholder kept with its braces.
#[derive(Debug, Clone)]
pub enum FormatToken {
    Text(String),
    Var(String),
}

/// The mathematical value of a token.
pub ghost enum TokenView {
    Text(Seq<char>),
    Var(Seq<char>),
}

impl View for FormatToken {
    type V = TokenView;

    open spec fn view(&self) -> TokenView {
        match self {
            FormatToken::Text(s) => TokenView::Text(s@),
            FormatToken::Var(s) => TokenView::Var(s@),
        }
    }
}

/// The token sequence produced by scanning from position `i`, with the
/// pending literal text starting at `lit_start`.
pub open spec fn spec_tokenize_from(s: Seq<char>, i: int, lit_start: int) -> Seq<TokenView>
    recommends
        0 <= lit_start <= i <= s.len(),
    decreases s.len() - i when 0 <= i <= s.len()
{
    if i >= s.len() {
        seq![]
    } else if match_at(s, i) {
        let e = i + 2 + run_len(s, i + 1);
        (if lit_start < i {
            seq![TokenView::Text(s.subrange(lit_start, i))]
        } else {
            seq![]
        }) + seq![TokenView::Var(s.subrange(i, e))] + spec_tokenize_from(s, e, e)
    } else {
        spec_tokenize_from(s, i + 1, lit_start)
    }
}

/// The tokens of a whole template string.
pub open spec fn spec_tokens(s: Seq<char>) -> Seq<TokenView> {
    spec_tokenize_from(s, 0, 0)
}

proof fn lemma_run_len_range(s: Seq<char>, k: int, j: int)
    requires
        0 <= k <= j <= s.len(),
        forall|m: int| k <= m < j ==> is_placeholder_char(#[trigger] s[m]),
        j == s.len() || !is_placeholder_char(s[j]),
    ensures
        run_len(s, k) == j - k,
    decreases j - k,
{
    if k < j {
        lemma_run_len_range(s, k + 1, j);
    }
}

/// A compiled template: an ordered sequence of tokens, built once and reused
/// for repeated renders. Its view is the token sequence.
#[derive(Debug, Clone)]
pub struct FormatTemplate {
    tokens: Vec<FormatToken>,
}

impl View for FormatTemplate {
    type V = Seq<TokenView>;

    closed spec fn view(&self) -> Seq<TokenView> {
        self.tokens@.map_values(|t: FormatToken| t@)
    }
}

/// Renders a token sequence against a variable list: literal tokens are
/// copied, placeholder tokens are looked up (with their braces) in the
/// variables; the first placeholder without an entry aborts with that
/// placeholder.
pub open spec fn spec_render(tokens: Seq<TokenView>, vars: Seq<(String, String)>) -> Result<
    Seq<char>,
    Seq<char>,
>
    decreases tokens.len(),
{
    if tokens.len() == 0 {
        Ok(Seq::empty())
    } else {
        match spec_render(tokens.drop_last(), vars) {
            Err(k) => Err(k),
            Ok(acc) => match tokens.last() {
                TokenView::Text(t) => Ok(acc + t),
                TokenView::Var(key) => match assoc_lookup(vars, key) {
                    Some(v) => Ok(acc + v),
                    None => Err(key),
                },
            },
        }
    }
}

proof fn lemma_render_err_persists(tokens: Seq<TokenView>, vars: Seq<(String, String)>, i: int)
    requires
        0 <= i <= tokens.len(),
        spec_render(tokens.take(i), vars) is Err,
    ensures
        spec_render(tokens, vars) == spec_render(tokens.take(i), vars),
    decreases tokens.len() - i,
{
    if i < tokens.len() {
        assert(tokens.take(i + 1).drop_last() =~= tokens.take(i));
        lemma_render_err_persists(tokens, vars, i + 1);
    } else {
        assert(tokens.take(i) =~= tokens);
    }
}

impl FormatTemplate {
    /// Compiles a template string into its token sequence. The scan itself
    /// cannot fail; the `Result` frame is kept for hosts that treat a
    /// malformed matching pattern as an internal defect.
    pub fn from_string(s: &str) -> (res: Result<FormatTemplate, Error>)
        ensures
            res matches Ok(t) && t@ == spec_tokens(s@),
    {
        let n = s.unicode_len();
        let mut tokens: Vec<FormatToken> = Vec::new();
        let mut i: usize = 0;
        let mut lit_start: usize = 0;
        proof {
            assert(tokens@.map_values(|t: FormatToken| t@) =~= Seq::<TokenView>::empty());
        }
        while i < n
            invariant
                n == s@.len(),
                0 <= lit_start <= i <= n,
                spec_tokens(s@) == tokens@.map_values(|t: FormatToken| t@) + spec_tokenize_from(
                    s@,
                    i as int,
                    lit_start as int,
                ),
            decreases n - i,
        {
            let ghost toks0 = tokens@.map_values(|t: FormatToken| t@);
            if s.get_char(i) == '{' {
                let mut j: usize = i + 1;
                while j < n && placeholder_char(s.get_char(j))
                    invariant
                        n == s@.len(),
                        i + 1 <= j <= n,
                        forall|m: int| i + 1 <= m < j ==> is_placeholder_char(#[trigger] s@[m]),
                    decreases n - j,
                {
                    j = j + 1;
                }
                proof {
                    lemma_run_len_range(s@, i as int + 1, j as int);
                }
                if j > i + 1 && j < n && s.get_char(j) == '}' {
                    proof {
                        assert(match_at(s@, i as int));
                        assert(i as int + 2 + run_len(s@, i as int + 1) == j + 1);
                    }
                    let ghost lits: Seq<TokenView> = if lit_start < i {
                        seq![TokenView::Text(s@.subrange(lit_start as int, i as int))]
                    } else {
                        seq![]
                    };
                    if lit_start < i {
                        tokens.push(FormatToken::Text(s.substring_char(lit_start, i).to_owned()));
                    }
                    tokens.push(FormatToken::Var(s.substring_char(i, j + 1).to_owned()));
                    proof {
                        assert(tokens@.map_values(|t: FormatToken| t@) =~= toks0 + lits + seq![
                            TokenView::Var(s@.subrange(i as int, j + 1)),
                        ]);
                        assert(toks0 + (lits + seq![TokenView::Var(s@.subrange(i as int, j + 1))]
                            + spec_tokenize_from(s@, j + 1, j + 1)) =~= (toks0 + lits + seq![
                            TokenView::Var(s@.subrange(i as int, j + 1)),
                        ]) + spec_tokenize_from(s@, j + 1, j + 1));
                    }
                    i = j + 1;
                    lit_start = i;
                } else {
                    proof {
                        assert(!match_at(s@, i as int));
                    }
                    i = i + 1;
                }
            } else {
                proof {
                    assert(!match_at(s@, i as int));
                }
                i = i + 1;
            }
        }
        proof {
            assert(spec_tokens(s@) =~= tokens@.map_values(|t: FormatToken| t@));
        }
        Ok(FormatTemplate { tokens })
    }

    /// Renders the template against named values, concatenating tokens in
    /// their original order and substituting each placeholder's value. The
    /// first placeholder missing from `vars` fails, naming that placeholder.
    pub fn render_static_str(&self, vars: &Vec<(String, String)>) -> (res: Result<String, Error>)
        ensures
            match spec_render(self@, vars@) {
                Ok(s) => res matches Ok(r) && r@ == s,
                Err(k) => res matches Err(e) && e matches Error::UnknownPlaceholder(p) && p@ == k,
            },
    {
        let mut out = String::new();
        let mut idx: usize = 0;
        proof {
            assert(self@.take(0) =~= Seq::<TokenView>::empty());
        }
        while idx < self.tokens.len()
            invariant
                self@ == self.tokens@.map_values(|t: FormatToken| t@),
                0 <= idx <= self.tokens@.len(),
                spec_render(self@.take(idx as int), vars@) == Ok::<Seq<char>, Seq<char>>(out@),
            decreases self.tokens@.len() - idx,
        {
            proof {
                assert(self@.take(idx + 1).drop_last() =~= self@.take(idx as int));
                assert(self@.take(idx + 1).last() == self@[idx as int]);
            }
            let tok = &self.tokens[idx];
            match tok {
                FormatToken::Text(t) => {
                    out.append(t.as_str());
                },
                FormatToken::Var(key) => {
                    match assoc_get(vars, key.as_str()) {
                        Some(v) => {
                            out.append(v.as_str());
                        },
                        None => {
                            proof {
                                lemma_render_err_persists(self@, vars@, idx as int + 1);
                            }
                            return Err(Error::UnknownPlaceholder(key.clone()));
                        },
                    }
                },
            }
            idx = idx + 1;
        }
        proof {
            assert(self@.take(self.tokens@.len() as int) =~= self@);
        }
        Ok(out)
    }
}

} // verus!
