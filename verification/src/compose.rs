//! The compositor: merges every block's current widgets into one
//! wire-format status line, applying the theme's alternating tint and
//! synthesizing (or suppressing) inter-block separators.
//!
//! The alternator is seeded with the parity of the visible-block count, so
//! the last visible block is always untinted and the right edge of the bar
//! stays visually stable.

use vstd::prelude::*;

use crate::color::{
    add_colors, spec_add_colors, spec_color_ok, spec_color_str, spec_parse_color,
};
use crate::config::SharedConfig;
use crate::errors::Error;
use crate::text::str_eq;
use crate::themes::Theme;
use crate::widgets::{opt_str_view, spec_widget_json, Widget, WidgetView};

verus! {

/// The views of one block's widgets.
pub open spec fn block_view(b: Vec<Widget>) -> Seq<WidgetView> {
    b@.map_values(|w: Widget| w@)
}

/// The views of every block's widgets.
pub open spec fn blocks_view(blocks: Seq<Vec<Widget>>) -> Seq<Seq<WidgetView>> {
    blocks.map_values(|b: Vec<Widget>| block_view(b))
}

/// How many blocks currently show at least one widget.
pub open spec fn count_visible(bs: Seq<Seq<WidgetView>>) -> int
    decreases bs.len(),
{
    if bs.len() == 0 {
        0
    } else {
        count_visible(bs.drop_last()) + (if bs.last().len() > 0 {
            1int
        } else {
            0int
        })
    }
}

/// Whether the visible block at position `k` (counting from zero) is tinted
/// when `n` blocks are visible: the alternator is seeded true for an even
/// `n` and toggles after every visible block.
pub open spec fn block_tinted(n: int, k: int) -> bool {
    (n + k) % 2 == 0
}

/// Law: whatever the number of visible blocks, the last visible one is
/// never tinted — the parity-normalized seed cancels the toggle count.
pub proof fn lemma_last_block_untinted(n: int)
    requires
        n >= 1,
    ensures
        !block_tinted(n, n - 1),
{
}

/// Blending one optional widget color with the optional tint color, exactly
/// as [`add_colors`] resolves it; `Err` when two literals are present and
/// either is malformed.
pub open spec fn spec_blend(a: Option<Seq<char>>, tint: Option<Seq<char>>) -> Result<
    Option<Seq<char>>,
    (),
> {
    match (a, tint) {
        (None, _) => Ok(None),
        (Some(x), None) => Ok(Some(x)),
        (Some(x), Some(t)) => {
            if spec_color_ok(x) && spec_color_ok(t) {
                Ok(Some(spec_color_str(spec_add_colors(spec_parse_color(x), spec_parse_color(t)))))
            } else {
                Err(())
            }
        },
    }
}

/// One widget with the tint added onto its background and foreground.
pub open spec fn spec_tint_widget(w: WidgetView, tint: Option<Seq<char>>) -> Result<WidgetView, ()> {
    match (spec_blend(w.background, tint), spec_blend(w.color, tint)) {
        (Ok(bg), Ok(fg)) => Ok(WidgetView { background: bg, color: fg, ..w }),
        _ => Err(()),
    }
}

/// A whole block with the tint applied to every widget.
pub open spec fn spec_tint_block(ws: Seq<WidgetView>, tint: Option<Seq<char>>) -> Result<
    Seq<WidgetView>,
    (),
>
    decreases ws.len(),
{
    if ws.len() == 0 {
        Ok(seq![])
    } else {
        match (spec_tint_block(ws.drop_last(), tint), spec_tint_widget(ws.last(), tint)) {
            (Ok(ts), Ok(t)) => Ok(ts.push(t)),
            _ => Err(()),
        }
    }
}

/// Strings joined by a separator, in order.
pub open spec fn join_strs(parts: Seq<Seq<char>>, sep: Seq<char>) -> Seq<char>
    decreases parts.len(),
{
    if parts.len() == 0 {
        Seq::empty()
    } else if parts.len() == 1 {
        parts[0]
    } else {
        join_strs(parts.drop_last(), sep) + sep + parts.last()
    }
}

/// The wire forms of a block's widgets.
pub open spec fn jsons_of(ws: Seq<WidgetView>) -> Seq<Seq<char>> {
    ws.map_values(|w: WidgetView| spec_widget_json(w))
}

/// The block with the separator data cleared on its last widget, for hosts
/// that draw their own separators.
pub open spec fn clear_last_separator(ws: Seq<WidgetView>) -> Seq<WidgetView>
    recommends
        ws.len() >= 1,
{
    ws.update(
        ws.len() - 1,
        WidgetView { separator: None, separator_block_width: None, ..ws.last() },
    )
}

/// The serialized payload of one visible block and the background the next
/// separator derives from.
///
/// The block is tinted when the alternator says so; under native separators
/// the last widget's separator data is cleared and no separator widget is
/// synthesized. Otherwise the separator widget's foreground is the theme's
/// separator foreground — or, under the `"auto"` sentinel, this block's
/// first widget's background — and its background is the theme's separator
/// background or, under `"auto"`, the previous visible block's last
/// widget's background. `Err` marks an internal defect: a malformed tint
/// blend, or a widget without the background color this derivation needs.
pub open spec fn spec_block_payload(
    ws: Seq<WidgetView>,
    theme: Theme,
    tinted: bool,
    last_bg: Option<Seq<char>>,
) -> Result<(Seq<char>, Option<Seq<char>>), ()>
    recommends
        ws.len() >= 1,
{
    let tws_r = if tinted {
        spec_tint_block(ws, opt_str_view(theme.alternating_tint_bg))
    } else {
        Ok(ws)
    };
    match tws_r {
        Err(()) => Err(()),
        Ok(tws) => {
            if theme.native_separators == Some(true) {
                Ok((join_strs(jsons_of(clear_last_separator(tws)), ","@), last_bg))
            } else {
                match (tws[0].background, tws.last().background) {
                    (Some(first_bg), Some(lw_bg)) => {
                        let sep_fg = if opt_str_view(theme.separator_fg) == Some("auto"@) {
                            Some(first_bg)
                        } else {
                            opt_str_view(theme.separator_fg)
                        };
                        let sep_bg = if opt_str_view(theme.separator_bg) == Some("auto"@) {
                            last_bg
                        } else {
                            opt_str_view(theme.separator_bg)
                        };
                        let sep = WidgetView {
                            full_text: theme.separator@,
                            color: sep_fg,
                            background: sep_bg,
                            separator: None,
                            separator_block_width: None,
                        };
                        Ok(
                            (
                                spec_widget_json(sep) + ","@ + join_strs(jsons_of(tws), ","@),
                                Some(lw_bg),
                            ),
                        )
                    },
                    _ => Err(()),
                }
            }
        },
    }
}

/// The compositor state after a prefix of the blocks: visible blocks seen,
/// the last visible block's trailing background, and the per-block payloads.
pub open spec fn spec_process(bs: Seq<Seq<WidgetView>>, theme: Theme, n: int) -> Result<
    (int, Option<Seq<char>>, Seq<Seq<char>>),
    (),
>
    decreases bs.len(),
{
    if bs.len() == 0 {
        Ok((0, None, seq![]))
    } else {
        match spec_process(bs.drop_last(), theme, n) {
            Err(()) => Err(()),
            Ok((k, lbg, parts)) => {
                let b = bs.last();
                if b.len() == 0 {
                    Ok((k, lbg, parts))
                } else {
                    match spec_block_payload(b, theme, block_tinted(n, k), lbg) {
                        Err(()) => Err(()),
                        Ok((p, lbg2)) => Ok((k + 1, lbg2, parts.push(p))),
                    }
                }
            },
        }
    }
}

/// The complete output line: the payloads of the visible blocks joined by
/// commas, wrapped in brackets, with the protocol's trailing comma.
pub open spec fn spec_compose(bs: Seq<Seq<WidgetView>>, theme: Theme) -> Result<Seq<char>, ()> {
    match spec_process(bs, theme, count_visible(bs)) {
        Err(()) => Err(()),
        Ok((k, lbg, parts)) => Ok("["@ + join_strs(parts, ","@) + "],"@),
    }
}

proof fn lemma_process_err_persists(bs: Seq<Seq<WidgetView>>, theme: &Theme, n: int, i: int)
    requires
        0 <= i <= bs.len(),
        spec_process(bs.take(i), *theme, n) is Err,
    ensures
        spec_process(bs, *theme, n) == spec_process(bs.take(i), *theme, n),
    decreases bs.len() - i,
{
    if i < bs.len() {
        assert(bs.take(i + 1).drop_last() =~= bs.take(i));
        lemma_process_err_persists(bs, theme, n, i + 1);
    } else {
        assert(bs.take(i) =~= bs);
    }
}

fn opt_as_str(o: &Option<String>) -> (r: Option<&str>)
    ensures
        match o {
            Some(s) => r matches Some(x) && x@ == s@,
            None => r is None,
        },
{
    match o {
        Some(s) => Some(s.as_str()),
        None => None,
    }
}

/// One widget with the alternating tint added onto its colors; a malformed
/// color literal is the internal defect the payload derivation reports.
fn tint_widget(w: &Widget, tint: &Option<String>) -> (res: Result<Widget, Error>)
    ensures
        match spec_tint_widget(w@, opt_str_view(*tint)) {
            Ok(v) => res matches Ok(tw) && tw@ == v,
            Err(()) => res matches Err(e) && e is InternalError,
        },
{
    let bg = match add_colors(opt_as_str(&w.background), opt_as_str(tint)) {
        Ok(c) => c,
        Err(_) => {
            return Err(
                Error::InternalError("alternating tint needs well-formed colors".to_owned()),
            );
        },
    };
    let fg = match add_colors(opt_as_str(&w.color), opt_as_str(tint)) {
        Ok(c) => c,
        Err(_) => {
            return Err(
                Error::InternalError("alternating tint needs well-formed colors".to_owned()),
            );
        },
    };
    Ok(
        Widget {
            full_text: w.full_text.clone(),
            color: fg,
            background: bg,
            separator: w.separator,
            separator_block_width: w.separator_block_width,
        },
    )
}

proof fn lemma_tint_err_persists(ws: Seq<WidgetView>, tint: Option<Seq<char>>, i: int)
    requires
        0 <= i <= ws.len(),
        spec_tint_block(ws.take(i), tint) is Err,
    ensures
        spec_tint_block(ws, tint) is Err,
    decreases ws.len() - i,
{
    if i < ws.len() {
        assert(ws.take(i + 1).drop_last() =~= ws.take(i));
        lemma_tint_err_persists(ws, tint, i + 1);
    } else {
        assert(ws.take(i) =~= ws);
    }
}

/// Renders a block's widgets joined by commas; with `clear_last` the last
/// widget is rendered with its separator data cleared.
fn join_rendered(ws: &Vec<Widget>, clear_last: bool) -> (r: String)
    requires
        ws@.len() >= 1,
    ensures
        r@ == join_strs(
            jsons_of(
                if clear_last {
                    clear_last_separator(block_view(*ws))
                } else {
                    block_view(*ws)
                },
            ),
            ","@,
        ),
{
    let ghost target: Seq<Seq<char>> = jsons_of(
        if clear_last {
            clear_last_separator(block_view(*ws))
        } else {
            block_view(*ws)
        },
    );
    let mut out = String::new();
    let mut j: usize = 0;
    proof {
        assert(target.len() == ws@.len());
        assert(target.take(0) =~= Seq::<Seq<char>>::empty());
    }
    while j < ws.len()
        invariant
            0 <= j <= ws@.len(),
            target.len() == ws@.len(),
            target == jsons_of(
                if clear_last {
                    clear_last_separator(block_view(*ws))
                } else {
                    block_view(*ws)
                },
            ),
            out@ == join_strs(target.take(j as int), ","@),
        decreases ws@.len() - j,
    {
        let piece: String = if clear_last && j == ws.len() - 1 {
            let cleared = Widget {
                full_text: ws[j].full_text.clone(),
                color: crate::text::dup_opt_string(&ws[j].color),
                background: crate::text::dup_opt_string(&ws[j].background),
                separator: None,
                separator_block_width: None,
            };
            cleared.render()
        } else {
            ws[j].render()
        };
        proof {
            assert(target[j as int] == piece@);
            assert(target.take(j + 1).drop_last() =~= target.take(j as int));
            assert(target.take(j + 1).last() == target[j as int]);
        }
        if j > 0 {
            out.append(",");
        }
        out.append(piece.as_str());
        j = j + 1;
    }
    proof {
        assert(target.take(ws@.len() as int) =~= target);
    }
    out
}

/// The payload of one visible block, and the background the next separator
/// derives from.
fn render_one_block(b: &Vec<Widget>, theme: &Theme, tinted: bool, last_bg: &Option<String>) -> (res:
    Result<(String, Option<String>), Error>)
    requires
        b@.len() >= 1,
    ensures
        match spec_block_payload(block_view(*b), *theme, tinted, opt_str_view(*last_bg)) {
            Ok((p, lbg2)) => res matches Ok(pr) && pr.0@ == p && opt_str_view(pr.1) == lbg2,
            Err(()) => res matches Err(e) && e is InternalError,
        },
{
    let ghost tint: Option<Seq<char>> = opt_str_view(theme.alternating_tint_bg);
    let ghost bv: Seq<WidgetView> = block_view(*b);

    let mut tws: Vec<Widget> = Vec::new();
    let mut j: usize = 0;
    proof {
        assert(bv.take(0) =~= Seq::<WidgetView>::empty());
        assert(tws@.map_values(|w: Widget| w@) =~= Seq::<WidgetView>::empty());
    }
    while j < b.len()
        invariant
            0 <= j <= bv.len(),
            bv.len() == b@.len(),
            bv == block_view(*b),
            tint == opt_str_view(theme.alternating_tint_bg),
            (if tinted {
                spec_tint_block(bv.take(j as int), tint)
            } else {
                Ok(bv.take(j as int))
            }) == Ok::<Seq<WidgetView>, ()>(tws@.map_values(|w: Widget| w@)),
        decreases b@.len() - j,
    {
        let ghost pre: Seq<WidgetView> = tws@.map_values(|w: Widget| w@);
        proof {
            assert(bv.take(j + 1).drop_last() =~= bv.take(j as int));
            assert(bv.take(j + 1).last() == bv[j as int]);
            assert(bv[j as int] == b@[j as int]@);
        }
        if tinted {
            match tint_widget(&b[j], &theme.alternating_tint_bg) {
                Ok(t) => {
                    tws.push(t);
                    proof {
                        assert(tws@.map_values(|w: Widget| w@) =~= pre.push(tws@.last()@));
                    }
                },
                Err(e) => {
                    proof {
                        lemma_tint_err_persists(bv, tint, j + 1);
                    }
                    return Err(e);
                },
            }
        } else {
            let d = b[j].duplicate();
            tws.push(d);
            proof {
                assert(tws@.map_values(|w: Widget| w@) =~= pre.push(bv[j as int]));
                assert(bv.take(j + 1) =~= bv.take(j as int).push(bv[j as int]));
            }
        }
        j = j + 1;
    }
    proof {
        assert(bv.take(bv.len() as int) =~= bv);
    }
    let ghost tv: Seq<WidgetView> = tws@.map_values(|w: Widget| w@);

    let native = match &theme.native_separators {
        Some(b) => *b,
        None => false,
    };
    if native {
        let payload = join_rendered(&tws, true);
        let lbg = crate::text::dup_opt_string(last_bg);
        return Ok((payload, lbg));
    }

    let first_bg: String = match &tws[0].background {
        Some(c) => c.clone(),
        None => {
            return Err(Error::InternalError("couldn't get background color".to_owned()));
        },
    };
    let lw_bg: String = match &tws[tws.len() - 1].background {
        Some(c) => c.clone(),
        None => {
            return Err(Error::InternalError("couldn't get background color".to_owned()));
        },
    };
    proof {
        assert(tv.last() == tv[tv.len() - 1]);
    }
    let sep_fg: Option<String> = match &theme.separator_fg {
        Some(s) => {
            if str_eq(s.as_str(), "auto") {
                Some(first_bg)
            } else {
                Some(s.clone())
            }
        },
        None => None,
    };
    let sep_bg: Option<String> = match &theme.separator_bg {
        Some(s) => {
            if str_eq(s.as_str(), "auto") {
                crate::text::dup_opt_string(last_bg)
            } else {
                Some(s.clone())
            }
        },
        None => None,
    };
    let sep = Widget {
        full_text: theme.separator.clone(),
        color: sep_fg,
        background: sep_bg,
        separator: None,
        separator_block_width: None,
    };
    let mut payload = sep.render();
    payload.append(",");
    let body = join_rendered(&tws, false);
    payload.append(body.as_str());
    Ok((payload, Some(lw_bg)))
}

/// Merges the blocks' current widgets into the complete wire-format line.
///
/// Empty blocks are skipped; every second visible block (seeded so the last
/// is untinted) has the theme's alternating tint added onto its colors;
/// separators are synthesized, or suppressed under native separators; the
/// payloads are joined with commas, wrapped in `[...]`, and followed by the
/// protocol's trailing comma. An internal defect — a malformed tint blend
/// or a missing background where the separator derivation needs one —
/// aborts the whole line.
#[verifier::rlimit(100)]
pub fn compose_blocks(blocks: &Vec<Vec<Widget>>, config: &SharedConfig) -> (res: Result<
    String,
    Error,
>)
    ensures
        match spec_compose(blocks_view(blocks@), *config.theme) {
            Ok(s) => res matches Ok(r) && r@ == s,
            Err(()) => res matches Err(e) && e is InternalError,
        },
{
    let theme: &Theme = &config.theme;
    let ghost bsv: Seq<Seq<WidgetView>> = blocks_view(blocks@);

    let mut n: usize = 0;
    let mut i: usize = 0;
    proof {
        assert(bsv.take(0) =~= Seq::<Seq<WidgetView>>::empty());
    }
    while i < blocks.len()
        invariant
            0 <= i <= blocks@.len(),
            bsv == blocks_view(blocks@),
            bsv.len() == blocks@.len(),
            n <= i,
            n == count_visible(bsv.take(i as int)),
        decreases blocks@.len() - i,
    {
        proof {
            assert(bsv.take(i + 1).drop_last() =~= bsv.take(i as int));
            assert(bsv.take(i + 1).last() == bsv[i as int]);
            assert(bsv[i as int] == block_view(blocks@[i as int]));
            assert(bsv[i as int].len() == blocks@[i as int]@.len());
        }
        if blocks[i].len() > 0 {
            n = n + 1;
        }
        i = i + 1;
    }
    proof {
        assert(bsv.take(bsv.len() as int) =~= bsv);
    }

    let mut parts: Vec<String> = Vec::new();
    let mut last_bg: Option<String> = None;
    let mut k: usize = 0;
    let mut i: usize = 0;
    proof {
        assert(parts@.map_values(|s: String| s@) =~= Seq::<Seq<char>>::empty());
    }
    while i < blocks.len()
        invariant
            0 <= i <= blocks@.len(),
            bsv == blocks_view(blocks@),
            bsv.len() == blocks@.len(),
            n == count_visible(bsv),
            k <= i,
            spec_process(bsv.take(i as int), *config.theme, n as int) == Ok::<
                (int, Option<Seq<char>>, Seq<Seq<char>>),
                (),
            >((k as int, opt_str_view(last_bg), parts@.map_values(|s: String| s@))),
            theme == &*config.theme,
        decreases blocks@.len() - i,
    {
        proof {
            assert(bsv.take(i + 1).drop_last() =~= bsv.take(i as int));
            assert(bsv.take(i + 1).last() == bsv[i as int]);
            assert(bsv[i as int] == block_view(blocks@[i as int]));
            assert(bsv[i as int].len() == blocks@[i as int]@.len());
        }
        if blocks[i].len() > 0 {
            let tinted = (n % 2 + k % 2) % 2 == 0;
            proof {
                assert(tinted == block_tinted(n as int, k as int));
            }
            let ghost pre_parts: Seq<Seq<char>> = parts@.map_values(|s: String| s@);
            match render_one_block(&blocks[i], theme, tinted, &last_bg) {
                Ok(pr) => {
                    let (p, lbg2) = pr;
                    parts.push(p);
                    last_bg = lbg2;
                    k = k + 1;
                    proof {
                        assert(parts@.map_values(|s: String| s@) =~= pre_parts.push(
                            parts@.last()@,
                        ));
                    }
                },
                Err(e) => {
                    proof {
                        lemma_process_err_persists(bsv, theme, n as int, i + 1);
                    }
                    return Err(e);
                },
            }
        }
        i = i + 1;
    }
    proof {
        assert(bsv.take(bsv.len() as int) =~= bsv);
    }

    let ghost final_parts: Seq<Seq<char>> = parts@.map_values(|s: String| s@);
    let mut out = "[".to_owned();
    let mut j: usize = 0;
    proof {
        assert(final_parts.take(0) =~= Seq::<Seq<char>>::empty());
    }
    while j < parts.len()
        invariant
            0 <= j <= parts@.len(),
            final_parts == parts@.map_values(|s: String| s@),
            final_parts.len() == parts@.len(),
            out@ == "["@ + join_strs(final_parts.take(j as int), ","@),
        decreases parts@.len() - j,
    {
        proof {
            assert(final_parts.take(j + 1).drop_last() =~= final_parts.take(j as int));
            assert(final_parts.take(j + 1).last() == final_parts[j as int]);
            assert(final_parts[j as int] == parts@[j as int]@);
        }
        if j > 0 {
            out.append(",");
        }
        out.append(parts[j].as_str());
        j = j + 1;
    }
    proof {
        assert(final_parts.take(final_parts.len() as int) =~= final_parts);
    }
    out.append("],");
    proof {
        assert(out@ =~= "["@ + join_strs(final_parts, ","@) + "],"@);
    }
    Ok(out)
}

} // verus!
