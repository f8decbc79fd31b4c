//! The render unit consumed by the compositor: full text plus optional
//! styling, with its wire-format serialization.
//!
//! A widget serializes to one object carrying `full_text` and, when
//! present, `color`, `background`, `separator` and `separator_block_width`.
//! The text is emitted verbatim; escaping is the producer's concern.

use vstd::prelude::*;

use crate::text::{spec_dec, u64_to_dec};

verus! {

/// One renderable fragment of the status line, produced per block and
/// consumed once by the compositor.
#[derive(Debug, Clone)]
pub struct Widget {
    pub full_text: String,
    /// Foreground color literal.
    pub color: Option<String>,
    /// Background color literal.
    pub background: Option<String>,
    /// Whether the host protocol draws a separator after this widget.
    pub separator: Option<bool>,
    /// Width reserved for that separator.
    pub separator_block_width: Option<u64>,
}

/// The mathematical value of a widget.
pub ghost struct WidgetView {
    pub full_text: Seq<char>,
    pub color: Option<Seq<char>>,
    pub background: Option<Seq<char>>,
    pub separator: Option<bool>,
    pub separator_block_width: Option<u64>,
}

/// The view of an optional string.
pub open spec fn opt_str_view(o: Option<String>) -> Option<Seq<char>> {
    match o {
        Some(s) => Some(s@),
        None => None,
    }
}

impl View for Widget {
    type V = WidgetView;

    open spec fn view(&self) -> WidgetView {
        WidgetView {
            full_text: self.full_text@,
            color: opt_str_view(self.color),
            background: opt_str_view(self.background),
            separator: self.separator,
            separator_block_width: self.separator_block_width,
        }
    }
}

/// The exact wire form of one widget: a JSON object with `full_text` and
/// each optional field that is present, in a fixed order.
pub open spec fn spec_widget_json(w: WidgetView) -> Seq<char> {
    "{\"full_text\":\""@ + w.full_text + "\""@ + (match w.color {
        Some(c) => ",\"color\":\""@ + c + "\""@,
        None => Seq::<char>::empty(),
    }) + (match w.background {
        Some(b) => ",\"background\":\""@ + b + "\""@,
        None => Seq::<char>::empty(),
    }) + (match w.separator {
        Some(true) => ",\"separator\":true"@,
        Some(false) => ",\"separator\":false"@,
        None => Seq::<char>::empty(),
    }) + (match w.separator_block_width {
        Some(n) => ",\"separator_block_width\":"@ + spec_dec(n as int),
        None => Seq::<char>::empty(),
    }) + "}"@
}

impl Widget {
    /// A widget with only its text set.
    pub fn new_text(full_text: String) -> (w: Widget)
        ensures
            w@.full_text == full_text@,
            w@.color is None,
            w@.background is None,
            w@.separator is None,
            w@.separator_block_width is None,
    {
        Widget {
            full_text,
            color: None,
            background: None,
            separator: None,
            separator_block_width: None,
        }
    }

    /// An equal, independently owned widget.
    pub fn duplicate(&self) -> (w: Widget)
        ensures
            w@ == self@,
    {
        Widget {
            full_text: self.full_text.clone(),
            color: crate::text::dup_opt_string(&self.color),
            background: crate::text::dup_opt_string(&self.background),
            separator: self.separator,
            separator_block_width: self.separator_block_width,
        }
    }

    /// Serializes the widget to its wire form.
    #[verifier::rlimit(60)]
    pub fn render(&self) -> (r: String)
        ensures
            r@ == spec_widget_json(self@),
    {
        let mut out = "{\"full_text\":\"".to_owned();
        out.append(self.full_text.as_str());
        out.append("\"");
        match &self.color {
            Some(c) => {
                out.append(",\"color\":\"");
                out.append(c.as_str());
                out.append("\"");
            },
            None => {},
        }
        match &self.background {
            Some(b) => {
                out.append(",\"background\":\"");
                out.append(b.as_str());
                out.append("\"");
            },
            None => {},
        }
        match &self.separator {
            Some(b) => {
                if *b {
                    out.append(",\"separator\":true");
                } else {
                    out.append(",\"separator\":false");
                }
            },
            None => {},
        }
        match &self.separator_block_width {
            Some(n) => {
                out.append(",\"separator_block_width\":");
                let d = u64_to_dec(*n);
                out.append(d.as_str());
            },
            None => {},
        }
        proof {
            let w = self@;
            let cpart = match w.color {
                Some(c) => ",\"color\":\""@ + c + "\""@,
                None => Seq::<char>::empty(),
            };
            let bpart = match w.background {
                Some(b) => ",\"background\":\""@ + b + "\""@,
                None => Seq::<char>::empty(),
            };
            let spart = match w.separator {
                Some(true) => ",\"separator\":true"@,
                Some(false) => ",\"separator\":false"@,
                None => Seq::<char>::empty(),
            };
            let wpart = match w.separator_block_width {
                Some(n) => ",\"separator_block_width\":"@ + spec_dec(n as int),
                None => Seq::<char>::empty(),
            };
            assert(out@ =~= "{\"full_text\":\""@ + w.full_text + "\""@ + cpart + bpart + spart
                + wpart);
        }
        out.append("}");
        proof {
            assert(out@ =~= spec_widget_json(self@));
        }
        out
    }
}

impl Default for Widget {
    /// An empty widget: no text, no styling.
    fn default() -> (w: Widget)
        ensures
            w@.full_text == Seq::<char>::empty(),
            w@.color is None,
            w@.background is None,
            w@.separator is None,
            w@.separator_block_width is None,
    {
        Widget {
            full_text: String::new(),
            color: None,
            background: None,
            separator: None,
            separator_block_width: None,
        }
    }
}

} // verus!
