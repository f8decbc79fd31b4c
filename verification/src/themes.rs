//! The theme consumed by the compositor: optional override colors for five
//! semantic roles, the separator glyph and its colors, the alternating-tint
//! background, and the native-separator flag.

use vstd::prelude::*;

use crate::text::dup_opt_string;

verus! {

/// Theme data, already validated by the (external) theme loader. A color
/// field holds a literal color string; the separator colors may instead
/// hold the sentinel `"auto"`, meaning "derive from adjacent widget state".
#[derive(Debug)]
pub struct Theme {
    pub idle_fg: Option<String>,
    pub idle_bg: Option<String>,
    pub info_fg: Option<String>,
    pub info_bg: Option<String>,
    pub good_fg: Option<String>,
    pub good_bg: Option<String>,
    pub warning_fg: Option<String>,
    pub warning_bg: Option<String>,
    pub critical_fg: Option<String>,
    pub critical_bg: Option<String>,
    /// The glyph drawn between blocks when separators are synthesized.
    pub separator: String,
    /// Separator foreground: a literal color or `"auto"`.
    pub separator_fg: Option<String>,
    /// Separator background: a literal color or `"auto"`.
    pub separator_bg: Option<String>,
    /// The color added onto every second visible block.
    pub alternating_tint_bg: Option<String>,
    /// When `Some(true)`, the host bar protocol draws its own separators.
    pub native_separators: Option<bool>,
}

impl Clone for Theme {
    /// An equal, independently owned theme value.
    fn clone(&self) -> (r: Self)
        ensures
            r == *self,
    {
        Theme {
            idle_fg: dup_opt_string(&self.idle_fg),
            idle_bg: dup_opt_string(&self.idle_bg),
            info_fg: dup_opt_string(&self.info_fg),
            info_bg: dup_opt_string(&self.info_bg),
            good_fg: dup_opt_string(&self.good_fg),
            good_bg: dup_opt_string(&self.good_bg),
            warning_fg: dup_opt_string(&self.warning_fg),
            warning_bg: dup_opt_string(&self.warning_bg),
            critical_fg: dup_opt_string(&self.critical_fg),
            critical_bg: dup_opt_string(&self.critical_bg),
            separator: self.separator.clone(),
            separator_fg: dup_opt_string(&self.separator_fg),
            separator_bg: dup_opt_string(&self.separator_bg),
            alternating_tint_bg: dup_opt_string(&self.alternating_tint_bg),
            native_separators: self.native_separators,
        }
    }
}

impl Default for Theme {
    /// The empty theme: no role colors, no separator glyph, no tint, and
    /// synthesized separators.
    fn default() -> (t: Self)
        ensures
            t.idle_fg is None,
            t.idle_bg is None,
            t.info_fg is None,
            t.info_bg is None,
            t.good_fg is None,
            t.good_bg is None,
            t.warning_fg is None,
            t.warning_bg is None,
            t.critical_fg is None,
            t.critical_bg is None,
            t.separator@ == Seq::<char>::empty(),
            t.separator_fg is None,
            t.separator_bg is None,
            t.alternating_tint_bg is None,
            t.native_separators is None,
    {
        Theme {
            idle_fg: None,
            idle_bg: None,
            info_fg: None,
            info_bg: None,
            good_fg: None,
            good_bg: None,
            warning_fg: None,
            warning_bg: None,
            critical_fg: None,
            critical_bg: None,
            separator: String::new(),
            separator_fg: None,
            separator_bg: None,
            alternating_tint_bg: None,
            native_separators: None,
        }
    }
}

} // verus!
