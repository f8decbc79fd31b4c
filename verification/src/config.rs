//! The shared, read-only configuration handle distributed to every block
//! and to the compositor: theme, icon mapping, and scrolling policy.
//!
//! The handle shares its data; duplicating it is cheap. A theme override
//! never mutates shared data in place — it builds a new owned theme and
//! rebinds the handle, so readers never observe a half-updated theme.

use std::rc::Rc;

use vstd::prelude::*;

use crate::errors::Error;
use crate::input::MouseButton;
use crate::text::{assoc_lookup, replace_all, spec_replace, str_eq};
use crate::themes::Theme;

verus! {

/// Which way mouse-wheel events map onto logical motion.
#[derive(Copy, Clone, Debug, PartialEq, Eq, Structural)]
pub enum Scrolling {
    Reverse,
    Natural,
}

/// Logical motion derived from a wheel event.
#[derive(Copy, Clone, Debug, PartialEq, Eq, Structural)]
pub enum LogicalDirection {
    Up,
    Down,
}

/// The logical direction a wheel button maps to under a scrolling policy.
pub open spec fn spec_logical_direction(s: Scrolling, button: MouseButton) -> Option<
    LogicalDirection,
> {
    match (s, button) {
        (Scrolling::Reverse, MouseButton::WheelUp) => Some(LogicalDirection::Up),
        (Scrolling::Natural, MouseButton::WheelDown) => Some(LogicalDirection::Up),
        (Scrolling::Reverse, MouseButton::WheelDown) => Some(LogicalDirection::Down),
        (Scrolling::Natural, MouseButton::WheelUp) => Some(LogicalDirection::Down),
        _ => None,
    }
}

impl Scrolling {
    /// Maps a wheel button onto the logical direction it means under this
    /// policy; non-wheel buttons map to nothing.
    pub fn to_logical_direction(self, button: MouseButton) -> (d: Option<LogicalDirection>)
        ensures
            d == spec_logical_direction(self, button),
    {
        match (self, button) {
            (Scrolling::Reverse, MouseButton::WheelUp) => Some(LogicalDirection::Up),
            (Scrolling::Natural, MouseButton::WheelDown) => Some(LogicalDirection::Up),
            (Scrolling::Reverse, MouseButton::WheelDown) => Some(LogicalDirection::Down),
            (Scrolling::Natural, MouseButton::WheelUp) => Some(LogicalDirection::Down),
            _ => None,
        }
    }
}

impl Default for Scrolling {
    /// Reverse scrolling is the default policy.
    fn default() -> (s: Self)
        ensures
            s == Scrolling::Reverse,
    {
        Scrolling::Reverse
    }
}

/// Validated configuration, as the (external) loader hands it over: the raw
/// icon mapping, the theme, the wrapper applied around every icon, and the
/// scrolling policy.
pub struct Config {
    /// Icon name to raw icon string, not yet wrapped in `icons_format`.
    pub icons: Vec<(String, String)>,
    pub theme: Theme,
    /// Wrapper applied around every icon; `{icon}` marks where the icon
    /// goes.
    pub icons_format: String,
    pub scrolling: Scrolling,
}

impl Default for Config {
    /// No icons, the empty theme, the plain ` {icon} ` wrapper, and reverse
    /// scrolling.
    fn default() -> (c: Self)
        ensures
            c.icons@.len() == 0,
            c.icons_format@ == " {icon} "@,
            c.theme.alternating_tint_bg is None,
            c.theme.native_separators is None,
            c.scrolling == Scrolling::Reverse,
    {
        Config {
            icons: Vec::new(),
            theme: Theme::default(),
            icons_format: " {icon} ".to_owned(),
            scrolling: Scrolling::Reverse,
        }
    }
}

/// Duplicates a reference-counted handle.
///
/// Relies on `Rc::clone`: the clone shares (and therefore equals) the same
/// underlying value.
#[verifier::external_body]
fn rc_clone<T>(rc: &Rc<T>) -> (r: Rc<T>)
    ensures
        r == *rc,
{
    Rc::clone(rc)
}

/// The immutable-after-construction bundle shared by reference across all
/// blocks. Icon values already carry the configured `icons_format` wrapper,
/// applied once at construction; they are never re-wrapped later.
#[derive(Debug)]
pub struct SharedConfig {
    pub theme: Rc<Theme>,
    /// Icon name to wrapped icon string; read through [`Self::get_icon`].
    pub icons: Rc<Vec<(String, String)>>,
    pub scrolling: Scrolling,
}

impl SharedConfig {
    /// The icon mapping held by the handle, for specification purposes.
    pub open spec fn icons_view(&self) -> Seq<(String, String)> {
        self.icons@
    }

    /// Builds the shared handle from validated configuration, wrapping every
    /// icon value in the configured icon format.
    pub fn new(config: &Config) -> (sc: Self)
        ensures
            *sc.theme == config.theme,
            sc.scrolling == config.scrolling,
            sc.icons_view().len() == config.icons@.len(),
            forall|i: int|
                0 <= i < config.icons@.len() ==> (#[trigger] sc.icons_view()[i]).0@
                    == config.icons@[i].0@ && sc.icons_view()[i].1@ == spec_replace(
                    config.icons_format@,
                    "{icon}"@,
                    config.icons@[i].1@,
                ),
    {
        proof {
            reveal_strlit("{icon}");
        }
        let mut icons: Vec<(String, String)> = Vec::new();
        let mut i: usize = 0;
        while i < config.icons.len()
            invariant
                0 <= i <= config.icons@.len(),
                icons@.len() == i,
                "{icon}"@.len() >= 1,
                forall|k: int|
                    0 <= k < i ==> (#[trigger] icons@[k]).0@ == config.icons@[k].0@
                        && icons@[k].1@ == spec_replace(
                        config.icons_format@,
                        "{icon}"@,
                        config.icons@[k].1@,
                    ),
            decreases config.icons@.len() - i,
        {
            let name = config.icons[i].0.clone();
            let wrapped = replace_all(
                config.icons_format.as_str(),
                "{icon}",
                config.icons[i].1.as_str(),
            );
            icons.push((name, wrapped));
            i = i + 1;
        }
        SharedConfig {
            theme: Rc::new(config.theme.clone()),
            icons: Rc::new(icons),
            scrolling: config.scrolling,
        }
    }

    /// Applies theme overrides, accepting exactly the ten role color keys;
    /// any other key is a configuration error naming that key, and then the
    /// handle is left unchanged. On success a new owned theme value replaces
    /// the shared one.
    pub fn theme_override(&mut self, overrides: &Vec<(String, String)>) -> (res: Result<(), Error>)
        ensures
            match spec_apply_overrides(*old(self).theme, overrides@) {
                Ok(t) => res is Ok && *final(self).theme == t && final(self).icons_view() == old(
                    self,
                ).icons_view() && final(self).scrolling == old(self).scrolling,
                Err(k) => res matches Err(e) && e matches Error::ConfigurationError(s) && s@ == k
                    && *final(self) == *old(self),
            },
    {
        let mut theme = (*self.theme).clone();
        let ghost t0: Theme = theme;
        proof {
            assert(overrides@.take(0) =~= Seq::<(String, String)>::empty());
        }
        let mut i: usize = 0;
        while i < overrides.len()
            invariant
                0 <= i <= overrides@.len(),
                spec_apply_overrides(t0, overrides@.take(i as int)) == Ok::<Theme, Seq<char>>(
                    theme,
                ),
                *self == *old(self),
                t0 == *old(self).theme,
            decreases overrides@.len() - i,
        {
            let key = &overrides[i].0;
            let val = overrides[i].1.clone();
            proof {
                assert(overrides@.take(i + 1).drop_last() =~= overrides@.take(i as int));
                assert(overrides@.take(i + 1).last() == overrides@[i as int]);
            }
            if str_eq(key.as_str(), "idle_fg") {
                theme.idle_fg = Some(val);
            } else if str_eq(key.as_str(), "idle_bg") {
                theme.idle_bg = Some(val);
            } else if str_eq(key.as_str(), "info_fg") {
                theme.info_fg = Some(val);
            } else if str_eq(key.as_str(), "info_bg") {
                theme.info_bg = Some(val);
            } else if str_eq(key.as_str(), "good_fg") {
                theme.good_fg = Some(val);
            } else if str_eq(key.as_str(), "good_bg") {
                theme.good_bg = Some(val);
            } else if str_eq(key.as_str(), "warning_fg") {
                theme.warning_fg = Some(val);
            } else if str_eq(key.as_str(), "warning_bg") {
                theme.warning_bg = Some(val);
            } else if str_eq(key.as_str(), "critical_fg") {
                theme.critical_fg = Some(val);
            } else if str_eq(key.as_str(), "critical_bg") {
                theme.critical_bg = Some(val);
            } else {
                proof {
                    lemma_overrides_err_persists(t0, overrides@, i + 1);
                }
                return Err(Error::ConfigurationError(key.clone()));
            }
            i = i + 1;
        }
        proof {
            assert(overrides@.take(overrides@.len() as int) =~= overrides@);
        }
        self.theme = Rc::new(theme);
        Ok(())
    }

    /// Looks an icon up by name; the returned string already carries the
    /// icon-format wrapper applied at construction time.
    pub fn get_icon(&self, icon: &str) -> (r: Option<String>)
        ensures
            match assoc_lookup(self.icons_view(), icon@) {
                Some(v) => r matches Some(s) && s@ == v,
                None => r is None,
            },
    {
        crate::text::assoc_get(&self.icons, icon)
    }
}

impl Clone for SharedConfig {
    /// A second handle onto the same shared data.
    fn clone(&self) -> (r: Self)
        ensures
            r == *self,
    {
        SharedConfig {
            theme: rc_clone(&self.theme),
            icons: rc_clone(&self.icons),
            scrolling: self.scrolling,
        }
    }
}

impl Default for SharedConfig {
    /// A handle over the default configuration: empty theme, no icons,
    /// reverse scrolling.
    fn default() -> (sc: Self)
        ensures
            sc.icons_view().len() == 0,
            sc.scrolling == Scrolling::Reverse,
            sc.theme.alternating_tint_bg is None,
            sc.theme.native_separators is None,
    {
        SharedConfig {
            theme: Rc::new(Theme::default()),
            icons: Rc::new(Vec::new()),
            scrolling: Scrolling::Reverse,
        }
    }
}

/// One theme override applied to one theme value, or nothing for an unknown
/// key.
pub open spec fn spec_apply_override(t: Theme, key: Seq<char>, val: String) -> Option<Theme> {
    if key == "idle_fg"@ {
        Some(Theme { idle_fg: Some(val), ..t })
    } else if key == "idle_bg"@ {
        Some(Theme { idle_bg: Some(val), ..t })
    } else if key == "info_fg"@ {
        Some(Theme { info_fg: Some(val), ..t })
    } else if key == "info_bg"@ {
        Some(Theme { info_bg: Some(val), ..t })
    } else if key == "good_fg"@ {
        Some(Theme { good_fg: Some(val), ..t })
    } else if key == "good_bg"@ {
        Some(Theme { good_bg: Some(val), ..t })
    } else if key == "warning_fg"@ {
        Some(Theme { warning_fg: Some(val), ..t })
    } else if key == "warning_bg"@ {
        Some(Theme { warning_bg: Some(val), ..t })
    } else if key == "critical_fg"@ {
        Some(Theme { critical_fg: Some(val), ..t })
    } else if key == "critical_bg"@ {
        Some(Theme { critical_bg: Some(val), ..t })
    } else {
        None
    }
}

/// A list of overrides applied left to right; the first unknown key aborts
/// with that key.
pub open spec fn spec_apply_overrides(t: Theme, ovs: Seq<(String, String)>) -> Result<
    Theme,
    Seq<char>,
>
    decreases ovs.len(),
{
    if ovs.len() == 0 {
        Ok(t)
    } else {
        match spec_apply_overrides(t, ovs.drop_last()) {
            Err(k) => Err(k),
            Ok(t2) => match spec_apply_override(t2, ovs.last().0@, ovs.last().1) {
                Some(t3) => Ok(t3),
                None => Err(ovs.last().0@),
            },
        }
    }
}

proof fn lemma_overrides_err_persists(t: Theme, ovs: Seq<(String, String)>, i: int)
    requires
        0 <= i <= ovs.len(),
        spec_apply_overrides(t, ovs.take(i)) is Err,
    ensures
        spec_apply_overrides(t, ovs) == spec_apply_overrides(t, ovs.take(i)),
    decreases ovs.len() - i,
{
    if i < ovs.len() {
        assert(ovs.take(i + 1).drop_last() =~= ovs.take(i));
        lemma_overrides_err_persists(t, ovs, i + 1);
    } else {
        assert(ovs.take(i) =~= ovs);
    }
}

} // verus!
