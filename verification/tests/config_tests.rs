use status_line::config::{Config, LogicalDirection, Scrolling, SharedConfig};
use status_line::errors::Error;
use status_line::input::MouseButton;
use status_line::themes::Theme;

fn pairs(entries: &[(&str, &str)]) -> Vec<(String, String)> {
    entries
        .iter()
        .map(|(k, v)| (k.to_string(), v.to_string()))
        .collect()
}

#[test]
fn test_theme_override_known_keys() {
    let mut sc = SharedConfig::default();
    let res = sc.theme_override(&pairs(&[
        ("idle_fg", "#112233"),
        ("critical_bg", "#445566"),
    ]));
    assert!(res.is_ok());
    assert_eq!(sc.theme.idle_fg, Some("#112233".to_string()));
    assert_eq!(sc.theme.critical_bg, Some("#445566".to_string()));
    assert_eq!(sc.theme.idle_bg, None);
}

#[test]
fn test_theme_override_unknown_key() {
    let mut sc = SharedConfig::default();
    let res = sc.theme_override(&pairs(&[("separator", "|")]));
    assert_eq!(res, Err(Error::ConfigurationError("separator".to_string())));
    // the handle is left untouched on error
    assert_eq!(sc.theme.idle_fg, None);
}

#[test]
fn test_theme_override_aborts_whole_update() {
    let mut sc = SharedConfig::default();
    let res = sc.theme_override(&pairs(&[("good_fg", "#00FF00"), ("bogus", "#1")]));
    assert_eq!(res, Err(Error::ConfigurationError("bogus".to_string())));
    assert_eq!(sc.theme.good_fg, None);
}

#[test]
fn test_get_icon_applies_format() {
    let config = Config {
        icons: pairs(&[("bat", "B"), ("net", "N")]),
        theme: Theme::default(),
        icons_format: "<{icon}>".to_string(),
        scrolling: Scrolling::Reverse,
    };
    let sc = SharedConfig::new(&config);
    assert_eq!(sc.get_icon("bat"), Some("<B>".to_string()));
    assert_eq!(sc.get_icon("net"), Some("<N>".to_string()));
    assert_eq!(sc.get_icon("cpu"), None);
}

#[test]
fn test_icon_format_replaces_every_occurrence() {
    let config = Config {
        icons: pairs(&[("z", "q")]),
        theme: Theme::default(),
        icons_format: "{icon}{icon}!".to_string(),
        scrolling: Scrolling::Reverse,
    };
    let sc = SharedConfig::new(&config);
    assert_eq!(sc.get_icon("z"), Some("qq!".to_string()));
}

#[test]
fn test_shared_config_clone_shares_data() {
    let config = Config {
        icons: pairs(&[("bat", "B")]),
        theme: Theme::default(),
        icons_format: " {icon} ".to_string(),
        scrolling: Scrolling::Natural,
    };
    let sc = SharedConfig::new(&config);
    let copy = sc.clone();
    assert_eq!(copy.get_icon("bat"), Some(" B ".to_string()));
    assert!(matches!(copy.scrolling, Scrolling::Natural));
}

#[test]
fn test_to_logical_direction() {
    assert_eq!(
        Scrolling::Reverse.to_logical_direction(MouseButton::WheelUp),
        Some(LogicalDirection::Up)
    );
    assert_eq!(
        Scrolling::Reverse.to_logical_direction(MouseButton::WheelDown),
        Some(LogicalDirection::Down)
    );
    assert_eq!(
        Scrolling::Natural.to_logical_direction(MouseButton::WheelUp),
        Some(LogicalDirection::Down)
    );
    assert_eq!(
        Scrolling::Natural.to_logical_direction(MouseButton::WheelDown),
        Some(LogicalDirection::Up)
    );
    assert_eq!(Scrolling::Reverse.to_logical_direction(MouseButton::Left), None);
}
