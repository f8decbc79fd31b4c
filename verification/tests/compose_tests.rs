use status_line::compose::compose_blocks;
use status_line::config::{Config, Scrolling, SharedConfig};
use status_line::errors::Error;
use status_line::themes::Theme;
use status_line::widgets::Widget;

fn widget(text: &str, color: Option<&str>, background: Option<&str>) -> Widget {
    Widget {
        full_text: text.to_string(),
        color: color.map(|c| c.to_string()),
        background: background.map(|c| c.to_string()),
        separator: None,
        separator_block_width: None,
    }
}

fn shared(theme: Theme) -> SharedConfig {
    SharedConfig::new(&Config {
        icons: Vec::new(),
        theme,
        icons_format: " {icon} ".to_string(),
        scrolling: Scrolling::Reverse,
    })
}

#[test]
fn test_widget_render() {
    let w = Widget {
        full_text: "hi".to_string(),
        color: Some("#FF0000".to_string()),
        background: None,
        separator: Some(false),
        separator_block_width: Some(9),
    };
    assert_eq!(
        w.render(),
        "{\"full_text\":\"hi\",\"color\":\"#FF0000\",\"separator\":false,\"separator_block_width\":9}"
    );
    assert_eq!(Widget::new_text("a".to_string()).render(), "{\"full_text\":\"a\"}");
}

#[test]
fn test_compose_no_blocks() {
    let sc = shared(Theme::default());
    assert_eq!(compose_blocks(&vec![], &sc).unwrap(), "[],");
}

#[test]
fn test_compose_all_blocks_empty() {
    let sc = shared(Theme::default());
    assert_eq!(compose_blocks(&vec![vec![], vec![]], &sc).unwrap(), "[],");
}

#[test]
fn test_compose_single_block() {
    let sc = shared(Theme::default());
    let blocks = vec![vec![widget("w", None, Some("#111111"))]];
    assert_eq!(
        compose_blocks(&blocks, &sc).unwrap(),
        "[{\"full_text\":\"\"},{\"full_text\":\"w\",\"background\":\"#111111\"}],"
    );
}

#[test]
fn test_compose_missing_background_is_internal_error() {
    let sc = shared(Theme::default());
    let blocks = vec![vec![widget("w", None, None)]];
    assert!(matches!(
        compose_blocks(&blocks, &sc),
        Err(Error::InternalError(_))
    ));
}

#[test]
fn test_compose_tints_every_second_block_but_never_the_last() {
    let mut theme = Theme::default();
    theme.alternating_tint_bg = Some("#101010".to_string());
    let sc = shared(theme);
    let blocks = vec![
        vec![widget("a", Some("#000000"), Some("#000000"))],
        vec![widget("b", Some("#000000"), Some("#000000"))],
    ];
    // two visible blocks: the first is tinted, the last stays untinted
    assert_eq!(
        compose_blocks(&blocks, &sc).unwrap(),
        "[{\"full_text\":\"\"},{\"full_text\":\"a\",\"color\":\"#101010FF\",\"background\":\"#101010FF\"},{\"full_text\":\"\"},{\"full_text\":\"b\",\"color\":\"#000000\",\"background\":\"#000000\"}],"
    );
}

#[test]
fn test_compose_odd_count_keeps_last_untinted() {
    let mut theme = Theme::default();
    theme.alternating_tint_bg = Some("#101010".to_string());
    let sc = shared(theme);
    let blocks = vec![vec![widget("only", Some("#000000"), Some("#000000"))]];
    // one visible block: it is the last, so it is untinted
    assert_eq!(
        compose_blocks(&blocks, &sc).unwrap(),
        "[{\"full_text\":\"\"},{\"full_text\":\"only\",\"color\":\"#000000\",\"background\":\"#000000\"}],"
    );
}

#[test]
fn test_compose_auto_separator_colors() {
    let mut theme = Theme::default();
    theme.separator = "|".to_string();
    theme.separator_fg = Some("auto".to_string());
    theme.separator_bg = Some("auto".to_string());
    let sc = shared(theme);
    let blocks = vec![
        vec![widget("x", None, Some("#111111"))],
        vec![widget("y", None, Some("#222222"))],
    ];
    // separator foreground comes from the block's first widget; separator
    // background from the previous visible block's last widget
    assert_eq!(
        compose_blocks(&blocks, &sc).unwrap(),
        "[{\"full_text\":\"|\",\"color\":\"#111111\"},{\"full_text\":\"x\",\"background\":\"#111111\"},{\"full_text\":\"|\",\"color\":\"#222222\",\"background\":\"#111111\"},{\"full_text\":\"y\",\"background\":\"#222222\"}],"
    );
}

#[test]
fn test_compose_native_separators() {
    let mut theme = Theme::default();
    theme.native_separators = Some(true);
    let sc = shared(theme);
    let mut first = widget("x", None, None);
    first.separator = Some(true);
    first.separator_block_width = Some(9);
    let mut last = widget("y", None, None);
    last.separator = Some(true);
    last.separator_block_width = Some(32);
    let blocks = vec![vec![first, last]];
    // no separator widget is synthesized, and the block's last widget loses
    // its separator data so the host draws its own
    assert_eq!(
        compose_blocks(&blocks, &sc).unwrap(),
        "[{\"full_text\":\"x\",\"separator\":true,\"separator_block_width\":9},{\"full_text\":\"y\"}],"
    );
}

#[test]
fn test_compose_malformed_tint_is_internal_error() {
    let mut theme = Theme::default();
    theme.alternating_tint_bg = Some("bad".to_string());
    let sc = shared(theme);
    let blocks = vec![
        vec![widget("a", None, Some("#000000"))],
        vec![widget("b", None, Some("#000000"))],
    ];
    assert!(matches!(
        compose_blocks(&blocks, &sc),
        Err(Error::InternalError(_))
    ));
}
