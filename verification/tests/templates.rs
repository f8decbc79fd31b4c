use status_line::errors::Error;
use status_line::template::FormatTemplate;

fn vars(pairs: &[(&str, &str)]) -> Vec<(String, String)> {
    pairs
        .iter()
        .map(|(k, v)| (k.to_string(), v.to_string()))
        .collect()
}

#[test]
fn test_render_two_placeholders() {
    let t = FormatTemplate::from_string("{a} and {b}").unwrap();
    let vs = vars(&[("{a}", "x"), ("{b}", "y")]);
    assert_eq!(t.render_static_str(&vs).unwrap(), "x and y");
}

#[test]
fn test_render_missing_placeholder_names_it() {
    let t = FormatTemplate::from_string("{a} and {b}").unwrap();
    let vs = vars(&[("{a}", "x")]);
    assert_eq!(
        t.render_static_str(&vs),
        Err(Error::UnknownPlaceholder("{b}".to_string()))
    );
}

#[test]
fn test_braces_without_valid_name_are_literal() {
    // a space is not a placeholder character, so "{not ok}" stays literal
    let t = FormatTemplate::from_string("a {not ok} b{x}").unwrap();
    let vs = vars(&[("{x}", "X")]);
    assert_eq!(t.render_static_str(&vs).unwrap(), "a {not ok} bX");
}

#[test]
fn test_placeholder_name_characters() {
    let t = FormatTemplate::from_string("{v_1-a}!").unwrap();
    let vs = vars(&[("{v_1-a}", "ok")]);
    // text after the final placeholder is not a gap between matches and is
    // dropped
    assert_eq!(t.render_static_str(&vs).unwrap(), "ok");
}

#[test]
fn test_template_without_placeholders_renders_empty() {
    let t = FormatTemplate::from_string("plain text").unwrap();
    let vs = vars(&[]);
    assert_eq!(t.render_static_str(&vs).unwrap(), "");
}
