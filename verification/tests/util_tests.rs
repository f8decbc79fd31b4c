use status_line::errors::Error;
use status_line::util::{battery_level_to_icon, escape_pango_text, pseudo_uuid, IdCounter};

#[test]
fn test_pseudo_uuid_decreases_from_max() {
    let mut ids = IdCounter::new();
    let first = pseudo_uuid(&mut ids);
    let second = pseudo_uuid(&mut ids);
    assert_eq!(first, usize::MAX);
    assert_eq!(second, usize::MAX - 1);
    assert_ne!(first, second);
}

#[test]
fn test_escape_pango_text() {
    assert_eq!(
        escape_pango_text("a&b<c>'d".to_string()),
        "a&amp;b&lt;c&gt;&#39;d"
    );
    assert_eq!(escape_pango_text("plain".to_string()), "plain");
    assert_eq!(escape_pango_text("".to_string()), "");
}

#[test]
fn test_error_message() {
    assert_eq!(
        Error::InvalidColor("GG".to_string()).message(),
        "GG"
    );
    assert_eq!(
        Error::UnknownPlaceholder("{b}".to_string()).message(),
        "{b}"
    );
}

#[test]
fn test_battery_level_to_icon() {
    assert_eq!(battery_level_to_icon(Ok(0)), "bat_empty");
    assert_eq!(battery_level_to_icon(Ok(5)), "bat_empty");
    assert_eq!(battery_level_to_icon(Ok(6)), "bat_quarter");
    assert_eq!(battery_level_to_icon(Ok(25)), "bat_quarter");
    assert_eq!(battery_level_to_icon(Ok(26)), "bat_half");
    assert_eq!(battery_level_to_icon(Ok(50)), "bat_half");
    assert_eq!(battery_level_to_icon(Ok(51)), "bat_three_quarters");
    assert_eq!(battery_level_to_icon(Ok(75)), "bat_three_quarters");
    assert_eq!(battery_level_to_icon(Ok(76)), "bat_full");
    assert_eq!(
        battery_level_to_icon(Err(Error::InternalError("no reading".to_string()))),
        "bat_full"
    );
}
