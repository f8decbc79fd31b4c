use status_line::color::{add_colors, color_from_rgba, color_to_rgba};
use status_line::errors::Error;

#[test]
fn test_color_from_rgba() {
    let valid_rgb = "#AABBCC"; //rgb
    let rgba = color_from_rgba(valid_rgb);
    assert!(rgba.is_ok());
    assert_eq!(rgba.unwrap(), (0xAA, 0xBB, 0xCC, 0xFF));
    let valid_rgba = "#AABBCC00"; // rgba
    let rgba = color_from_rgba(valid_rgba);
    assert!(rgba.is_ok());
    assert_eq!(rgba.unwrap(), (0xAA, 0xBB, 0xCC, 0x00));
}

#[test]
fn test_color_from_rgba_invalid() {
    let invalid = "invalid";
    let rgba = color_from_rgba(invalid);
    assert!(rgba.is_err());
    let invalid = "AA"; // too short
    let rgba = color_from_rgba(invalid);
    assert!(rgba.is_err());
    let invalid = "AABBCC"; // invalid rgba (missing #)
    let rgba = color_from_rgba(invalid);
    assert!(rgba.is_err());
}

#[test]
fn test_color_from_rgba_lowercase() {
    assert_eq!(color_from_rgba("#aabbcc").unwrap(), (0xAA, 0xBB, 0xCC, 0xFF));
    assert_eq!(color_from_rgba("#0f0E0d0c").unwrap(), (0x0F, 0x0E, 0x0D, 0x0C));
}

#[test]
fn test_color_from_rgba_names_offender() {
    // a malformed digit group is named exactly
    assert_eq!(
        color_from_rgba("#AABBGG"),
        Err(Error::InvalidColor("GG".to_string()))
    );
    // a frame error names the whole literal
    assert_eq!(
        color_from_rgba("AABBCCDD"),
        Err(Error::InvalidColor("AABBCCDD".to_string()))
    );
}

#[test]
fn test_color_to_rgba() {
    assert_eq!(color_to_rgba((0xAA, 0xBB, 0xCC, 0x00)), "#AABBCC00");
    assert_eq!(color_to_rgba((0, 1, 255, 16)), "#0001FF10");
}

#[test]
fn test_color_round_trip() {
    let s = color_to_rgba((0x12, 0x34, 0x56, 0x78));
    assert_eq!(color_from_rgba(&s).unwrap(), (0x12, 0x34, 0x56, 0x78));
}

#[test]
fn test_add_colors_blend() {
    // the scenario: #000000FF + #101010FF saturates alpha and adds channels
    assert_eq!(
        add_colors(Some("#000000FF"), Some("#101010FF")).unwrap(),
        Some("#101010FF".to_string())
    );
    // saturation: nothing passes 255
    assert_eq!(
        add_colors(Some("#FFFFFFFF"), Some("#01020304")).unwrap(),
        Some("#FFFFFFFF".to_string())
    );
    assert_eq!(
        add_colors(Some("#F0F0F0"), Some("#202020")).unwrap(),
        Some("#FFFFFFFF".to_string())
    );
}

#[test]
fn test_add_colors_optional_cases() {
    assert_eq!(add_colors(None, Some("#101010FF")).unwrap(), None);
    assert_eq!(
        add_colors(Some("#123456"), None).unwrap(),
        Some("#123456".to_string())
    );
    assert_eq!(
        add_colors(Some("bad"), Some("#000000")),
        Err(Error::InvalidColor("bad".to_string()))
    );
    assert_eq!(
        add_colors(Some("#000000"), Some("#XY0000")),
        Err(Error::InvalidColor("XY".to_string()))
    );
}
