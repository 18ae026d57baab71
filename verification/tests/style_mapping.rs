use button_attach_bot::keyboard::{map_style_callback, style_display_name};

#[test]
fn test_primary_style() {
    assert_eq!(map_style_callback("style_primary"), Some("primary".to_string()));
}

#[test]
fn test_success_style() {
    assert_eq!(map_style_callback("style_success"), Some("success".to_string()));
}

#[test]
fn test_danger_style() {
    assert_eq!(map_style_callback("style_danger"), Some("danger".to_string()));
}

#[test]
fn test_default_style() {
    assert_eq!(map_style_callback("style_default"), None);
}

#[test]
fn test_unknown_style() {
    assert_eq!(map_style_callback("unknown"), None);
    assert_eq!(map_style_callback(""), None);
}

#[test]
fn test_style_display_names() {
    assert_eq!(style_display_name(Some("primary")), "🔵 Primary");
    assert_eq!(style_display_name(Some("success")), "🟢 Success");
    assert_eq!(style_display_name(Some("danger")), "🔴 Danger");
    assert_eq!(style_display_name(Some("purple")), "⚪ Default");
    assert_eq!(style_display_name(None), "⚪ Default");
}
