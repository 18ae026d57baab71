use button_attach_bot::json::Json;
use button_attach_bot::keyboard::{
    build_confirm_keyboard, build_destination_keyboard, build_emoji_keyboard, build_inline_keyboard,
    build_remove_keyboard, build_style_keyboard, SEND_TO_ME_TEXT,
};
use button_attach_bot::session::ButtonConfig;

fn text_of<'a>(j: &'a Json, key: &str) -> Option<&'a str> {
    j.get(key).and_then(|v| v.as_str())
}

fn button_at<'a>(keyboard: &'a Json, key: &str, row: usize, col: usize) -> &'a Json {
    keyboard.get(key).unwrap().at(row).unwrap().at(col).unwrap()
}

#[test]
fn test_single_button_structure() {
    let buttons = vec![ButtonConfig {
        text: "Click me".to_string(),
        url: "https://example.com".to_string(),
        style: Some("primary".to_string()),
        icon_custom_emoji_id: None,
    }];

    let keyboard = build_inline_keyboard(&buttons);

    assert!(keyboard.get("inline_keyboard").is_some());
    let rows = keyboard.get("inline_keyboard").unwrap();
    assert_eq!(rows.array_len(), Some(1));

    let row = rows.at(0).unwrap();
    assert_eq!(row.array_len(), Some(1));

    let button = row.at(0).unwrap();
    assert_eq!(text_of(button, "text"), Some("Click me"));
    assert_eq!(text_of(button, "url"), Some("https://example.com"));
    assert_eq!(text_of(button, "style"), Some("primary"));
    assert!(button.get("icon_custom_emoji_id").is_none());
}

#[test]
fn test_button_with_emoji() {
    let buttons = vec![ButtonConfig {
        text: "Shop Now".to_string(),
        url: "https://shop.example.com".to_string(),
        style: Some("success".to_string()),
        icon_custom_emoji_id: Some("5368324170671202286".to_string()),
    }];

    let keyboard = build_inline_keyboard(&buttons);
    let button = button_at(&keyboard, "inline_keyboard", 0, 0);

    assert_eq!(text_of(button, "text"), Some("Shop Now"));
    assert_eq!(text_of(button, "style"), Some("success"));
    assert_eq!(text_of(button, "icon_custom_emoji_id"), Some("5368324170671202286"));
}

#[test]
fn test_button_without_style() {
    let buttons = vec![ButtonConfig {
        text: "Learn More".to_string(),
        url: "https://docs.example.com".to_string(),
        style: None,
        icon_custom_emoji_id: None,
    }];

    let keyboard = build_inline_keyboard(&buttons);
    let button = button_at(&keyboard, "inline_keyboard", 0, 0);

    assert_eq!(text_of(button, "text"), Some("Learn More"));
    assert_eq!(text_of(button, "url"), Some("https://docs.example.com"));
    assert!(button.get("style").is_none());
}

#[test]
fn test_multiple_buttons_each_own_row() {
    let buttons = vec![
        ButtonConfig {
            text: "Button 1".to_string(),
            url: "https://example.com/1".to_string(),
            style: Some("primary".to_string()),
            icon_custom_emoji_id: None,
        },
        ButtonConfig {
            text: "Button 2".to_string(),
            url: "https://example.com/2".to_string(),
            style: Some("success".to_string()),
            icon_custom_emoji_id: None,
        },
        ButtonConfig {
            text: "Button 3".to_string(),
            url: "https://example.com/3".to_string(),
            style: Some("danger".to_string()),
            icon_custom_emoji_id: None,
        },
    ];

    let keyboard = build_inline_keyboard(&buttons);
    let rows = keyboard.get("inline_keyboard").unwrap();

    assert_eq!(rows.array_len(), Some(3));

    for i in 0..3 {
        assert_eq!(rows.at(i).unwrap().array_len(), Some(1));
    }

    assert_eq!(text_of(button_at(&keyboard, "inline_keyboard", 0, 0), "text"), Some("Button 1"));
    assert_eq!(text_of(button_at(&keyboard, "inline_keyboard", 0, 0), "style"), Some("primary"));
    assert_eq!(text_of(button_at(&keyboard, "inline_keyboard", 1, 0), "text"), Some("Button 2"));
    assert_eq!(text_of(button_at(&keyboard, "inline_keyboard", 1, 0), "style"), Some("success"));
    assert_eq!(text_of(button_at(&keyboard, "inline_keyboard", 2, 0), "text"), Some("Button 3"));
    assert_eq!(text_of(button_at(&keyboard, "inline_keyboard", 2, 0), "style"), Some("danger"));
}

#[test]
fn test_empty_buttons() {
    let buttons: Vec<ButtonConfig> = vec![];
    let keyboard = build_inline_keyboard(&buttons);

    let rows = keyboard.get("inline_keyboard").unwrap();
    assert_eq!(rows.array_len(), Some(0));
}

#[test]
fn test_destination_keyboard_layout() {
    let keyboard = build_destination_keyboard();

    assert_eq!(keyboard.get("resize_keyboard").unwrap().as_bool(), Some(true));
    assert_eq!(keyboard.get("one_time_keyboard").unwrap().as_bool(), Some(true));

    let rows = keyboard.get("keyboard").unwrap();
    assert_eq!(rows.array_len(), Some(2));
    assert_eq!(rows.at(0).unwrap().array_len(), Some(2));

    let group = button_at(&keyboard, "keyboard", 0, 0);
    assert_eq!(text_of(group, "text"), Some("👥 Choose a group"));
    let request = group.get("request_chat").unwrap();
    assert_eq!(request.get("request_id").unwrap().as_i64(), Some(1));
    assert_eq!(request.get("chat_is_channel").unwrap().as_bool(), Some(false));
    assert_eq!(request.get("bot_is_member").unwrap().as_bool(), Some(true));
    assert!(request.get("bot_administrator_rights").is_none());

    let channel = button_at(&keyboard, "keyboard", 0, 1);
    assert_eq!(text_of(channel, "text"), Some("📢 Choose a channel"));
    let request = channel.get("request_chat").unwrap();
    assert_eq!(request.get("request_id").unwrap().as_i64(), Some(2));
    assert_eq!(request.get("chat_is_channel").unwrap().as_bool(), Some(true));
    assert_eq!(request.get("bot_is_member").unwrap().as_bool(), Some(true));

    let send_to_me = button_at(&keyboard, "keyboard", 1, 0);
    assert_eq!(text_of(send_to_me, "text"), Some("📨 Send back to me"));
    assert_eq!(text_of(send_to_me, "text"), Some(SEND_TO_ME_TEXT));
    assert!(send_to_me.get("request_chat").is_none());
}

#[test]
fn test_remove_keyboard() {
    let keyboard = build_remove_keyboard();
    assert_eq!(keyboard.get("remove_keyboard").unwrap().as_bool(), Some(true));
}

#[test]
fn test_style_keyboard_layout() {
    let keyboard = build_style_keyboard();
    let expected = [
        (0, 0, "🔵 Primary", "style_primary"),
        (0, 1, "🟢 Success", "style_success"),
        (1, 0, "🔴 Danger", "style_danger"),
        (1, 1, "⚪ Default", "style_default"),
    ];
    for (row, col, text, data) in expected {
        let b = button_at(&keyboard, "inline_keyboard", row, col);
        assert_eq!(text_of(b, "text"), Some(text));
        assert_eq!(text_of(b, "callback_data"), Some(data));
    }
    assert_eq!(keyboard.get("inline_keyboard").unwrap().array_len(), Some(2));
}

#[test]
fn test_emoji_and_confirm_keyboards() {
    let emoji = build_emoji_keyboard();
    let skip = button_at(&emoji, "inline_keyboard", 0, 0);
    assert_eq!(text_of(skip, "text"), Some("⏭ Skip"));
    assert_eq!(text_of(skip, "callback_data"), Some("emoji_skip"));

    let confirm = build_confirm_keyboard();
    let expected = [
        (0, 0, "✅ Publish", "action_publish"),
        (0, 1, "➕ Add another button", "action_add"),
        (1, 0, "❌ Cancel", "action_cancel"),
    ];
    for (row, col, text, data) in expected {
        let b = button_at(&confirm, "inline_keyboard", row, col);
        assert_eq!(text_of(b, "text"), Some(text));
        assert_eq!(text_of(b, "callback_data"), Some(data));
    }
    assert_eq!(confirm.get("inline_keyboard").unwrap().at(1).unwrap().array_len(), Some(1));
}

#[test]
fn test_button_json_members() {
    let b = ButtonConfig::new("A".to_string(), "https://a".to_string(), None, Some("7".to_string()));
    let j = b.to_json();
    assert_eq!(text_of(&j, "text"), Some("A"));
    assert_eq!(text_of(&j, "url"), Some("https://a"));
    assert!(j.get("style").is_none());
    assert_eq!(text_of(&j, "icon_custom_emoji_id"), Some("7"));
    assert!(j.get("missing").is_none());
    assert!(j.at(0).is_none());
}
