use button_attach_bot::session::{ButtonConfig, SessionData};

#[test]
fn test_new_session_is_empty() {
    let session = SessionData::new();
    assert!(session.source_chat_id.is_none());
    assert!(session.source_message_id.is_none());
    assert!(session.destination_chat_id.is_none());
    assert!(session.buttons.is_empty());
    assert_eq!(session.button_count(), 0);
}

#[test]
fn test_set_source_info() {
    let mut session = SessionData::new();
    session.source_chat_id = Some(123456789);
    session.source_message_id = Some(42);

    assert_eq!(session.source_chat_id, Some(123456789));
    assert_eq!(session.source_message_id, Some(42));
}

#[test]
fn test_finalize_button() {
    let mut session = SessionData::new();
    session.current_button_text = Some("Click Here".to_string());
    session.current_button_url = Some("https://example.com".to_string());
    session.current_button_style = Some("primary".to_string());
    session.current_button_emoji = Some("5368324170671202286".to_string());

    let button = session.finalize_current_button();

    assert!(button.is_some());
    let button = button.unwrap();
    assert_eq!(button.text, "Click Here");
    assert_eq!(button.url, "https://example.com");
    assert_eq!(button.style, Some("primary".to_string()));
    assert_eq!(button.icon_custom_emoji_id, Some("5368324170671202286".to_string()));

    assert_eq!(session.button_count(), 1);

    assert!(session.current_button_text.is_none());
    assert!(session.current_button_url.is_none());
    assert!(session.current_button_style.is_none());
    assert!(session.current_button_emoji.is_none());
}

#[test]
fn test_finalize_button_without_optional_fields() {
    let mut session = SessionData::new();
    session.current_button_text = Some("Simple Button".to_string());
    session.current_button_url = Some("https://example.com".to_string());

    let button = session.finalize_current_button();

    assert!(button.is_some());
    let button = button.unwrap();
    assert_eq!(button.text, "Simple Button");
    assert_eq!(button.url, "https://example.com");
    assert!(button.style.is_none());
    assert!(button.icon_custom_emoji_id.is_none());
}

#[test]
fn test_finalize_button_fails_without_text() {
    let mut session = SessionData::new();
    session.current_button_url = Some("https://example.com".to_string());

    let button = session.finalize_current_button();
    assert!(button.is_none());
    assert_eq!(session.button_count(), 0);
}

#[test]
fn test_finalize_button_fails_without_url() {
    let mut session = SessionData::new();
    session.current_button_text = Some("Button".to_string());

    let button = session.finalize_current_button();
    assert!(button.is_none());
    assert_eq!(session.button_count(), 0);
}

#[test]
fn test_multiple_buttons() {
    let mut session = SessionData::new();

    session.current_button_text = Some("Button 1".to_string());
    session.current_button_url = Some("https://example.com/1".to_string());
    session.current_button_style = Some("primary".to_string());
    session.finalize_current_button();

    session.current_button_text = Some("Button 2".to_string());
    session.current_button_url = Some("https://example.com/2".to_string());
    session.current_button_style = Some("success".to_string());
    session.finalize_current_button();

    session.current_button_text = Some("Button 3".to_string());
    session.current_button_url = Some("https://example.com/3".to_string());
    session.current_button_style = Some("danger".to_string());
    session.finalize_current_button();

    assert_eq!(session.button_count(), 3);
    assert_eq!(session.buttons[0].text, "Button 1");
    assert_eq!(session.buttons[1].text, "Button 2");
    assert_eq!(session.buttons[2].text, "Button 3");
}

#[test]
fn test_clear_session() {
    let mut session = SessionData::new();
    session.source_chat_id = Some(123);
    session.destination_chat_id = Some(456);
    session.current_button_text = Some("Test".to_string());
    session.buttons.push(ButtonConfig {
        text: "Btn".to_string(),
        url: "https://x.com".to_string(),
        style: None,
        icon_custom_emoji_id: None,
    });

    session.clear();

    assert!(session.source_chat_id.is_none());
    assert!(session.destination_chat_id.is_none());
    assert!(session.current_button_text.is_none());
    assert!(session.buttons.is_empty());
}

#[test]
fn test_clear_current_button() {
    let mut session = SessionData::new();
    session.source_chat_id = Some(123);
    session.current_button_text = Some("Test".to_string());
    session.current_button_url = Some("https://x.com".to_string());
    session.current_button_style = Some("primary".to_string());
    session.current_button_emoji = Some("emoji".to_string());

    session.clear_current_button();

    assert_eq!(session.source_chat_id, Some(123));
    assert!(session.current_button_text.is_none());
    assert!(session.current_button_url.is_none());
    assert!(session.current_button_style.is_none());
    assert!(session.current_button_emoji.is_none());
}

#[test]
fn test_failed_finalize_takes_text_and_url_only() {
    let mut session = SessionData::new();
    session.current_button_text = Some("Button".to_string());
    session.current_button_style = Some("danger".to_string());
    session.current_button_emoji = Some("42".to_string());

    assert!(session.finalize_current_button().is_none());
    assert!(session.current_button_text.is_none());
    assert!(session.current_button_url.is_none());
    assert_eq!(session.current_button_style, Some("danger".to_string()));
    assert_eq!(session.current_button_emoji, Some("42".to_string()));
}

#[test]
fn test_button_config_new_keeps_fields() {
    let b = ButtonConfig::new(
        "Go".to_string(),
        "tg://x".to_string(),
        Some("success".to_string()),
        None,
    );
    assert_eq!(b.text, "Go");
    assert_eq!(b.url, "tg://x");
    assert_eq!(b.style, Some("success".to_string()));
    assert_eq!(b.icon_custom_emoji_id, None);
    assert_eq!(b.clone(), b);
}
