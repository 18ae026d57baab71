use button_attach_bot::json::Json;
use button_attach_bot::keyboard::{
    answer_callback_body, build_remove_keyboard, copy_message_body, copy_message_outcome,
    edit_message_body, edit_message_outcome, send_message_body, send_message_outcome,
};

fn int_of(j: &Json, key: &str) -> Option<i64> {
    j.get(key).and_then(|v| v.as_i64())
}

fn str_of<'a>(j: &'a Json, key: &str) -> Option<&'a str> {
    j.get(key).and_then(|v| v.as_str())
}

#[test]
fn test_copy_outcome_ok() {
    assert_eq!(copy_message_outcome(Some(true), None), Ok(()));
}

#[test]
fn test_copy_outcome_messages() {
    let rights = "I couldn't post to that chat. Make sure I'm an admin with permission to post messages.";
    assert_eq!(copy_message_outcome(Some(false), Some("Bad Request: not enough rights to send")), Err(rights.to_string()));
    assert_eq!(copy_message_outcome(Some(false), Some("CHAT_ADMIN_REQUIRED")), Err(rights.to_string()));
    assert_eq!(copy_message_outcome(None, Some("need administrator rights in the channel chat")), Err(rights.to_string()));
    assert_eq!(copy_message_outcome(Some(false), Some("have no rights to send a message")), Err(rights.to_string()));
    assert_eq!(
        copy_message_outcome(Some(false), Some("Bad Request: CHAT_NOT_FOUND")),
        Err("The chat was not found. It may have been deleted or I was removed.".to_string())
    );
    assert_eq!(
        copy_message_outcome(Some(false), Some("Forbidden: bot was kicked from the group chat")),
        Err("I'm not a member of that chat. Please add me first.".to_string())
    );
    assert_eq!(
        copy_message_outcome(Some(false), Some("Forbidden: bot is not a member of the channel chat")),
        Err("I'm not a member of that chat. Please add me first.".to_string())
    );
    assert_eq!(
        copy_message_outcome(Some(false), Some("Bad Request: message to copy not found")),
        Err("The original message was deleted. Please send new content.".to_string())
    );
    assert_eq!(
        copy_message_outcome(Some(false), Some("Too Many Requests")),
        Err("Telegram API error: Too Many Requests".to_string())
    );
    assert_eq!(copy_message_outcome(Some(false), None), Err("Telegram API error: Unknown error".to_string()));
}

#[test]
fn test_send_outcome() {
    assert_eq!(send_message_outcome(Some(true), Some("ignored")), Ok(()));
    assert_eq!(
        send_message_outcome(Some(false), Some("chat not found")),
        Err("Telegram API error: chat not found".to_string())
    );
    assert_eq!(send_message_outcome(None, None), Err("Telegram API error: Unknown error".to_string()));
}

#[test]
fn test_edit_outcome() {
    assert_eq!(edit_message_outcome(Some(true), None), Ok(()));
    assert_eq!(
        edit_message_outcome(Some(false), Some("Bad Request: message is not modified: specified new message content")),
        Ok(())
    );
    assert_eq!(
        edit_message_outcome(Some(false), Some("message to edit not found")),
        Err("Telegram API error: message to edit not found".to_string())
    );
}

#[test]
fn test_copy_message_body() {
    let body = copy_message_body(-100123, 77, 42, build_remove_keyboard());
    assert_eq!(int_of(&body, "chat_id"), Some(-100123));
    assert_eq!(int_of(&body, "from_chat_id"), Some(77));
    assert_eq!(int_of(&body, "message_id"), Some(42));
    let markup = body.get("reply_markup").unwrap();
    assert_eq!(markup.get("remove_keyboard").and_then(|v| v.as_bool()), Some(true));
    assert!(body.get("parse_mode").is_none());
}

#[test]
fn test_send_message_body() {
    let plain = send_message_body(5, "hello", None, None);
    assert_eq!(int_of(&plain, "chat_id"), Some(5));
    assert_eq!(str_of(&plain, "text"), Some("hello"));
    assert!(plain.get("reply_markup").is_none());
    assert!(plain.get("parse_mode").is_none());

    let full = send_message_body(5, "<b>hi</b>", Some(build_remove_keyboard()), Some("HTML"));
    assert_eq!(str_of(&full, "text"), Some("<b>hi</b>"));
    assert!(full.get("reply_markup").unwrap().get("remove_keyboard").is_some());
    assert_eq!(str_of(&full, "parse_mode"), Some("HTML"));
}

#[test]
fn test_edit_message_body() {
    let body = edit_message_body(9, 314, "🎨 Style: 🔵 Primary ✓", None, None);
    assert_eq!(int_of(&body, "chat_id"), Some(9));
    assert_eq!(int_of(&body, "message_id"), Some(314));
    assert_eq!(str_of(&body, "text"), Some("🎨 Style: 🔵 Primary ✓"));
    assert!(body.get("reply_markup").is_none());
    let with_mode = edit_message_body(9, 314, "x", None, Some("MarkdownV2"));
    assert_eq!(str_of(&with_mode, "parse_mode"), Some("MarkdownV2"));
}

#[test]
fn test_answer_callback_body() {
    let body = answer_callback_body("cbq-1", None);
    assert_eq!(str_of(&body, "callback_query_id"), Some("cbq-1"));
    assert!(body.get("text").is_none());
    let with_text = answer_callback_body("cbq-2", Some("Done"));
    assert_eq!(str_of(&with_text, "text"), Some("Done"));
}
