use button_attach_bot::analytics::EventType;
use button_attach_bot::conversation::{
    handle_confirm_callback, handle_content, handle_destination, handle_emoji_text, handle_help,
    handle_publish_result, handle_start, handle_style_callback, handle_url, step, Command, Effect,
    IncomingCallback, IncomingMessage, ParseMode, Update, UserInfo, DESTINATION_PROMPT,
    INVALID_URL, OPERATION_CANCELLED, WELCOME_MESSAGE,
};
use button_attach_bot::keyboard::copy_message_outcome;
use button_attach_bot::session::{ButtonConfig, SessionData};
use button_attach_bot::state::BotState;

fn user() -> UserInfo {
    UserInfo {
        id: 555,
        username: None,
        first_name: "Bob".to_string(),
        last_name: None,
        language_code: None,
    }
}

fn message(text: Option<&str>) -> IncomingMessage {
    IncomingMessage {
        chat_id: 100,
        message_id: 7,
        from: Some(user()),
        sender_blocked: false,
        text: text.map(|t| t.to_string()),
        shared_chat_id: None,
    }
}

fn callback(data: &str) -> IncomingCallback {
    IncomingCallback { id: "q1".to_string(), data: Some(data.to_string()), chat_id: 100, message_id: 9 }
}

fn sent_texts(effects: &[Effect]) -> Vec<String> {
    effects
        .iter()
        .filter_map(|e| match e {
            Effect::SendMessage { text, .. } => Some(text.clone()),
            _ => None,
        })
        .collect()
}

fn stored_state(effects: &[Effect]) -> Option<BotState> {
    let mut r = None;
    for e in effects {
        if let Effect::SetState(s) = e {
            r = Some(s.clone());
        }
    }
    r
}

fn button(text: &str, style: Option<&str>) -> ButtonConfig {
    ButtonConfig {
        text: text.to_string(),
        url: format!("https://example.com/{}", text),
        style: style.map(|s| s.to_string()),
        icon_custom_emoji_id: None,
    }
}

fn posted_session() -> SessionData {
    let mut data = SessionData::new();
    data.source_chat_id = Some(100);
    data.source_message_id = Some(7);
    data.destination_chat_id = Some(-1001);
    data
}

#[test]
fn test_start_tracks_and_resets() {
    let effects = handle_start(message(Some("/start")));
    assert_eq!(effects.len(), 4);
    assert!(matches!(&effects[0], Effect::TrackUser(u) if u.id == 555));
    assert!(matches!(&effects[1], Effect::TrackEvent { user_id: 555, event: EventType::Start }));
    assert!(matches!(&effects[2], Effect::SetState(BotState::Idle)));
    match &effects[3] {
        Effect::SendMessage { chat_id, text, parse_mode, markup } => {
            assert_eq!(*chat_id, 100);
            assert_eq!(text, WELCOME_MESSAGE);
            assert_eq!(*parse_mode, Some(ParseMode::MarkdownV2));
            assert!(markup.is_none());
        }
        _ => panic!("expected a message"),
    }
}

#[test]
fn test_help_keeps_state() {
    let mut m = message(Some("/help"));
    m.from = None;
    let effects = handle_help(m);
    assert_eq!(effects.len(), 1);
    assert!(stored_state(&effects).is_none());
    assert_eq!(sent_texts(&effects), vec![WELCOME_MESSAGE.to_string()]);
}

#[test]
fn test_cancel_message_and_event() {
    let state = BotState::AwaitingUrl { data: posted_session() };
    let effects = step(state, Update::Command(Command::Cancel, message(Some("/cancel"))));
    assert!(matches!(&effects[0], Effect::TrackEvent { user_id: 555, event: EventType::Cancelled }));
    assert_eq!(stored_state(&effects), Some(BotState::Idle));
    assert_eq!(sent_texts(&effects), vec![OPERATION_CANCELLED.to_string()]);
}

#[test]
fn test_content_starts_session() {
    let effects = handle_content(message(Some("any content")));
    let state = stored_state(&effects).unwrap();
    let data = state.data().unwrap();
    assert_eq!(state.name(), "AwaitingDestination");
    assert_eq!(data.source_chat_id, Some(100));
    assert_eq!(data.source_message_id, Some(7));
    assert!(data.destination_chat_id.is_none());
    assert_eq!(sent_texts(&effects), vec![DESTINATION_PROMPT.to_string()]);
    match effects.last().unwrap() {
        Effect::SendMessage { markup: Some(m), .. } => assert!(m.get("keyboard").is_some()),
        _ => panic!("expected the destination picker"),
    }
}

#[test]
fn test_blocked_sender_is_ignored() {
    let mut m = message(Some("spam"));
    m.sender_blocked = true;
    assert!(handle_content(m).is_empty());
}

#[test]
fn test_unknown_sender_content_is_not_tracked() {
    let mut m = message(Some("hi"));
    m.from = None;
    m.sender_blocked = true;
    let effects = handle_content(m);
    assert_eq!(effects.len(), 2);
    assert!(matches!(&effects[0], Effect::SetState(_)));
}

#[test]
fn test_shared_chat_becomes_destination() {
    let mut m = message(None);
    m.shared_chat_id = Some(-1002);
    let mut data = SessionData::new();
    data.source_chat_id = Some(100);
    data.source_message_id = Some(7);
    let effects = handle_destination(m, data);
    let state = stored_state(&effects).unwrap();
    assert_eq!(state.name(), "AwaitingButtonText");
    assert_eq!(state.data().unwrap().destination_chat_id, Some(-1002));
    assert_eq!(
        sent_texts(&effects),
        vec![
            "✅ Destination selected!".to_string(),
            "✏️ Now send me the <b>button text</b> — this is the label users will see on the button.".to_string(),
        ]
    );
}

#[test]
fn test_other_text_reminds_to_pick_destination() {
    let effects = handle_destination(message(Some("somewhere")), SessionData::new());
    assert!(stored_state(&effects).is_none());
    assert_eq!(
        sent_texts(&effects),
        vec!["Please use the buttons below to pick a destination, or type /cancel to start over.".to_string()]
    );
    let mut photo = message(None);
    photo.text = None;
    assert!(handle_destination(photo, SessionData::new()).is_empty());
}

#[test]
fn test_reselected_destination_goes_to_confirm() {
    let mut data = SessionData::new();
    data.source_chat_id = Some(100);
    data.source_message_id = Some(7);
    data.buttons.push(button("One", Some("primary")));
    data.buttons.push(button("Two", None));
    let effects = handle_destination(message(Some("📨 Send back to me")), data);
    let state = stored_state(&effects).unwrap();
    assert_eq!(state.name(), "AwaitingConfirm");
    assert_eq!(state.data().unwrap().destination_chat_id, Some(100));
    assert_eq!(state.data().unwrap().buttons.len(), 2);
    assert_eq!(
        sent_texts(&effects)[1],
        "📋 Ready to publish!\n\nButtons configured:\n  • One → 🔵 Primary\n  • Two → ⚪ Default\n\nWhat's next?"
    );
}

#[test]
fn test_invalid_url_keeps_waiting() {
    let mut data = posted_session();
    data.current_button_text = Some("Buy".to_string());
    let effects = handle_url(message(Some("ftp://nope")), data);
    assert!(stored_state(&effects).is_none());
    assert_eq!(sent_texts(&effects), vec![INVALID_URL.to_string()]);
}

#[test]
fn test_style_callback_edits_and_stores_style() {
    let mut data = posted_session();
    data.current_button_text = Some("Buy".to_string());
    data.current_button_url = Some("https://x.com".to_string());
    let effects = handle_style_callback(callback("style_danger"), data);
    assert!(matches!(&effects[0], Effect::AnswerCallback { callback_id } if callback_id == "q1"));
    match &effects[1] {
        Effect::EditMessageText { chat_id, message_id, text } => {
            assert_eq!(*chat_id, 100);
            assert_eq!(*message_id, 9);
            assert_eq!(text, "🎨 Style: 🔴 Danger ✓");
        }
        _ => panic!("expected an edit"),
    }
    let state = stored_state(&effects).unwrap();
    assert_eq!(state.data().unwrap().current_button_style, Some("danger".to_string()));
}

#[test]
fn test_emoji_text_finalizes_button() {
    let mut data = posted_session();
    data.buttons.push(button("First", None));
    data.current_button_text = Some("Buy".to_string());
    data.current_button_url = Some("https://x.com".to_string());
    data.current_button_style = Some("success".to_string());
    let effects = handle_emoji_text(message(Some("5368324170671202286")), data);
    let state = stored_state(&effects).unwrap();
    let data = state.data().unwrap();
    assert_eq!(state.name(), "AwaitingConfirm");
    assert_eq!(data.buttons.len(), 2);
    assert_eq!(data.buttons[1].icon_custom_emoji_id, Some("5368324170671202286".to_string()));
    assert_eq!(
        sent_texts(&effects),
        vec!["📋 Button configured:\n\n📌 Label: Buy\n🔗 URL: https://x.com\n🎨 Style: 🟢 Success\n🎭 Emoji: 5368324170671202286\n\nTotal buttons: 2\n\nWhat's next?".to_string()]
    );
}

#[test]
fn test_finalize_without_url_reports_failure() {
    let mut data = posted_session();
    data.current_button_text = Some("Buy".to_string());
    let effects = handle_emoji_text(message(Some("1")), data);
    assert!(stored_state(&effects).is_none());
    assert_eq!(sent_texts(&effects), vec!["❌ Something went wrong. Please start over with /cancel.".to_string()]);
}

#[test]
fn test_publish_copies_with_buttons() {
    let mut data = posted_session();
    data.buttons.push(button("One", Some("primary")));
    let effects = handle_confirm_callback(callback("action_publish"), data);
    assert_eq!(effects.len(), 2);
    match &effects[1] {
        Effect::CopyMessage { chat_id, from_chat_id, message_id, markup } => {
            assert_eq!(*chat_id, -1001);
            assert_eq!(*from_chat_id, 100);
            assert_eq!(*message_id, 7);
            let b = markup.get("inline_keyboard").unwrap().at(0).unwrap().at(0).unwrap();
            assert_eq!(b.get("text").unwrap().as_str(), Some("One"));
        }
        _ => panic!("expected a copy"),
    }
}

#[test]
fn test_publish_without_destination_resets() {
    let mut data = posted_session();
    data.destination_chat_id = None;
    let effects = handle_confirm_callback(callback("action_publish"), data);
    assert_eq!(
        sent_texts(&effects),
        vec!["❌ Something went wrong - missing required data. Please start over.".to_string()]
    );
    assert!(matches!(effects.last(), Some(Effect::SetState(BotState::Idle))));
}

#[test]
fn test_unknown_confirm_data_only_answers() {
    let effects = handle_confirm_callback(callback("whatever"), posted_session());
    assert_eq!(effects.len(), 1);
    assert!(matches!(&effects[0], Effect::AnswerCallback { .. }));
}

#[test]
fn test_failed_publication_keeps_buttons() {
    let mut data = posted_session();
    data.buttons.push(button("One", None));
    data.buttons.push(button("Two", None));
    let error = copy_message_outcome(Some(false), Some("Bad Request: chat not found")).unwrap_err();
    let effects = handle_publish_result(data, 100, Err(error));
    let state = stored_state(&effects).unwrap();
    assert_eq!(state.name(), "AwaitingDestination");
    assert_eq!(state.data().unwrap().buttons.len(), 2);
    assert!(state.data().unwrap().destination_chat_id.is_none());
    assert_eq!(
        sent_texts(&effects),
        vec!["❌ The chat was not found. It may have been deleted or I was removed.\n\nYour button configuration is saved (2 button(s)).\nPlease choose a different chat where I'm an admin:".to_string()]
    );
}

#[test]
fn test_successful_publication() {
    let effects = handle_publish_result(posted_session(), 100, Ok(()));
    assert_eq!(
        sent_texts(&effects),
        vec!["✅ Posted successfully! The buttons will work forever, even when I'm offline.\n\nSend me more content anytime!".to_string()]
    );
    assert!(matches!(effects.last(), Some(Effect::SetState(BotState::Idle))));
}

#[test]
fn test_unawaited_updates_do_nothing() {
    assert!(step(BotState::Idle, Update::Callback(callback("style_primary"))).is_empty());
    assert!(step(BotState::AwaitingStyle { data: posted_session() }, Update::Message(message(Some("x")))).is_empty());
    assert!(step(BotState::AwaitingConfirm { data: posted_session() }, Update::Message(message(Some("x")))).is_empty());
}
