use button_attach_bot::conversation::{step, Command, Effect, IncomingCallback, IncomingMessage, Update, UserInfo};
use button_attach_bot::session::SessionData;
use button_attach_bot::state::BotState;

fn user() -> UserInfo {
    UserInfo {
        id: 555,
        username: Some("alice".to_string()),
        first_name: "Alice".to_string(),
        last_name: None,
        language_code: Some("en".to_string()),
    }
}

fn message(text: Option<&str>) -> IncomingMessage {
    IncomingMessage {
        chat_id: 100,
        message_id: 7,
        from: Some(user()),
        sender_blocked: false,
        text: text.map(|t| t.to_string()),
        shared_chat_id: None,
    }
}

fn callback(data: &str) -> IncomingCallback {
    IncomingCallback { id: "q1".to_string(), data: Some(data.to_string()), chat_id: 100, message_id: 9 }
}

/// The state after performing every effect of `update` in `state`.
fn next(state: BotState, update: Update) -> BotState {
    let mut current = state.clone();
    for effect in step(state, update) {
        if let Effect::SetState(s) = effect {
            current = s;
        }
    }
    current
}

fn session_with_post() -> SessionData {
    let mut data = SessionData::new();
    data.source_chat_id = Some(100);
    data.source_message_id = Some(7);
    data.destination_chat_id = Some(-1001);
    data
}

#[test]
fn test_default_state_is_idle() {
    let state = BotState::default();
    assert_eq!(state, BotState::Idle);
}

#[test]
fn test_state_transitions_content_flow() {
    let mut state = BotState::Idle;
    assert_eq!(state.name(), "Idle");

    // User sends content
    state = next(state, Update::Message(message(Some("hello"))));
    assert_eq!(state.name(), "AwaitingDestination");

    // User picks destination
    state = next(state, Update::Message(message(Some("📨 Send back to me"))));
    assert_eq!(state.name(), "AwaitingButtonText");

    // User enters button text
    state = next(state, Update::Message(message(Some("Buy"))));
    assert_eq!(state.name(), "AwaitingUrl");

    // User enters URL
    state = next(state, Update::Message(message(Some("https://shop.example.com"))));
    assert_eq!(state.name(), "AwaitingStyle");

    // User picks style
    state = next(state, Update::Callback(callback("style_success")));
    assert_eq!(state.name(), "AwaitingEmoji");

    // User skips emoji
    state = next(state, Update::Callback(callback("emoji_skip")));
    assert_eq!(state.name(), "AwaitingConfirm");

    // User publishes; the copy is requested and the state waits for its outcome
    let data = state.data().unwrap().clone();
    let effects = step(state.clone(), Update::Callback(callback("action_publish")));
    assert!(matches!(effects.last(), Some(Effect::CopyMessage { .. })));
    let mut after = state.clone();
    for effect in button_attach_bot::conversation::handle_publish_result(data, 100, Ok(())) {
        if let Effect::SetState(s) = effect {
            after = s;
        }
    }
    state = after;
    assert_eq!(state, BotState::Idle);
}

#[test]
fn test_add_another_button_flow() {
    let mut data = session_with_post();
    data.current_button_text = Some("Stale".to_string());
    let start_state = BotState::AwaitingConfirm { data };
    assert_eq!(start_state.name(), "AwaitingConfirm");

    let next_state = next(start_state, Update::Callback(callback("action_add")));
    assert_eq!(next_state.name(), "AwaitingButtonText");
    assert!(next_state.data().unwrap().current_button_text.is_none());
}

#[test]
fn test_cancel_from_any_state() {
    let states = vec![
        BotState::AwaitingDestination { data: SessionData::new() },
        BotState::AwaitingButtonText { data: session_with_post() },
        BotState::AwaitingUrl { data: session_with_post() },
        BotState::AwaitingStyle { data: session_with_post() },
        BotState::AwaitingEmoji { data: session_with_post() },
        BotState::AwaitingConfirm { data: session_with_post() },
    ];

    for state in states {
        let name = state.name();
        let after_cancel = next(state, Update::Command(Command::Cancel, message(Some("/cancel"))));
        assert_eq!(after_cancel, BotState::Idle, "Cancel from {:?} should return to Idle", name);
    }
}

#[test]
fn test_source_kept_through_configuration() {
    let mut state = next(BotState::Idle, Update::Message(message(Some("content"))));
    let updates = vec![
        Update::Message(message(Some("📨 Send back to me"))),
        Update::Message(message(Some("Buy"))),
        Update::Message(message(Some("https://shop.example.com"))),
        Update::Callback(callback("style_success")),
        Update::Callback(callback("emoji_skip")),
        Update::Callback(callback("action_add")),
        Update::Message(message(Some("Docs"))),
    ];
    for update in updates {
        state = next(state, update);
        let data = state.data().unwrap();
        assert_eq!(data.source_chat_id, Some(100));
        assert_eq!(data.source_message_id, Some(7));
    }
    assert_eq!(state.name(), "AwaitingUrl");
    assert_eq!(state.data().unwrap().button_count(), 1);
}

#[test]
fn test_publish_flow_copies_content_with_button() {
    let mut state = BotState::Idle;
    let updates = vec![
        Update::Message(message(Some("content"))),
        Update::Message(message(Some("📨 Send back to me"))),
        Update::Message(message(Some("Buy"))),
        Update::Message(message(Some("https://shop.example.com"))),
        Update::Callback(callback("style_danger")),
        Update::Message(message(Some("5368324170671202286"))),
    ];
    for update in updates {
        state = next(state, update);
    }
    assert_eq!(state.name(), "AwaitingConfirm");
    let effects = step(state, Update::Callback(callback("action_publish")));
    assert_eq!(effects.len(), 2);
    assert!(matches!(&effects[0], Effect::AnswerCallback { callback_id } if callback_id == "q1"));
    match &effects[1] {
        Effect::CopyMessage { chat_id, from_chat_id, message_id, markup } => {
            assert_eq!((*chat_id, *from_chat_id, *message_id), (100, 100, 7));
            let rows = markup.get("inline_keyboard").unwrap();
            assert_eq!(rows.array_len(), Some(1));
            let b = rows.at(0).unwrap().at(0).unwrap();
            assert_eq!(b.get("text").and_then(|v| v.as_str()), Some("Buy"));
            assert_eq!(b.get("url").and_then(|v| v.as_str()), Some("https://shop.example.com"));
            assert_eq!(b.get("style").and_then(|v| v.as_str()), Some("danger"));
            assert_eq!(b.get("icon_custom_emoji_id").and_then(|v| v.as_str()), Some("5368324170671202286"));
        }
        other => panic!("expected a copy, got {:?}", other),
    }
}
