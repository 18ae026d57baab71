//! The conversation: what the bot does with each update in each state.
//!
//! Each handler decides, from the current state and the update, the list of
//! effects to perform, in order. The runtime performs them one by one and
//! stops at the first failing message or state update, as the handlers of a
//! dispatcher do when they propagate an error. Stored-state updates are
//! effects too, so the list says both what is sent and what state follows.

use vstd::prelude::*;
use crate::analytics::EventType;
use crate::json::{opt_json, Json, JsonValue};
use crate::keyboard::{
    build_confirm_keyboard, build_destination_keyboard, build_emoji_keyboard, build_inline_keyboard,
    build_remove_keyboard, build_style_keyboard, confirm_keyboard, destination_keyboard,
    emoji_keyboard, inline_keyboard, map_style_callback, remove_keyboard, style_display_name,
    style_for_callback, style_keyboard, style_name, valid_url, validate_url, SEND_TO_ME_TEXT,
};
use crate::session::{ButtonConfig, ButtonView, SessionData, SessionView};
use crate::state::{BotState, StateView};
use crate::text::{decimal, push_decimal, str_eq};

verus! {

/// The welcome/help message shown to users.
pub const WELCOME_MESSAGE: &'static str = r#"🤖 *Welcome to ButtonAttachBot\!*

Send me any content \(photo, video, text, document, etc\.\) and I'll help you post it with custom styled buttons to any chat where I'm an admin\.

✨ *Features:*
• Colored buttons \(🔵 Primary, 🟢 Success, 🔴 Danger\)
• Custom emoji icons on buttons
• Multiple buttons per post
• Post to channels, groups, or yourself

*Commands:*
/start \- Show this message
/help \- Show this message
/cancel \- Cancel current operation

Just send me any message to get started\!"#;

/// Reply to /cancel.
pub const OPERATION_CANCELLED: &'static str = "❌ Operation cancelled. Send me content to start again.";
/// Prompt for a destination, after content was received.
pub const DESTINATION_PROMPT: &'static str = "📬 Where should I post this?\n\nTap below to pick a chat where I'm an admin, or send it back to yourself.";
/// Reminder when something other than a destination arrives.
pub const DESTINATION_REMINDER: &'static str = "Please use the buttons below to pick a destination, or type /cancel to start over.";
/// Acknowledgement of a destination.
pub const DESTINATION_SELECTED: &'static str = "✅ Destination selected!";
/// Prompt for the first button's text.
pub const BUTTON_TEXT_PROMPT: &'static str = "✏️ Now send me the <b>button text</b> — this is the label users will see on the button.";
/// Reply to a button text that is no text.
pub const BUTTON_TEXT_REQUIRED: &'static str = "Please send me a text message for the button label.";
/// Prompt for the button's URL.
pub const URL_PROMPT: &'static str = "🔗 Now send me the <b>URL</b> for this button.\n\nSupported formats: <code>https://...</code>, <code>http://...</code>, <code>tg://...</code>";
/// Reply to a URL that is no text.
pub const URL_REQUIRED: &'static str = "Please send me a URL as a text message.";
/// Reply to a URL that is not accepted.
pub const INVALID_URL: &'static str = "⚠️ That doesn't look like a valid URL. Please send a link starting with https://, http://, or tg://";
/// Prompt for the button's style.
pub const STYLE_PROMPT: &'static str = "🎨 Pick a button style:";
/// Prompt for the button's emoji.
pub const EMOJI_PROMPT: &'static str = "🎭 Want to add a <b>custom emoji icon</b> to the button?\n\nSend the emoji ID, or tap Skip.";
/// Reply to an emoji ID that is no text.
pub const EMOJI_REQUIRED: &'static str = "Please send the emoji ID as text, or tap Skip.";
/// Reply when the button being configured lacks its text or URL.
pub const FINALIZE_FAILED: &'static str = "❌ Something went wrong. Please start over with /cancel.";
/// Prompt for the next button's text.
pub const NEXT_BUTTON_PROMPT: &'static str = "✏️ Send me the <b>button text</b> for the next button.";
/// Reply to the Cancel button.
pub const ACTION_CANCELLED: &'static str = "❌ Cancelled. Send me content to start again.";
/// Reply when publishing lacks its source or destination.
pub const MISSING_DATA: &'static str = "❌ Something went wrong - missing required data. Please start over.";
/// Reply to a successful publication.
pub const POSTED: &'static str = "✅ Posted successfully! The buttons will work forever, even when I'm offline.\n\nSend me more content anytime!";

/// The sender of an update.
#[derive(Clone, Debug, PartialEq)]
pub struct UserInfo {
    pub id: i64,
    pub username: Option<String>,
    pub first_name: String,
    pub last_name: Option<String>,
    pub language_code: Option<String>,
}

/// How the text of a message is formatted.
#[derive(Clone, Copy, Debug, PartialEq, Eq)]
pub enum ParseMode {
    Html,
    MarkdownV2,
}

/// An incoming message.
#[derive(Debug)]
pub struct IncomingMessage {
    /// The chat the message was sent in.
    pub chat_id: i64,
    /// The message's ID.
    pub message_id: i32,
    /// The sender, if known.
    pub from: Option<UserInfo>,
    /// Whether the sender is marked blocked (false where unknown).
    pub sender_blocked: bool,
    /// The message's text, if it is a text message.
    pub text: Option<String>,
    /// The chat that the user shared with the chat picker, if this message shares one.
    pub shared_chat_id: Option<i64>,
}

/// An incoming callback query, from a tap on an inline button.
#[derive(Debug)]
pub struct IncomingCallback {
    /// The query's ID.
    pub id: String,
    /// The button's callback data.
    pub data: Option<String>,
    /// The chat of the message with the button (0 where unknown).
    pub chat_id: i64,
    /// The message with the button (0 where unknown).
    pub message_id: i32,
}

/// A user command.
#[derive(Clone, Copy, Debug, PartialEq, Eq)]
pub enum Command {
    Start,
    Help,
    Cancel,
}

/// An update to the conversation.
#[derive(Debug)]
pub enum Update {
    /// A command, with its message.
    Command(Command, IncomingMessage),
    /// Any other message.
    Message(IncomingMessage),
    /// A tap on an inline button.
    Callback(IncomingCallback),
}

/// Something the bot does.
#[derive(Debug)]
pub enum Effect {
    /// Send `text` to `chat_id`. A failure ends the handler.
    SendMessage { chat_id: i64, text: String, parse_mode: Option<ParseMode>, markup: Option<Json> },
    /// Answer a callback query. A failure to reach the API ends the handler.
    AnswerCallback { callback_id: String },
    /// Replace the text of a message; the outcome is ignored.
    EditMessageText { chat_id: i64, message_id: i32, text: String },
    /// Store the conversation state. A failure ends the handler.
    SetState(BotState),
    /// Record the user; the outcome is ignored.
    TrackUser(UserInfo),
    /// Record an event; the outcome is ignored.
    TrackEvent { user_id: i64, event: EventType },
    /// Copy message `message_id` of `from_chat_id` to `chat_id` with the inline
    /// keyboard `markup`; the outcome goes to [`handle_publish_result`].
    CopyMessage { chat_id: i64, from_chat_id: i64, message_id: i32, markup: Json },
}

/// The value of an [`Effect`].
pub ghost enum EffectView {
    Send { chat_id: i64, text: Seq<char>, parse_mode: Option<ParseMode>, markup: Option<JsonValue> },
    Answer { callback_id: Seq<char> },
    Edit { chat_id: i64, message_id: i32, text: Seq<char> },
    SetState(StateView),
    TrackUser(UserInfo),
    TrackEvent { user_id: i64, event: EventType },
    Copy { chat_id: i64, from_chat_id: i64, message_id: i32, markup: JsonValue },
}

impl View for Effect {
    type V = EffectView;

    open spec fn view(&self) -> EffectView {
        match self {
            Effect::SendMessage { chat_id, text, parse_mode, markup } => EffectView::Send {
                chat_id: *chat_id,
                text: text@,
                parse_mode: *parse_mode,
                markup: opt_json(*markup),
            },
            Effect::AnswerCallback { callback_id } => EffectView::Answer { callback_id: callback_id@ },
            Effect::EditMessageText { chat_id, message_id, text } => EffectView::Edit {
                chat_id: *chat_id,
                message_id: *message_id,
                text: text@,
            },
            Effect::SetState(s) => EffectView::SetState(s@),
            Effect::TrackUser(u) => EffectView::TrackUser(*u),
            Effect::TrackEvent { user_id, event } => EffectView::TrackEvent {
                user_id: *user_id,
                event: *event,
            },
            Effect::CopyMessage { chat_id, from_chat_id, message_id, markup } => EffectView::Copy {
                chat_id: *chat_id,
                from_chat_id: *from_chat_id,
                message_id: *message_id,
                markup: markup.value(),
            },
        }
    }
}

/// The values of a list of effects.
pub open spec fn effects_view(s: Seq<Effect>) -> Seq<EffectView> {
    s.map_values(|e: Effect| e@)
}

/// The state after all `effects` are performed, starting in `s`: the last
/// state stored, or `s` where none is.
pub open spec fn state_after(effects: Seq<EffectView>, s: StateView) -> StateView
    decreases effects.len(),
{
    if effects.len() == 0 {
        s
    } else {
        match effects.last() {
            EffectView::SetState(t) => t,
            _ => state_after(effects.drop_last(), s),
        }
    }
}

/// Sending `text` to `chat_id`.
pub open spec fn send(chat_id: i64, text: Seq<char>, parse_mode: Option<ParseMode>, markup: Option<JsonValue>) -> EffectView {
    EffectView::Send { chat_id, text, parse_mode, markup }
}

/// Recording the sender and the event, where the sender is known.
pub open spec fn track_effects(from: Option<UserInfo>, event: EventType) -> Seq<EffectView> {
    match from {
        Some(u) => seq![EffectView::TrackUser(u), EffectView::TrackEvent { user_id: u.id, event }],
        None => seq![],
    }
}

fn push_effect(v: &mut Vec<Effect>, e: Effect)
    ensures
        effects_view(final(v)@) == effects_view(old(v)@).push(e@),
{
    let ghost before = v@;
    v.push(e);
    assert(effects_view(v@) =~= effects_view(before).push(e@));
}

fn push_send(v: &mut Vec<Effect>, chat_id: i64, text: String, parse_mode: Option<ParseMode>, markup: Option<Json>)
    ensures
        effects_view(final(v)@) == effects_view(old(v)@).push(
            send(chat_id, text@, parse_mode, opt_json(markup)),
        ),
{
    push_effect(v, Effect::SendMessage { chat_id, text, parse_mode, markup });
}

fn push_send_str(v: &mut Vec<Effect>, chat_id: i64, text: &str, parse_mode: Option<ParseMode>, markup: Option<Json>)
    ensures
        effects_view(final(v)@) == effects_view(old(v)@).push(
            send(chat_id, text@, parse_mode, opt_json(markup)),
        ),
{
    push_send(v, chat_id, String::from_str(text), parse_mode, markup);
}

fn push_state(v: &mut Vec<Effect>, s: BotState)
    ensures
        effects_view(final(v)@) == effects_view(old(v)@).push(EffectView::SetState(s@)),
{
    push_effect(v, Effect::SetState(s));
}

fn push_tracking(v: &mut Vec<Effect>, from: Option<UserInfo>, event: EventType)
    ensures
        effects_view(final(v)@) == effects_view(old(v)@) + track_effects(from, event),
{
    let ghost before = effects_view(v@);
    match from {
        Some(u) => {
            let id = u.id;
            push_effect(v, Effect::TrackUser(u));
            push_effect(v, Effect::TrackEvent { user_id: id, event });
        },
        None => {},
    }
    assert(effects_view(v@) =~= before + track_effects(from, event));
}

/// What /start does: record the user, go back to Idle and show the welcome message.
pub open spec fn start_effects(msg: IncomingMessage) -> Seq<EffectView> {
    track_effects(msg.from, EventType::Start) + seq![
        EffectView::SetState(StateView::Idle),
        send(msg.chat_id, WELCOME_MESSAGE@, Some(ParseMode::MarkdownV2), None),
    ]
}

/// What /help does: record the user and show the welcome message; the state stays.
pub open spec fn help_effects(msg: IncomingMessage) -> Seq<EffectView> {
    track_effects(msg.from, EventType::Help) + seq![
        send(msg.chat_id, WELCOME_MESSAGE@, Some(ParseMode::MarkdownV2), None),
    ]
}

/// What /cancel does: record the event, go back to Idle and say so.
pub open spec fn cancel_effects(msg: IncomingMessage) -> Seq<EffectView> {
    let tracking = match msg.from {
        Some(u) => seq![EffectView::TrackEvent { user_id: u.id, event: EventType::Cancelled }],
        None => seq![],
    };
    tracking + seq![
        EffectView::SetState(StateView::Idle),
        send(msg.chat_id, OPERATION_CANCELLED@, None, None),
    ]
}

/// Handle /start command - show welcome message.
pub fn handle_start(msg: IncomingMessage) -> (r: Vec<Effect>)
    ensures
        effects_view(r@) == start_effects(msg),
{
    let mut v: Vec<Effect> = Vec::new();
    push_tracking(&mut v, msg.from, EventType::Start);
    push_state(&mut v, BotState::Idle);
    push_send_str(&mut v, msg.chat_id, WELCOME_MESSAGE, Some(ParseMode::MarkdownV2), None);
    assert(effects_view(v@) =~= start_effects(msg));
    v
}

/// Handle /help command - show welcome message.
pub fn handle_help(msg: IncomingMessage) -> (r: Vec<Effect>)
    ensures
        effects_view(r@) == help_effects(msg),
{
    let mut v: Vec<Effect> = Vec::new();
    push_tracking(&mut v, msg.from, EventType::Help);
    push_send_str(&mut v, msg.chat_id, WELCOME_MESSAGE, Some(ParseMode::MarkdownV2), None);
    assert(effects_view(v@) =~= help_effects(msg));
    v
}

/// Handle /cancel command - cancel current operation and reset to idle.
pub fn handle_cancel(msg: IncomingMessage) -> (r: Vec<Effect>)
    ensures
        effects_view(r@) == cancel_effects(msg),
{
    let mut v: Vec<Effect> = Vec::new();
    match &msg.from {
        Some(u) => {
            push_effect(&mut v, Effect::TrackEvent { user_id: u.id, event: EventType::Cancelled });
        },
        None => {},
    }
    push_state(&mut v, BotState::Idle);
    push_send_str(&mut v, msg.chat_id, OPERATION_CANCELLED, None, None);
    assert(effects_view(v@) =~= cancel_effects(msg));
    v
}


/// A session for content just received: its source is set, nothing else.
pub open spec fn fresh_session(chat_id: i64, message_id: i32) -> SessionView {
    SessionView {
        source_chat_id: Some(chat_id),
        source_message_id: Some(message_id),
        destination_chat_id: None,
        buttons: Seq::empty(),
        current_button_text: None,
        current_button_url: None,
        current_button_style: None,
        current_button_emoji: None,
    }
}

/// What content in the Idle state does: nothing for a blocked sender; else
/// record the sender, start a session for the content and ask for a destination.
pub open spec fn content_effects(msg: IncomingMessage) -> Seq<EffectView> {
    if msg.from is Some && msg.sender_blocked {
        Seq::empty()
    } else {
        track_effects(msg.from, EventType::ContentReceived) + seq![
            EffectView::SetState(StateView::AwaitingDestination(fresh_session(msg.chat_id, msg.message_id))),
            send(msg.chat_id, DESTINATION_PROMPT@, None, Some(destination_keyboard())),
        ]
    }
}

/// Handle any incoming content when in Idle state.
///
/// Saves the message info and prompts user to pick a destination.
pub fn handle_content(msg: IncomingMessage) -> (r: Vec<Effect>)
    ensures
        effects_view(r@) == content_effects(msg),
{
    let mut v: Vec<Effect> = Vec::new();
    if msg.from.is_some() && msg.sender_blocked {
        assert(effects_view(v@) =~= content_effects(msg));
        return v;
    }
    let chat_id = msg.chat_id;
    let message_id = msg.message_id;
    push_tracking(&mut v, msg.from, EventType::ContentReceived);
    let mut data = SessionData::new();
    data.source_chat_id = Some(chat_id);
    data.source_message_id = Some(message_id);
    assert(data@.buttons =~= Seq::<ButtonView>::empty());
    assert(data@ == fresh_session(chat_id, message_id));
    push_state(&mut v, BotState::AwaitingDestination { data });
    push_send_str(&mut v, chat_id, DESTINATION_PROMPT, None, Some(build_destination_keyboard()));
    assert(effects_view(v@) =~= content_effects(msg));
    v
}

/// A configured button as listed before publishing.
pub open spec fn ready_line(b: ButtonView) -> Seq<char> {
    "  • "@ + b.text + " → "@ + style_name(b.style)
}

/// `lines` joined with newlines.
pub open spec fn join_lines(lines: Seq<Seq<char>>) -> Seq<char>
    decreases lines.len(),
{
    if lines.len() == 0 {
        Seq::empty()
    } else if lines.len() == 1 {
        lines[0]
    } else {
        join_lines(lines.drop_last()) + "\n"@ + lines.last()
    }
}

/// The summary shown when a destination is chosen for buttons already configured.
pub open spec fn ready_summary(buttons: Seq<ButtonView>) -> Seq<char> {
    "📋 Ready to publish!\n\nButtons configured:\n"@ + join_lines(buttons.map_values(|b: ButtonView| ready_line(b)))
        + "\n\nWhat's next?"@
}

/// The destination that a message picks: a shared chat, or the user's own chat
/// for the "Send to me" button.
pub open spec fn chosen_destination(msg: IncomingMessage) -> Option<i64> {
    match msg.shared_chat_id {
        Some(c) => Some(c),
        None => match msg.text {
            Some(t) => if t@ == SEND_TO_ME_TEXT@ {
                Some(msg.chat_id)
            } else {
                None
            },
            None => None,
        },
    }
}

/// What a message does while a destination is awaited.
pub open spec fn destination_effects(msg: IncomingMessage, d: SessionView) -> Seq<EffectView> {
    let chat = msg.chat_id;
    match chosen_destination(msg) {
        None => if msg.shared_chat_id is None && msg.text is Some {
            seq![send(chat, DESTINATION_REMINDER@, None, None)]
        } else {
            Seq::empty()
        },
        Some(dest) => {
            let d2 = SessionView { destination_chat_id: Some(dest), ..d };
            seq![send(chat, DESTINATION_SELECTED@, None, Some(remove_keyboard()))] + if d.buttons.len() > 0 {
                seq![
                    EffectView::SetState(StateView::AwaitingConfirm(d2)),
                    send(chat, ready_summary(d.buttons), None, Some(confirm_keyboard())),
                ]
            } else {
                seq![
                    EffectView::SetState(StateView::AwaitingButtonText(d2)),
                    send(chat, BUTTON_TEXT_PROMPT@, Some(ParseMode::Html), None),
                ]
            }
        },
    }
}

/// The optional style of a button, borrowed.
fn style_of(b: &ButtonConfig) -> (r: Option<&str>)
    ensures
        crate::keyboard::opt_str_view(r) == b@.style,
{
    match &b.style {
        Some(s) => Some(s.as_str()),
        None => None,
    }
}

fn ready_summary_string(buttons: &Vec<ButtonConfig>) -> (s: String)
    ensures
        s@ == ready_summary(crate::session::buttons_view(buttons@)),
{
    let ghost bv = crate::session::buttons_view(buttons@);
    let ghost lines = bv.map_values(|b: ButtonView| ready_line(b));
    let mut list = String::new();
    let mut i: usize = 0;
    while i < buttons.len()
        invariant
            i <= buttons.len(),
            bv == crate::session::buttons_view(buttons@),
            lines == bv.map_values(|b: ButtonView| ready_line(b)),
            list@ == join_lines(lines.take(i as int)),
        decreases buttons.len() - i,
    {
        let ghost before = list@;
        if i > 0 {
            list.append("\n");
        }
        let b = &buttons[i];
        list.append("  • ");
        list.append(b.text.as_str());
        list.append(" → ");
        list.append(style_display_name(style_of(b)));
        proof {
            let t = lines.take(i + 1);
            assert(t.drop_last() =~= lines.take(i as int));
            assert(t.last() == ready_line(bv[i as int]));
            if i > 0 {
                assert(list@ =~= before + "\n"@ + ready_line(bv[i as int]));
            } else {
                assert(list@ =~= ready_line(bv[i as int]));
            }
        }
        i = i + 1;
    }
    assert(lines.take(buttons.len() as int) =~= lines);
    let mut s = String::from_str("📋 Ready to publish!\n\nButtons configured:\n");
    s.append(list.as_str());
    s.append("\n\nWhat's next?");
    s
}

/// Handle destination selection when in AwaitingDestination state.
///
/// Handles two cases:
/// 1. ChatShared update - user selected a chat from the picker
/// 2. Text message "📨 Send back to me" - user wants to send to themselves
pub fn handle_destination(msg: IncomingMessage, data: SessionData) -> (r: Vec<Effect>)
    ensures
        effects_view(r@) == destination_effects(msg, data@),
{
    let mut data = data;
    let ghost d = data@;
    let mut v: Vec<Effect> = Vec::new();
    let chat = msg.chat_id;
    let dest = match msg.shared_chat_id {
        Some(c) => c,
        None => match &msg.text {
            Some(t) => {
                if str_eq(t.as_str(), SEND_TO_ME_TEXT) {
                    chat
                } else {
                    push_send_str(&mut v, chat, DESTINATION_REMINDER, None, None);
                    assert(effects_view(v@) =~= destination_effects(msg, d));
                    return v;
                }
            },
            None => {
                assert(effects_view(v@) =~= destination_effects(msg, d));
                return v;
            },
        },
    };
    data.destination_chat_id = Some(dest);
    push_send_str(&mut v, chat, DESTINATION_SELECTED, None, Some(build_remove_keyboard()));
    if data.buttons.len() > 0 {
        let summary = ready_summary_string(&data.buttons);
        push_state(&mut v, BotState::AwaitingConfirm { data });
        push_send(&mut v, chat, summary, None, Some(build_confirm_keyboard()));
    } else {
        push_state(&mut v, BotState::AwaitingButtonText { data });
        push_send_str(&mut v, chat, BUTTON_TEXT_PROMPT, Some(ParseMode::Html), None);
    }
    assert(effects_view(v@) =~= destination_effects(msg, d));
    v
}

/// What a message does while the button text is awaited.
pub open spec fn button_text_effects(msg: IncomingMessage, d: SessionView) -> Seq<EffectView> {
    match msg.text {
        None => seq![send(msg.chat_id, BUTTON_TEXT_REQUIRED@, None, None)],
        Some(t) => seq![
            EffectView::SetState(StateView::AwaitingUrl(SessionView { current_button_text: Some(t@), ..d })),
            send(msg.chat_id, URL_PROMPT@, Some(ParseMode::Html), None),
        ],
    }
}

/// Handle button text input when in AwaitingButtonText state.
pub fn handle_button_text(msg: IncomingMessage, data: SessionData) -> (r: Vec<Effect>)
    ensures
        effects_view(r@) == button_text_effects(msg, data@),
{
    let mut data = data;
    let ghost d = data@;
    let mut v: Vec<Effect> = Vec::new();
    let chat = msg.chat_id;
    match msg.text {
        None => {
            push_send_str(&mut v, chat, BUTTON_TEXT_REQUIRED, None, None);
        },
        Some(text) => {
            data.current_button_text = Some(text);
            push_state(&mut v, BotState::AwaitingUrl { data });
            push_send_str(&mut v, chat, URL_PROMPT, Some(ParseMode::Html), None);
        },
    }
    assert(effects_view(v@) =~= button_text_effects(msg, d));
    v
}

/// What a message does while the URL is awaited: only a valid URL is taken.
pub open spec fn url_effects(msg: IncomingMessage, d: SessionView) -> Seq<EffectView> {
    match msg.text {
        None => seq![send(msg.chat_id, URL_REQUIRED@, None, None)],
        Some(u) => if !valid_url(u@) {
            seq![send(msg.chat_id, INVALID_URL@, None, None)]
        } else {
            seq![
                EffectView::SetState(StateView::AwaitingStyle(SessionView { current_button_url: Some(u@), ..d })),
                send(msg.chat_id, STYLE_PROMPT@, None, Some(style_keyboard())),
            ]
        },
    }
}

/// Handle URL input when in AwaitingUrl state.
pub fn handle_url(msg: IncomingMessage, data: SessionData) -> (r: Vec<Effect>)
    ensures
        effects_view(r@) == url_effects(msg, data@),
{
    let mut data = data;
    let ghost d = data@;
    let mut v: Vec<Effect> = Vec::new();
    let chat = msg.chat_id;
    match msg.text {
        None => {
            push_send_str(&mut v, chat, URL_REQUIRED, None, None);
        },
        Some(url) => {
            if !validate_url(url.as_str()) {
                push_send_str(&mut v, chat, INVALID_URL, None, None);
            } else {
                data.current_button_url = Some(url);
                push_state(&mut v, BotState::AwaitingStyle { data });
                push_send_str(&mut v, chat, STYLE_PROMPT, None, Some(build_style_keyboard()));
            }
        },
    }
    assert(effects_view(v@) =~= url_effects(msg, d));
    v
}


/// The callback data of `cb`, empty where there is none.
pub open spec fn callback_data(cb: IncomingCallback) -> Seq<char> {
    match cb.data {
        Some(x) => x@,
        None => ""@,
    }
}

fn callback_data_str(cb: &IncomingCallback) -> (r: &str)
    ensures
        r@ == callback_data(*cb),
{
    match &cb.data {
        Some(x) => x.as_str(),
        None => "",
    }
}

/// The confirmation that replaces the style picker.
pub open spec fn style_chosen_text(style: Option<Seq<char>>) -> Seq<char> {
    "🎨 Style: "@ + style_name(style) + " ✓"@
}

/// What a tap does while the style is awaited: any callback data picks a style
/// (unknown data picks the default style).
pub open spec fn style_callback_effects(cb: IncomingCallback, d: SessionView) -> Seq<EffectView> {
    let style = style_for_callback(callback_data(cb));
    seq![
        EffectView::Answer { callback_id: cb.id@ },
        EffectView::Edit { chat_id: cb.chat_id, message_id: cb.message_id, text: style_chosen_text(style) },
        EffectView::SetState(StateView::AwaitingEmoji(SessionView { current_button_style: style, ..d })),
        send(cb.chat_id, EMOJI_PROMPT@, Some(ParseMode::Html), Some(emoji_keyboard())),
    ]
}

/// Handle style selection callback when in AwaitingStyle state.
pub fn handle_style_callback(cb: IncomingCallback, data: SessionData) -> (r: Vec<Effect>)
    ensures
        effects_view(r@) == style_callback_effects(cb, data@),
{
    let mut data = data;
    let ghost d = data@;
    let mut v: Vec<Effect> = Vec::new();
    let style = map_style_callback(callback_data_str(&cb));
    let ghost sv = crate::session::opt_view(style);
    let mut edit = String::from_str("🎨 Style: ");
    let name = match &style {
        Some(x) => style_display_name(Some(x.as_str())),
        None => style_display_name(None),
    };
    edit.append(name);
    edit.append(" ✓");
    push_effect(&mut v, Effect::AnswerCallback { callback_id: cb.id.clone() });
    push_effect(&mut v, Effect::EditMessageText { chat_id: cb.chat_id, message_id: cb.message_id, text: edit });
    data.current_button_style = style;
    push_state(&mut v, BotState::AwaitingEmoji { data });
    push_send_str(&mut v, cb.chat_id, EMOJI_PROMPT, Some(ParseMode::Html), Some(build_emoji_keyboard()));
    assert(effects_view(v@) =~= style_callback_effects(cb, d));
    v
}

/// The summary shown for a button just configured.
pub open spec fn button_summary(b: ButtonView, total: nat) -> Seq<char> {
    "📋 Button configured:\n\n📌 Label: "@ + b.text + "\n🔗 URL: "@ + b.url + "\n🎨 Style: "@
        + style_name(b.style) + "\n🎭 Emoji: "@ + match b.icon_custom_emoji_id {
        Some(e) => e,
        None => "None"@,
    } + "\n\nTotal buttons: "@ + decimal(total) + "\n\nWhat's next?"@
}

/// The button made of the fields being configured in `d`.
pub open spec fn current_button(d: SessionView) -> ButtonView {
    ButtonView {
        text: d.current_button_text.unwrap(),
        url: d.current_button_url.unwrap(),
        style: d.current_button_style,
        icon_custom_emoji_id: d.current_button_emoji,
    }
}

/// `d` with the button being configured added to its buttons and its fields cleared.
pub open spec fn finalized(d: SessionView) -> SessionView {
    SessionView {
        buttons: d.buttons.push(current_button(d)),
        current_button_text: None,
        current_button_url: None,
        current_button_style: None,
        current_button_emoji: None,
        ..d
    }
}

/// What finishing the button being configured does: add it and ask what next;
/// where its text or URL is missing, only say that something went wrong.
pub open spec fn finalize_effects(d: SessionView, chat_id: i64) -> Seq<EffectView> {
    if d.current_button_text is Some && d.current_button_url is Some {
        seq![
            EffectView::SetState(StateView::AwaitingConfirm(finalized(d))),
            send(
                chat_id,
                button_summary(current_button(d), d.buttons.len() + 1),
                None,
                Some(confirm_keyboard()),
            ),
        ]
    } else {
        seq![send(chat_id, FINALIZE_FAILED@, None, None)]
    }
}

fn opt_str(o: &Option<String>) -> (r: Option<&str>)
    ensures
        crate::keyboard::opt_str_view(r) == crate::session::opt_view(*o),
{
    match o {
        Some(s) => Some(s.as_str()),
        None => None,
    }
}

fn button_summary_string(b: &ButtonConfig, total: usize) -> (s: String)
    ensures
        s@ == button_summary(b@, total as nat),
{
    let mut s = String::from_str("📋 Button configured:\n\n📌 Label: ");
    s.append(b.text.as_str());
    s.append("\n🔗 URL: ");
    s.append(b.url.as_str());
    s.append("\n🎨 Style: ");
    s.append(style_display_name(opt_str(&b.style)));
    s.append("\n🎭 Emoji: ");
    match &b.icon_custom_emoji_id {
        Some(e) => s.append(e.as_str()),
        None => s.append("None"),
    }
    s.append("\n\nTotal buttons: ");
    push_decimal(&mut s, total as u64);
    s.append("\n\nWhat's next?");
    s
}

/// Finalize the current button configuration and show the summary.
fn finalize_button_and_show_summary(data: SessionData, chat_id: i64) -> (r: Vec<Effect>)
    ensures
        effects_view(r@) == finalize_effects(data@, chat_id),
{
    let mut data = data;
    let ghost d = data@;
    let mut v: Vec<Effect> = Vec::new();
    match data.finalize_current_button() {
        Some(button) => {
            assert(button@ == current_button(d));
            assert(data@.buttons =~= d.buttons.push(current_button(d)));
            assert(data@ == finalized(d));
            let summary = button_summary_string(&button, data.button_count());
            push_state(&mut v, BotState::AwaitingConfirm { data });
            push_send(&mut v, chat_id, summary, None, Some(build_confirm_keyboard()));
        },
        None => {
            push_send_str(&mut v, chat_id, FINALIZE_FAILED, None, None);
        },
    }
    assert(effects_view(v@) =~= finalize_effects(d, chat_id));
    v
}

/// What a tap does while the emoji is awaited: Skip clears the emoji; any tap
/// then finishes the button.
pub open spec fn emoji_callback_effects(cb: IncomingCallback, d: SessionView) -> Seq<EffectView> {
    let d2 = if callback_data(cb) == "emoji_skip"@ {
        SessionView { current_button_emoji: None, ..d }
    } else {
        d
    };
    seq![EffectView::Answer { callback_id: cb.id@ }] + finalize_effects(d2, cb.chat_id)
}

/// Handle emoji input or skip when in AwaitingEmoji state.
pub fn handle_emoji_callback(cb: IncomingCallback, data: SessionData) -> (r: Vec<Effect>)
    ensures
        effects_view(r@) == emoji_callback_effects(cb, data@),
{
    let mut data = data;
    let ghost d = data@;
    let mut v: Vec<Effect> = Vec::new();
    push_effect(&mut v, Effect::AnswerCallback { callback_id: cb.id.clone() });
    if str_eq(callback_data_str(&cb), "emoji_skip") {
        data.current_button_emoji = None;
    }
    let rest = finalize_button_and_show_summary(data, cb.chat_id);
    let ghost first = effects_view(v@);
    let mut rest = rest;
    let ghost rest_view = effects_view(rest@);
    v.append(&mut rest);
    assert(effects_view(v@) =~= first + rest_view);
    assert(effects_view(v@) =~= emoji_callback_effects(cb, d));
    v
}

/// What a message does while the emoji is awaited: its text is the emoji ID,
/// and the button is finished.
pub open spec fn emoji_text_effects(msg: IncomingMessage, d: SessionView) -> Seq<EffectView> {
    match msg.text {
        None => seq![send(msg.chat_id, EMOJI_REQUIRED@, None, None)],
        Some(e) => finalize_effects(SessionView { current_button_emoji: Some(e@), ..d }, msg.chat_id),
    }
}

/// Handle emoji text input when in AwaitingEmoji state.
pub fn handle_emoji_text(msg: IncomingMessage, data: SessionData) -> (r: Vec<Effect>)
    ensures
        effects_view(r@) == emoji_text_effects(msg, data@),
{
    let mut data = data;
    let ghost d = data@;
    let chat = msg.chat_id;
    match msg.text {
        None => {
            let mut v: Vec<Effect> = Vec::new();
            push_send_str(&mut v, chat, EMOJI_REQUIRED, None, None);
            assert(effects_view(v@) =~= emoji_text_effects(msg, d));
            v
        },
        Some(emoji) => {
            data.current_button_emoji = Some(emoji);
            assert(data@ == SessionView { current_button_emoji: Some(msg.text.unwrap()@), ..d });
            finalize_button_and_show_summary(data, chat)
        },
    }
}

/// `d` with the button being configured cleared.
pub open spec fn cleared_current(d: SessionView) -> SessionView {
    SessionView {
        current_button_text: None,
        current_button_url: None,
        current_button_style: None,
        current_button_emoji: None,
        ..d
    }
}

/// What a tap does while confirmation is awaited: Add another starts the next
/// button, Cancel goes back to Idle, Publish copies the content with the
/// configured buttons to the destination; other data does nothing more.
pub open spec fn confirm_effects(cb: IncomingCallback, d: SessionView) -> Seq<EffectView> {
    let data = callback_data(cb);
    let chat = cb.chat_id;
    seq![EffectView::Answer { callback_id: cb.id@ }] + if data == "action_add"@ {
        seq![
            EffectView::SetState(StateView::AwaitingButtonText(cleared_current(d))),
            send(chat, NEXT_BUTTON_PROMPT@, Some(ParseMode::Html), None),
        ]
    } else if data == "action_cancel"@ {
        seq![EffectView::SetState(StateView::Idle), send(chat, ACTION_CANCELLED@, None, None)]
    } else if data == "action_publish"@ {
        if d.source_chat_id is Some && d.source_message_id is Some && d.destination_chat_id is Some {
            seq![
                EffectView::Copy {
                    chat_id: d.destination_chat_id.unwrap(),
                    from_chat_id: d.source_chat_id.unwrap(),
                    message_id: d.source_message_id.unwrap(),
                    markup: inline_keyboard(d.buttons),
                },
            ]
        } else {
            seq![send(chat, MISSING_DATA@, None, None), EffectView::SetState(StateView::Idle)]
        }
    } else {
        seq![]
    }
}

/// Handle confirmation callbacks when in AwaitingConfirm state.
///
/// A publication ends with [`Effect::CopyMessage`], whose outcome goes to
/// [`handle_publish_result`] with the same session.
pub fn handle_confirm_callback(cb: IncomingCallback, data: SessionData) -> (r: Vec<Effect>)
    ensures
        effects_view(r@) == confirm_effects(cb, data@),
{
    let mut data = data;
    let ghost d = data@;
    let mut v: Vec<Effect> = Vec::new();
    let chat = cb.chat_id;
    push_effect(&mut v, Effect::AnswerCallback { callback_id: cb.id.clone() });
    let action = callback_data_str(&cb);
    if str_eq(action, "action_add") {
        data.clear_current_button();
        assert(data@ == cleared_current(d));
        push_state(&mut v, BotState::AwaitingButtonText { data });
        push_send_str(&mut v, chat, NEXT_BUTTON_PROMPT, Some(ParseMode::Html), None);
    } else if str_eq(action, "action_cancel") {
        push_state(&mut v, BotState::Idle);
        push_send_str(&mut v, chat, ACTION_CANCELLED, None, None);
    } else if str_eq(action, "action_publish") {
        match (data.source_chat_id, data.source_message_id, data.destination_chat_id) {
            (Some(source), Some(message), Some(destination)) => {
                let markup = build_inline_keyboard(&data.buttons);
                push_effect(&mut v, Effect::CopyMessage {
                    chat_id: destination,
                    from_chat_id: source,
                    message_id: message,
                    markup,
                });
            },
            _ => {
                push_send_str(&mut v, chat, MISSING_DATA, None, None);
                push_state(&mut v, BotState::Idle);
            },
        }
    }
    assert(effects_view(v@) =~= confirm_effects(cb, d));
    v
}

/// The message shown when publishing failed with error `e`.
pub open spec fn publish_failed_text(e: Seq<char>, buttons: nat) -> Seq<char> {
    "❌ "@ + e + "\n\nYour button configuration is saved ("@ + decimal(buttons)
        + " button(s)).\nPlease choose a different chat where I'm an admin:"@
}

/// The characters of a publication outcome's error.
pub open spec fn result_view(r: Result<(), String>) -> Result<(), Seq<char>> {
    match r {
        Ok(()) => Ok(()),
        Err(e) => Err(e@),
    }
}

/// What the outcome of the copy does: success goes back to Idle; failure keeps
/// the configured buttons, forgets the destination and asks for another one.
pub open spec fn publish_result_effects(d: SessionView, chat_id: i64, result: Result<(), Seq<char>>) -> Seq<EffectView> {
    match result {
        Ok(()) => seq![send(chat_id, POSTED@, None, None), EffectView::SetState(StateView::Idle)],
        Err(e) => seq![
            EffectView::SetState(StateView::AwaitingDestination(SessionView { destination_chat_id: None, ..d })),
            send(chat_id, publish_failed_text(e, d.buttons.len()), None, Some(destination_keyboard())),
        ],
    }
}

/// Handle the outcome of copying the content to its destination; `data` is the
/// session that was published and `chat_id` the chat of the confirmation.
pub fn handle_publish_result(data: SessionData, chat_id: i64, result: Result<(), String>) -> (r: Vec<Effect>)
    ensures
        effects_view(r@) == publish_result_effects(data@, chat_id, result_view(result)),
{
    let mut data = data;
    let ghost d = data@;
    let mut v: Vec<Effect> = Vec::new();
    match result {
        Ok(()) => {
            push_send_str(&mut v, chat_id, POSTED, None, None);
            push_state(&mut v, BotState::Idle);
        },
        Err(e) => {
            data.destination_chat_id = None;
            let count = data.buttons.len();
            push_state(&mut v, BotState::AwaitingDestination { data });
            let mut text = String::from_str("❌ ");
            text.append(e.as_str());
            text.append("\n\nYour button configuration is saved (");
            push_decimal(&mut text, count as u64);
            text.append(" button(s)).\nPlease choose a different chat where I'm an admin:");
            push_send(&mut v, chat_id, text, None, Some(build_destination_keyboard()));
        },
    }
    assert(effects_view(v@) =~= publish_result_effects(d, chat_id, result_view(result)));
    v
}

/// What an update does in state `s`: commands act in every state, messages
/// and taps only in the states that await them.
pub open spec fn step_effects(s: StateView, u: Update) -> Seq<EffectView> {
    match u {
        Update::Command(c, msg) => match c {
            Command::Start => start_effects(msg),
            Command::Help => help_effects(msg),
            Command::Cancel => cancel_effects(msg),
        },
        Update::Message(msg) => match s {
            StateView::Idle => content_effects(msg),
            StateView::AwaitingDestination(d) => destination_effects(msg, d),
            StateView::AwaitingButtonText(d) => button_text_effects(msg, d),
            StateView::AwaitingUrl(d) => url_effects(msg, d),
            StateView::AwaitingEmoji(d) => emoji_text_effects(msg, d),
            _ => Seq::empty(),
        },
        Update::Callback(cb) => match s {
            StateView::AwaitingStyle(d) => style_callback_effects(cb, d),
            StateView::AwaitingEmoji(d) => emoji_callback_effects(cb, d),
            StateView::AwaitingConfirm(d) => confirm_effects(cb, d),
            _ => Seq::empty(),
        },
    }
}

/// The effects of `update` in state `state`.
pub fn step(state: BotState, update: Update) -> (r: Vec<Effect>)
    ensures
        effects_view(r@) == step_effects(state@, update),
{
    match update {
        Update::Command(c, msg) => match c {
            Command::Start => handle_start(msg),
            Command::Help => handle_help(msg),
            Command::Cancel => handle_cancel(msg),
        },
        Update::Message(msg) => match state {
            BotState::Idle => handle_content(msg),
            BotState::AwaitingDestination { data } => handle_destination(msg, data),
            BotState::AwaitingButtonText { data } => handle_button_text(msg, data),
            BotState::AwaitingUrl { data } => handle_url(msg, data),
            BotState::AwaitingEmoji { data } => handle_emoji_text(msg, data),
            _ => {
                let v: Vec<Effect> = Vec::new();
                assert(effects_view(v@) =~= Seq::<EffectView>::empty());
                v
            },
        },
        Update::Callback(cb) => match state {
            BotState::AwaitingStyle { data } => handle_style_callback(cb, data),
            BotState::AwaitingEmoji { data } => handle_emoji_callback(cb, data),
            BotState::AwaitingConfirm { data } => handle_confirm_callback(cb, data),
            _ => {
                let v: Vec<Effect> = Vec::new();
                assert(effects_view(v@) =~= Seq::<EffectView>::empty());
                v
            },
        },
    }
}

} // verus!
