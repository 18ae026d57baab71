//! Properties of the conversation that span handlers and updates.

use vstd::prelude::*;
use crate::conversation::{
    callback_data, chosen_destination, cleared_current, confirm_effects, current_button,
    destination_effects, finalize_effects, finalized, publish_result_effects, state_after,
    step_effects, track_effects, Command, EffectView, IncomingCallback, IncomingMessage, Update,
};
use crate::keyboard::{inline_keyboard, style_for_callback, valid_url};
use crate::session::{ButtonView, SessionView};
use crate::state::StateView;
use crate::admin::{broadcast_message, page_count, target_id};
use crate::text::{
    is_whitespace, lemma_parse_i64_signed_decimal, lemma_trim_is_core, second_token, signed_decimal,
    starts_with,
};

verus! {

/// No effect of `e` stores a state.
pub open spec fn stores_no_state(e: Seq<EffectView>) -> bool {
    forall|j: int| 0 <= j < e.len() ==> !(#[trigger] e[j] is SetState)
}

proof fn lemma_state_after_none(e: Seq<EffectView>, s: StateView)
    requires
        stores_no_state(e),
    ensures
        state_after(e, s) == s,
    decreases e.len(),
{
    if e.len() > 0 {
        assert(!(e[e.len() - 1] is SetState));
        assert(stores_no_state(e.drop_last())) by {
            assert forall|j: int| 0 <= j < e.drop_last().len() implies !(#[trigger] e.drop_last()[j] is SetState) by {
                assert(e.drop_last()[j] == e[j]);
            }
        }
        lemma_state_after_none(e.drop_last(), s);
    }
}

proof fn lemma_state_after_last(e: Seq<EffectView>, i: int, s: StateView)
    requires
        0 <= i < e.len(),
        e[i] is SetState,
        forall|j: int| i < j < e.len() ==> !(#[trigger] e[j] is SetState),
    ensures
        state_after(e, s) == e[i]->SetState_0,
    decreases e.len(),
{
    if i < e.len() - 1 {
        assert(!(e[e.len() - 1] is SetState));
        assert forall|j: int| i < j < e.drop_last().len() implies !(#[trigger] e.drop_last()[j] is SetState) by {
            assert(e.drop_last()[j] == e[j]);
        }
        lemma_state_after_last(e.drop_last(), i, s);
    }
}

/// Whether the session holds the content to post: where it came from.
pub open spec fn has_source(d: SessionView) -> bool {
    d.source_chat_id is Some && d.source_message_id is Some
}

/// The session holds the content to post and where to post it.
pub open spec fn has_post(d: SessionView) -> bool {
    has_source(d) && d.destination_chat_id is Some
}

/// What each state can rely on: every session knows its content, and past the
/// destination picker also its destination; the button being configured has
/// the fields that its state follows from.
pub open spec fn well_formed(s: StateView) -> bool {
    match s {
        StateView::Idle => true,
        StateView::AwaitingDestination(d) => has_source(d),
        StateView::AwaitingButtonText(d) => has_post(d),
        StateView::AwaitingUrl(d) => has_post(d) && d.current_button_text is Some,
        StateView::AwaitingStyle(d) => has_post(d) && d.current_button_text is Some
            && d.current_button_url is Some,
        StateView::AwaitingEmoji(d) => has_post(d) && d.current_button_text is Some
            && d.current_button_url is Some,
        StateView::AwaitingConfirm(d) => has_post(d),
    }
}

/// The state that follows update `u` in state `s`, all effects performed.
pub open spec fn next_state(s: StateView, u: Update) -> StateView {
    state_after(step_effects(s, u), s)
}

proof fn lemma_finalize_state(d: SessionView, chat: i64, s: StateView)
    ensures
        d.current_button_text is Some && d.current_button_url is Some ==> state_after(
            finalize_effects(d, chat),
            s,
        ) == StateView::AwaitingConfirm(finalized(d)),
        !(d.current_button_text is Some && d.current_button_url is Some) ==> state_after(
            finalize_effects(d, chat),
            s,
        ) == s,
{
    let e = finalize_effects(d, chat);
    if d.current_button_text is Some && d.current_button_url is Some {
        lemma_state_after_last(e, 0, s);
    } else {
        lemma_state_after_none(e, s);
    }
}

proof fn lemma_state_after_concat(a: Seq<EffectView>, b: Seq<EffectView>, s: StateView)
    ensures
        state_after(a + b, s) == state_after(b, state_after(a, s)),
    decreases b.len(),
{
    if b.len() == 0 {
        assert(a + b =~= a);
    } else {
        assert((a + b).drop_last() =~= a + b.drop_last());
        assert((a + b).last() == b.last());
        lemma_state_after_concat(a, b.drop_last(), s);
    }
}

proof fn lemma_state_after_is_stored_or_start(e: Seq<EffectView>, s: StateView)
    ensures
        state_after(e, s) == s || exists|i: int|
            0 <= i < e.len() && #[trigger] e[i] is SetState && state_after(e, s) == e[i]->SetState_0,
    decreases e.len(),
{
    if e.len() > 0 {
        if e.last() is SetState {
            assert(e[e.len() - 1] is SetState);
        } else {
            lemma_state_after_is_stored_or_start(e.drop_last(), s);
            if state_after(e.drop_last(), s) != s {
                let i = choose|i: int|
                    0 <= i < e.drop_last().len() && #[trigger] e.drop_last()[i] is SetState
                        && state_after(e.drop_last(), s) == e.drop_last()[i]->SetState_0;
                assert(e[i] == e.drop_last()[i]);
            }
        }
    }
}

/// Every state that `e` stores satisfies `p`.
pub open spec fn stores_only(e: Seq<EffectView>, p: spec_fn(StateView) -> bool) -> bool {
    forall|i: int| 0 <= i < e.len() && #[trigger] e[i] is SetState ==> p(e[i]->SetState_0)
}

/// Every state that `e` stores is well formed.
pub open spec fn stores_well_formed(e: Seq<EffectView>) -> bool {
    stores_only(e, |t: StateView| well_formed(t))
}

proof fn lemma_stores_concat(a: Seq<EffectView>, b: Seq<EffectView>, p: spec_fn(StateView) -> bool)
    requires
        stores_only(a, p),
        stores_only(b, p),
    ensures
        stores_only(a + b, p),
{
    assert forall|i: int| 0 <= i < (a + b).len() && #[trigger] (a + b)[i] is SetState implies p((a + b)[i]->SetState_0) by {
        if i < a.len() {
            assert((a + b)[i] == a[i]);
        } else {
            assert((a + b)[i] == b[i - a.len()]);
        }
    }
}

proof fn lemma_state_after_satisfies(e: Seq<EffectView>, s: StateView, p: spec_fn(StateView) -> bool)
    requires
        stores_only(e, p),
        p(s),
    ensures
        p(state_after(e, s)),
{
    lemma_state_after_is_stored_or_start(e, s);
}

/// Command `c` stores only states that satisfy `p`, where Idle does.
proof fn lemma_command_stores(c: Command, msg: IncomingMessage, s: StateView, p: spec_fn(StateView) -> bool)
    requires
        p(StateView::Idle),
    ensures
        stores_only(step_effects(s, Update::Command(c, msg)), p),
{
    let t = track_effects(msg.from, crate::analytics::EventType::Start);
    let h = track_effects(msg.from, crate::analytics::EventType::Help);
    assert(stores_only(t, p));
    assert(stores_only(h, p));
    match c {
        Command::Start => lemma_stores_concat(t, seq![
            EffectView::SetState(StateView::Idle),
            crate::conversation::send(msg.chat_id, crate::conversation::WELCOME_MESSAGE@, Some(crate::conversation::ParseMode::MarkdownV2), None),
        ], p),
        Command::Help => lemma_stores_concat(h, seq![
            crate::conversation::send(msg.chat_id, crate::conversation::WELCOME_MESSAGE@, Some(crate::conversation::ParseMode::MarkdownV2), None),
        ], p),
        Command::Cancel => {},
    }
}

proof fn lemma_step_stores_well_formed(s: StateView, u: Update)
    requires
        well_formed(s),
    ensures
        stores_well_formed(step_effects(s, u)),
{
    let p = |t: StateView| well_formed(t);
    match u {
        Update::Command(c, msg) => lemma_command_stores(c, msg, s, p),
        Update::Message(msg) => match s {
            StateView::Idle => {
                let t = track_effects(msg.from, crate::analytics::EventType::ContentReceived);
                assert(stores_only(t, p));
                if !(msg.from is Some && msg.sender_blocked) {
                    lemma_stores_concat(t, seq![
                        EffectView::SetState(StateView::AwaitingDestination(crate::conversation::fresh_session(msg.chat_id, msg.message_id))),
                        crate::conversation::send(msg.chat_id, crate::conversation::DESTINATION_PROMPT@, None, Some(crate::keyboard::destination_keyboard())),
                    ], p);
                }
            },
            _ => {},
        },
        Update::Callback(cb) => {},
    }
}

/// Every update keeps the conversation's state well formed.
pub proof fn lemma_step_preserves_well_formed(s: StateView, u: Update)
    requires
        well_formed(s),
    ensures
        well_formed(next_state(s, u)),
{
    lemma_step_stores_well_formed(s, u);
    lemma_state_after_satisfies(step_effects(s, u), s, |t: StateView| well_formed(t));
}

/// The outcome of a publication keeps the conversation's state well formed.
pub proof fn lemma_publish_result_preserves_well_formed(d: SessionView, chat_id: i64, result: Result<(), Seq<char>>)
    requires
        well_formed(StateView::AwaitingConfirm(d)),
    ensures
        well_formed(state_after(publish_result_effects(d, chat_id, result), StateView::AwaitingConfirm(d))),
{
    let e = publish_result_effects(d, chat_id, result);
    match result {
        Ok(()) => lemma_state_after_last(e, 1, StateView::AwaitingConfirm(d)),
        Err(_) => lemma_state_after_last(e, 0, StateView::AwaitingConfirm(d)),
    }
}

/// /cancel returns to Idle from any state.
pub proof fn lemma_cancel_returns_to_idle(s: StateView, msg: IncomingMessage)
    ensures
        next_state(s, Update::Command(Command::Cancel, msg)) == StateView::Idle,
{
    let e = step_effects(s, Update::Command(Command::Cancel, msg));
    lemma_state_after_last(e, e.len() - 2, s);
}

/// /start returns to Idle from any state.
pub proof fn lemma_start_returns_to_idle(s: StateView, msg: IncomingMessage)
    ensures
        next_state(s, Update::Command(Command::Start, msg)) == StateView::Idle,
{
    let e = step_effects(s, Update::Command(Command::Start, msg));
    lemma_state_after_last(e, e.len() - 2, s);
}

/// /help leaves the state as it is.
pub proof fn lemma_help_keeps_state(s: StateView, msg: IncomingMessage)
    ensures
        next_state(s, Update::Command(Command::Help, msg)) == s,
{
    let e = step_effects(s, Update::Command(Command::Help, msg));
    assert(stores_no_state(e));
    lemma_state_after_none(e, s);
}

/// Content from a blocked user is ignored.
pub proof fn lemma_blocked_sender_ignored(msg: IncomingMessage)
    requires
        msg.from is Some,
        msg.sender_blocked,
    ensures
        step_effects(StateView::Idle, Update::Message(msg)) == Seq::<EffectView>::empty(),
{
}

/// Messages and taps that the current state does not await do nothing.
pub proof fn lemma_unawaited_updates_ignored(s: StateView, msg: IncomingMessage, cb: IncomingCallback)
    ensures
        (s is AwaitingStyle || s is AwaitingConfirm) ==> step_effects(s, Update::Message(msg))
            == Seq::<EffectView>::empty(),
        (s is Idle || s is AwaitingDestination || s is AwaitingButtonText || s is AwaitingUrl)
            ==> step_effects(s, Update::Callback(cb)) == Seq::<EffectView>::empty(),
{
}

/// Choosing a destination moves on to the buttons: straight to confirmation
/// where buttons are already configured (after a failed publication), else to
/// the first button's text.
pub proof fn lemma_destination_chosen(d: SessionView, msg: IncomingMessage)
    requires
        chosen_destination(msg) is Some,
    ensures
        ({
            let d2 = SessionView { destination_chat_id: chosen_destination(msg), ..d };
            next_state(StateView::AwaitingDestination(d), Update::Message(msg)) == if d.buttons.len() > 0 {
                StateView::AwaitingConfirm(d2)
            } else {
                StateView::AwaitingButtonText(d2)
            }
        }),
{
    let e = destination_effects(msg, d);
    lemma_state_after_last(e, 1, StateView::AwaitingDestination(d));
}

/// A URL that is not accepted leaves the state as it is, and the user is told.
pub proof fn lemma_invalid_url_rejected(d: SessionView, msg: IncomingMessage)
    requires
        msg.text is Some,
        !valid_url(msg.text.unwrap()@),
    ensures
        step_effects(StateView::AwaitingUrl(d), Update::Message(msg)) == seq![
            crate::conversation::send(msg.chat_id, crate::conversation::INVALID_URL@, None, None),
        ],
        next_state(StateView::AwaitingUrl(d), Update::Message(msg)) == StateView::AwaitingUrl(d),
{
    let e = step_effects(StateView::AwaitingUrl(d), Update::Message(msg));
    assert(stores_no_state(e));
    lemma_state_after_none(e, StateView::AwaitingUrl(d));
}

/// Configuring a button: its text, a valid URL, a style and an emoji ID add
/// exactly that button to the session and ask for confirmation.
pub proof fn lemma_configure_button(
    d: SessionView,
    text_msg: IncomingMessage,
    url_msg: IncomingMessage,
    style_cb: IncomingCallback,
    emoji_msg: IncomingMessage,
)
    requires
        well_formed(StateView::AwaitingButtonText(d)),
        text_msg.text is Some,
        url_msg.text is Some,
        valid_url(url_msg.text.unwrap()@),
        emoji_msg.text is Some,
    ensures
        ({
            let s1 = next_state(StateView::AwaitingButtonText(d), Update::Message(text_msg));
            let s2 = next_state(s1, Update::Message(url_msg));
            let s3 = next_state(s2, Update::Callback(style_cb));
            let s4 = next_state(s3, Update::Message(emoji_msg));
            let b = ButtonView {
                text: text_msg.text.unwrap()@,
                url: url_msg.text.unwrap()@,
                style: style_for_callback(callback_data(style_cb)),
                icon_custom_emoji_id: Some(emoji_msg.text.unwrap()@),
            };
            &&& s1 == StateView::AwaitingUrl(SessionView { current_button_text: Some(b.text), ..d })
            &&& s2 == StateView::AwaitingStyle(
                SessionView { current_button_text: Some(b.text), current_button_url: Some(b.url), ..d },
            )
            &&& s3 == StateView::AwaitingEmoji(
                SessionView {
                    current_button_text: Some(b.text),
                    current_button_url: Some(b.url),
                    current_button_style: b.style,
                    ..d
                },
            )
            &&& s4 == StateView::AwaitingConfirm(
                SessionView {
                    buttons: d.buttons.push(b),
                    current_button_text: None,
                    current_button_url: None,
                    current_button_style: None,
                    current_button_emoji: None,
                    ..d
                },
            )
        }),
{
    let s0 = StateView::AwaitingButtonText(d);
    let e1 = step_effects(s0, Update::Message(text_msg));
    lemma_state_after_last(e1, 0, s0);
    let s1 = next_state(s0, Update::Message(text_msg));
    let e2 = step_effects(s1, Update::Message(url_msg));
    lemma_state_after_last(e2, 0, s1);
    let s2 = next_state(s1, Update::Message(url_msg));
    let e3 = step_effects(s2, Update::Callback(style_cb));
    lemma_state_after_last(e3, 2, s2);
    let s3 = next_state(s2, Update::Callback(style_cb));
    let d3 = s3->AwaitingEmoji_0;
    let d4 = SessionView { current_button_emoji: Some(emoji_msg.text.unwrap()@), ..d3 };
    lemma_finalize_state(d4, emoji_msg.chat_id, s3);
}

/// Skip finishes the button without an emoji.
pub proof fn lemma_skip_emoji(d: SessionView, cb: IncomingCallback)
    requires
        well_formed(StateView::AwaitingEmoji(d)),
        callback_data(cb) == "emoji_skip"@,
    ensures
        next_state(StateView::AwaitingEmoji(d), Update::Callback(cb)) == StateView::AwaitingConfirm(
            finalized(SessionView { current_button_emoji: None, ..d }),
        ),
        current_button(SessionView { current_button_emoji: None, ..d }).icon_custom_emoji_id is None,
{
    let s = StateView::AwaitingEmoji(d);
    let d2 = SessionView { current_button_emoji: None, ..d };
    let rest = finalize_effects(d2, cb.chat_id);
    let first = seq![EffectView::Answer { callback_id: cb.id@ }];
    lemma_finalize_state(d2, cb.chat_id, s);
    assert(stores_no_state(first));
    lemma_state_after_none(first, s);
    lemma_state_after_concat(first, rest, s);
}

/// Add another button keeps the configured buttons and starts a new one.
pub proof fn lemma_add_another_button(d: SessionView, cb: IncomingCallback)
    requires
        callback_data(cb) == "action_add"@,
    ensures
        next_state(StateView::AwaitingConfirm(d), Update::Callback(cb)) == StateView::AwaitingButtonText(
            cleared_current(d),
        ),
        cleared_current(d).buttons == d.buttons,
{
    let e = confirm_effects(cb, d);
    lemma_state_after_last(e, 1, StateView::AwaitingConfirm(d));
}

/// Publishing copies the content to the chosen destination with exactly the
/// configured buttons, each in a row of its own; the state waits for the outcome.
pub proof fn lemma_publish_posts_configured_buttons(d: SessionView, cb: IncomingCallback)
    requires
        well_formed(StateView::AwaitingConfirm(d)),
        callback_data(cb) == "action_publish"@,
    ensures
        step_effects(StateView::AwaitingConfirm(d), Update::Callback(cb)) == seq![
            EffectView::Answer { callback_id: cb.id@ },
            EffectView::Copy {
                chat_id: d.destination_chat_id.unwrap(),
                from_chat_id: d.source_chat_id.unwrap(),
                message_id: d.source_message_id.unwrap(),
                markup: inline_keyboard(d.buttons),
            },
        ],
        next_state(StateView::AwaitingConfirm(d), Update::Callback(cb)) == StateView::AwaitingConfirm(d),
{
    reveal_strlit("action_add");
    reveal_strlit("action_cancel");
    reveal_strlit("action_publish");
    assert("action_add"@.len() == 10);
    assert("action_cancel"@.len() == 13);
    assert("action_publish"@.len() == 14);
    let e = step_effects(StateView::AwaitingConfirm(d), Update::Callback(cb));
    assert(e =~= seq![
        EffectView::Answer { callback_id: cb.id@ },
        EffectView::Copy {
            chat_id: d.destination_chat_id.unwrap(),
            from_chat_id: d.source_chat_id.unwrap(),
            message_id: d.source_message_id.unwrap(),
            markup: inline_keyboard(d.buttons),
        },
    ]);
    assert(stores_no_state(e));
    lemma_state_after_none(e, StateView::AwaitingConfirm(d));
}

/// A successful publication ends the conversation; a failed one keeps the
/// configured buttons, forgets the destination and asks for another.
pub proof fn lemma_publication_outcome(d: SessionView, chat_id: i64, e: Seq<char>)
    ensures
        state_after(publish_result_effects(d, chat_id, Ok(())), StateView::AwaitingConfirm(d)) == StateView::Idle,
        state_after(publish_result_effects(d, chat_id, Err(e)), StateView::AwaitingConfirm(d))
            == StateView::AwaitingDestination(SessionView { destination_chat_id: None, ..d }),
{
    lemma_state_after_last(publish_result_effects(d, chat_id, Ok(())), 1, StateView::AwaitingConfirm(d));
    lemma_state_after_last(publish_result_effects(d, chat_id, Err(e)), 0, StateView::AwaitingConfirm(d));
}

/// `after` keeps every button of `before`, in order, and adds at most one.
pub open spec fn keeps_buttons(before: Seq<ButtonView>, after: Seq<ButtonView>) -> bool {
    after == before || (after.len() == before.len() + 1 && after.drop_last() == before)
}

/// The state has no session, or one whose buttons keep `buttons`.
pub open spec fn keeps_buttons_of(buttons: Seq<ButtonView>, t: StateView) -> bool {
    t.session() is Some ==> keeps_buttons(buttons, t.session().unwrap().buttons)
}

/// While a conversation lasts, no update loses a configured button: the
/// buttons after it are those before it, with at most one added at the end.
pub proof fn lemma_step_keeps_buttons(s: StateView, u: Update)
    requires
        s.session() is Some,
    ensures
        keeps_buttons_of(s.session().unwrap().buttons, next_state(s, u)),
{
    let bs = s.session().unwrap().buttons;
    let p = |t: StateView| keeps_buttons_of(bs, t);
    assert(p(s));
    match u {
        Update::Command(c, msg) => lemma_command_stores(c, msg, s, p),
        Update::Message(msg) => {},
        Update::Callback(cb) => match s {
            StateView::AwaitingEmoji(d) => {
                let d2 = if callback_data(cb) == "emoji_skip"@ {
                    SessionView { current_button_emoji: None, ..d }
                } else {
                    d
                };
                assert(finalized(d2).buttons.drop_last() =~= bs);
                assert(stores_only(seq![EffectView::Answer { callback_id: cb.id@ }], p));
                assert(stores_only(finalize_effects(d2, cb.chat_id), p));
                lemma_stores_concat(
                    seq![EffectView::Answer { callback_id: cb.id@ }],
                    finalize_effects(d2, cb.chat_id),
                    p,
                );
            },
            _ => {},
        },
    }
    if let Update::Message(msg) = u {
        if let StateView::AwaitingEmoji(d) = s {
            let d2 = SessionView { current_button_emoji: Some(msg.text.unwrap()@), ..d };
            assert(finalized(d2).buttons.drop_last() =~= bs);
        }
    }
    lemma_state_after_satisfies(step_effects(s, u), s, p);
}

/// The state has no session, or one whose content is message `message` of chat `chat`.
pub open spec fn keeps_source_of(chat: Option<i64>, message: Option<i32>, t: StateView) -> bool {
    t.session() is Some ==> t.session().unwrap().source_chat_id == chat
        && t.session().unwrap().source_message_id == message
}

/// Once content is received, no update changes which content is posted: while
/// the conversation lasts, its session keeps the same source.
pub proof fn lemma_step_keeps_source(s: StateView, u: Update)
    requires
        s.session() is Some,
    ensures
        keeps_source_of(
            s.session().unwrap().source_chat_id,
            s.session().unwrap().source_message_id,
            next_state(s, u),
        ),
{
    let d0 = s.session().unwrap();
    let p = |t: StateView| keeps_source_of(d0.source_chat_id, d0.source_message_id, t);
    assert(p(s));
    match u {
        Update::Command(c, msg) => lemma_command_stores(c, msg, s, p),
        Update::Message(msg) => {},
        Update::Callback(cb) => match s {
            StateView::AwaitingEmoji(d) => {
                let d2 = if callback_data(cb) == "emoji_skip"@ {
                    SessionView { current_button_emoji: None, ..d }
                } else {
                    d
                };
                assert(stores_only(seq![EffectView::Answer { callback_id: cb.id@ }], p));
                assert(stores_only(finalize_effects(d2, cb.chat_id), p));
                lemma_stores_concat(
                    seq![EffectView::Answer { callback_id: cb.id@ }],
                    finalize_effects(d2, cb.chat_id),
                    p,
                );
            },
            _ => {},
        },
    }
    lemma_state_after_satisfies(step_effects(s, u), s, p);
}

/// The whole flow: content, a destination, a button's text, a valid URL, a
/// style and an emoji ID, then Publish: the content is copied to the chosen
/// destination with exactly that one button.
pub proof fn lemma_publish_flow(
    content: IncomingMessage,
    dest_msg: IncomingMessage,
    text_msg: IncomingMessage,
    url_msg: IncomingMessage,
    style_cb: IncomingCallback,
    emoji_msg: IncomingMessage,
    publish_cb: IncomingCallback,
)
    requires
        !(content.from is Some && content.sender_blocked),
        chosen_destination(dest_msg) is Some,
        text_msg.text is Some,
        url_msg.text is Some,
        valid_url(url_msg.text.unwrap()@),
        emoji_msg.text is Some,
        callback_data(publish_cb) == "action_publish"@,
    ensures
        ({
            let s1 = next_state(StateView::Idle, Update::Message(content));
            let s2 = next_state(s1, Update::Message(dest_msg));
            let s3 = next_state(s2, Update::Message(text_msg));
            let s4 = next_state(s3, Update::Message(url_msg));
            let s5 = next_state(s4, Update::Callback(style_cb));
            let s6 = next_state(s5, Update::Message(emoji_msg));
            let b = ButtonView {
                text: text_msg.text.unwrap()@,
                url: url_msg.text.unwrap()@,
                style: style_for_callback(callback_data(style_cb)),
                icon_custom_emoji_id: Some(emoji_msg.text.unwrap()@),
            };
            step_effects(s6, Update::Callback(publish_cb)) == seq![
                EffectView::Answer { callback_id: publish_cb.id@ },
                EffectView::Copy {
                    chat_id: chosen_destination(dest_msg).unwrap(),
                    from_chat_id: content.chat_id,
                    message_id: content.message_id,
                    markup: inline_keyboard(seq![b]),
                },
            ]
        }),
{
    let s0 = StateView::Idle;
    let tracking = track_effects(content.from, crate::analytics::EventType::ContentReceived);
    let e1 = step_effects(s0, Update::Message(content));
    lemma_state_after_last(e1, tracking.len() as int, s0);
    let d1 = crate::conversation::fresh_session(content.chat_id, content.message_id);
    let s1 = next_state(s0, Update::Message(content));
    assert(s1 == StateView::AwaitingDestination(d1));
    lemma_destination_chosen(d1, dest_msg);
    let d2 = SessionView { destination_chat_id: chosen_destination(dest_msg), ..d1 };
    let s2 = next_state(s1, Update::Message(dest_msg));
    assert(s2 == StateView::AwaitingButtonText(d2));
    lemma_configure_button(d2, text_msg, url_msg, style_cb, emoji_msg);
    let s3 = next_state(s2, Update::Message(text_msg));
    let s4 = next_state(s3, Update::Message(url_msg));
    let s5 = next_state(s4, Update::Callback(style_cb));
    let s6 = next_state(s5, Update::Message(emoji_msg));
    let b = ButtonView {
        text: text_msg.text.unwrap()@,
        url: url_msg.text.unwrap()@,
        style: style_for_callback(callback_data(style_cb)),
        icon_custom_emoji_id: Some(emoji_msg.text.unwrap()@),
    };
    let d6 = s6->AwaitingConfirm_0;
    assert(d6.buttons =~= seq![b]);
    lemma_publish_posts_configured_buttons(d6, publish_cb);
}

/// The Cancel button of the confirmation keyboard ends the conversation, as
/// /cancel does: the state goes back to Idle, so the next content starts a
/// new post, and the user is told.
pub proof fn lemma_confirm_cancel_returns_to_idle(d: SessionView, cb: IncomingCallback)
    requires
        callback_data(cb) == "action_cancel"@,
    ensures
        next_state(StateView::AwaitingConfirm(d), Update::Callback(cb)) == StateView::Idle,
        step_effects(StateView::AwaitingConfirm(d), Update::Callback(cb)).last() == crate::conversation::send(
            cb.chat_id,
            crate::conversation::ACTION_CANCELLED@,
            None,
            None,
        ),
{
    reveal_strlit("action_add");
    reveal_strlit("action_cancel");
    assert("action_add"@.len() == 10);
    assert("action_cancel"@.len() == 13);
    let e = step_effects(StateView::AwaitingConfirm(d), Update::Callback(cb));
    assert(e.len() == 3);
    lemma_state_after_last(e, 1, StateView::AwaitingConfirm(d));
}

/// `u` begins with `p`, letter case aside: each character of `p` is matched by
/// the same character or, for a lowercase ASCII letter, by its uppercase form.
pub open spec fn begins_with_any_case(u: Seq<char>, p: Seq<char>) -> bool {
    &&& p.len() <= u.len()
    &&& forall|i: int|
        0 <= i < p.len() ==> (#[trigger] u[i] as u32 == p[i] as u32 || (65 <= u[i] as u32 <= 90 && u[i] as u32
            + 32 == p[i] as u32))
}

/// A button URL is accepted exactly when it begins, in any letter case, with
/// `http://`, `https://` or `tg://`; anything else (such as `www.`) is refused.
pub proof fn lemma_valid_url_schemes(u: Seq<char>)
    ensures
        valid_url(u) <==> (begins_with_any_case(u, "http://"@) || begins_with_any_case(u, "https://"@)
            || begins_with_any_case(u, "tg://"@)),
{
    reveal_strlit("http://");
    reveal_strlit("https://");
    reveal_strlit("tg://");
    assert forall|p: Seq<char>, i: int|
        0 <= i < p.len() && i < u.len() && !(65 <= #[trigger] p[i] as u32 <= 90) implies (crate::text::lower_code(
            u[i],
        ) == p[i] as u32 <==> (u[i] as u32 == p[i] as u32 || (65 <= u[i] as u32 <= 90 && u[i] as u32 + 32
            == p[i] as u32))) by {}
}

/// The user ID of /block and /unblock: any `i64` written after the command,
/// the whole range included, is read back as itself.
pub proof fn lemma_target_id_reads_any_id(text: Seq<char>, n: i64)
    requires
        second_token(text) == Some(signed_decimal(n as int)),
    ensures
        target_id(text) == Some(n),
{
    lemma_parse_i64_signed_decimal(n);
}

/// The number of pages that /users shows for `total` users is the least number
/// of pages of ten that holds them all, and at least one.
pub proof fn lemma_page_count_fits(total: int)
    requires
        total >= 0,
    ensures
        page_count(total) >= 1,
        page_count(total) * 10 >= total,
        total > 0 ==> (page_count(total) - 1) * 10 < total,
        total == 0 ==> page_count(total) == 1,
{
}

/// The message of /broadcast keeps everything after the command, on every
/// line: it is a contiguous piece of that text with only whitespace around
/// it, and it neither starts nor ends with whitespace.
pub proof fn lemma_broadcast_keeps_whole_text(text: Seq<char>)
    requires
        starts_with(text, "/broadcast"@),
    ensures
        ({
            let rest = text.skip("/broadcast"@.len() as int);
            let m = broadcast_message(text);
            &&& exists|a: int, b: int|
                #![trigger rest.subrange(a, b)]
                0 <= a <= b <= rest.len() && m == rest.subrange(a, b)
                    && (forall|i: int| 0 <= i < a ==> is_whitespace(#[trigger] rest[i]))
                    && (forall|i: int| b <= i < rest.len() ==> is_whitespace(#[trigger] rest[i]))
            &&& m.len() > 0 ==> !is_whitespace(m[0]) && !is_whitespace(m.last())
        }),
{
    lemma_trim_is_core(text.skip("/broadcast"@.len() as int));
}

} // verus!
