//! Keyboards attached to the bot's messages, button styles, URL validation,
//! and how the Telegram API's answers are read.

use vstd::prelude::*;
use crate::json::{json_array, json_bool, json_int, json_object, json_str, member, opt_json, values_of, Json, JsonValue};
use crate::session::{button_json, buttons_view, ButtonConfig, ButtonView};
use crate::text::{chars_of, contains_chars, contains_seq, starts_with_ignore_case, starts_with_ignore_case_chars, str_eq};

verus! {

/// The text of the "Send to me" button for matching.
pub const SEND_TO_ME_TEXT: &'static str = "📨 Send back to me";

/// An inline button that answers with `data` when tapped.
pub open spec fn callback_button(text: Seq<char>, data: Seq<char>) -> JsonValue {
    JsonValue::Object(seq![("text"@, JsonValue::Str(text)), ("callback_data"@, JsonValue::Str(data))])
}

/// An object with the single member `key: value`.
pub open spec fn single(key: Seq<char>, value: JsonValue) -> JsonValue {
    JsonValue::Object(seq![(key, value)])
}

/// The inline keyboard for the given buttons: each button in a row of its own.
pub open spec fn inline_keyboard(buttons: Seq<ButtonView>) -> JsonValue {
    single(
        "inline_keyboard"@,
        JsonValue::Array(buttons.map_values(|b: ButtonView| JsonValue::Array(seq![button_json(b)]))),
    )
}

/// The style picker: Primary and Success, then Danger and Default.
pub open spec fn style_keyboard() -> JsonValue {
    single(
        "inline_keyboard"@,
        JsonValue::Array(
            seq![
                JsonValue::Array(seq![
                    callback_button("🔵 Primary"@, "style_primary"@),
                    callback_button("🟢 Success"@, "style_success"@),
                ]),
                JsonValue::Array(seq![
                    callback_button("🔴 Danger"@, "style_danger"@),
                    callback_button("⚪ Default"@, "style_default"@),
                ]),
            ],
        ),
    )
}

/// The emoji prompt's keyboard: a single Skip button.
pub open spec fn emoji_keyboard() -> JsonValue {
    single(
        "inline_keyboard"@,
        JsonValue::Array(seq![JsonValue::Array(seq![callback_button("⏭ Skip"@, "emoji_skip"@)])]),
    )
}

/// The confirmation keyboard: Publish and Add another, then Cancel.
pub open spec fn confirm_keyboard() -> JsonValue {
    single(
        "inline_keyboard"@,
        JsonValue::Array(
            seq![
                JsonValue::Array(seq![
                    callback_button("✅ Publish"@, "action_publish"@),
                    callback_button("➕ Add another button"@, "action_add"@),
                ]),
                JsonValue::Array(seq![callback_button("❌ Cancel"@, "action_cancel"@)]),
            ],
        ),
    )
}

/// A reply-keyboard button that opens the chat picker.
pub open spec fn chat_request_button(text: Seq<char>, request_id: int, channel: bool) -> JsonValue {
    JsonValue::Object(
        seq![
            ("text"@, JsonValue::Str(text)),
            ("request_chat"@, JsonValue::Object(
                seq![
                    ("request_id"@, JsonValue::Int(request_id)),
                    ("chat_is_channel"@, JsonValue::Bool(channel)),
                    ("bot_is_member"@, JsonValue::Bool(true)),
                ],
            )),
        ],
    )
}

/// The destination picker: a group picker and a channel picker, then "Send back to me".
pub open spec fn destination_keyboard() -> JsonValue {
    JsonValue::Object(
        seq![
            ("keyboard"@, JsonValue::Array(
                seq![
                    JsonValue::Array(seq![
                        chat_request_button("👥 Choose a group"@, 1, false),
                        chat_request_button("📢 Choose a channel"@, 2, true),
                    ]),
                    JsonValue::Array(seq![single("text"@, JsonValue::Str(SEND_TO_ME_TEXT@))]),
                ],
            )),
            ("resize_keyboard"@, JsonValue::Bool(true)),
            ("one_time_keyboard"@, JsonValue::Bool(true)),
        ],
    )
}

/// The markup that hides the reply keyboard.
pub open spec fn remove_keyboard() -> JsonValue {
    single("remove_keyboard"@, JsonValue::Bool(true))
}

fn single_exec(key: &str, value: Json) -> (j: Json)
    ensures
        j.value() == single(key@, value.value()),
{
    let mut members: Vec<(String, Json)> = Vec::new();
    members.push(member(key, value));
    let j = json_object(members);
    assert(j.value()->Object_0 =~= seq![(key@, value.value())]);
    j
}

fn row1(a: Json) -> (j: Json)
    ensures
        j.value() == JsonValue::Array(seq![a.value()]),
{
    let mut v: Vec<Json> = Vec::new();
    v.push(a);
    let ghost items = v@;
    let j = json_array(v);
    assert(values_of(items) =~= seq![a.value()]);
    j
}

fn row2(a: Json, b: Json) -> (j: Json)
    ensures
        j.value() == JsonValue::Array(seq![a.value(), b.value()]),
{
    let mut v: Vec<Json> = Vec::new();
    v.push(a);
    v.push(b);
    let ghost items = v@;
    let j = json_array(v);
    assert(values_of(items) =~= seq![a.value(), b.value()]);
    j
}

fn callback_button_exec(text: &str, data: &str) -> (j: Json)
    ensures
        j.value() == callback_button(text@, data@),
{
    let mut members: Vec<(String, Json)> = Vec::new();
    members.push(member("text", json_str(text)));
    members.push(member("callback_data", json_str(data)));
    let j = json_object(members);
    assert(j.value()->Object_0 =~= seq![("text"@, JsonValue::Str(text@)), ("callback_data"@, JsonValue::Str(data@))]);
    j
}

/// Build an InlineKeyboardMarkup JSON structure from a list of button configurations.
///
/// Each button gets its own row in the keyboard.
pub fn build_inline_keyboard(buttons: &Vec<ButtonConfig>) -> (j: Json)
    ensures
        j.value() == inline_keyboard(buttons_view(buttons@)),
{
    let ghost bv = buttons_view(buttons@);
    let ghost row = |b: ButtonView| JsonValue::Array(seq![button_json(b)]);
    let mut rows: Vec<Json> = Vec::new();
    let mut i: usize = 0;
    while i < buttons.len()
        invariant
            i <= buttons.len(),
            bv == buttons_view(buttons@),
            row == (|b: ButtonView| JsonValue::Array(seq![button_json(b)])),
            values_of(rows@) == bv.take(i as int).map_values(row),
        decreases buttons.len() - i,
    {
        let ghost before = rows@;
        rows.push(row1(buttons[i].to_json()));
        assert(values_of(rows@) =~= values_of(before).push(row(bv[i as int])));
        assert(bv.take(i + 1) =~= bv.take(i as int).push(bv[i as int]));
        assert(bv.take(i + 1).map_values(row) =~= bv.take(i as int).map_values(row).push(row(bv[i as int])));
        i = i + 1;
    }
    assert(bv.take(buttons.len() as int) =~= bv);
    single_exec("inline_keyboard", json_array(rows))
}

/// Build a style selection inline keyboard.
pub fn build_style_keyboard() -> (j: Json)
    ensures
        j.value() == style_keyboard(),
{
    let first = row2(
        callback_button_exec("🔵 Primary", "style_primary"),
        callback_button_exec("🟢 Success", "style_success"),
    );
    let second = row2(
        callback_button_exec("🔴 Danger", "style_danger"),
        callback_button_exec("⚪ Default", "style_default"),
    );
    single_exec("inline_keyboard", row2(first, second))
}

/// Build an emoji skip inline keyboard.
pub fn build_emoji_keyboard() -> (j: Json)
    ensures
        j.value() == emoji_keyboard(),
{
    single_exec("inline_keyboard", row1(row1(callback_button_exec("⏭ Skip", "emoji_skip"))))
}

/// Build a confirmation inline keyboard.
pub fn build_confirm_keyboard() -> (j: Json)
    ensures
        j.value() == confirm_keyboard(),
{
    let first = row2(
        callback_button_exec("✅ Publish", "action_publish"),
        callback_button_exec("➕ Add another button", "action_add"),
    );
    let second = row1(callback_button_exec("❌ Cancel", "action_cancel"));
    single_exec("inline_keyboard", row2(first, second))
}

fn chat_request_button_exec(text: &str, request_id: i64, channel: bool) -> (j: Json)
    ensures
        j.value() == chat_request_button(text@, request_id as int, channel),
{
    let mut request: Vec<(String, Json)> = Vec::new();
    request.push(member("request_id", json_int(request_id)));
    request.push(member("chat_is_channel", json_bool(channel)));
    request.push(member("bot_is_member", json_bool(true)));
    let ghost rm = request@;
    let request = json_object(request);
    let mut members: Vec<(String, Json)> = Vec::new();
    members.push(member("text", json_str(text)));
    members.push(member("request_chat", request));
    let ghost mm = members@;
    let j = json_object(members);
    proof {
        assert(crate::json::members_of(rm) =~= seq![
            ("request_id"@, JsonValue::Int(request_id as int)),
            ("chat_is_channel"@, JsonValue::Bool(channel)),
            ("bot_is_member"@, JsonValue::Bool(true)),
        ]);
        assert(crate::json::members_of(mm) =~= seq![
            ("text"@, JsonValue::Str(text@)),
            ("request_chat"@, JsonValue::Object(crate::json::members_of(rm))),
        ]);
    }
    j
}

/// Build a ReplyKeyboardMarkup with chat picker buttons and "Send to me" option.
///
/// Telegram API requires separate buttons for groups vs channels:
/// - chat_is_channel: false = groups/supergroups
/// - chat_is_channel: true = channels
pub fn build_destination_keyboard() -> (j: Json)
    ensures
        j.value() == destination_keyboard(),
{
    let pickers = row2(
        chat_request_button_exec("👥 Choose a group", 1, false),
        chat_request_button_exec("📢 Choose a channel", 2, true),
    );
    let send_to_me = row1(single_exec("text", json_str(SEND_TO_ME_TEXT)));
    let mut members: Vec<(String, Json)> = Vec::new();
    members.push(member("keyboard", row2(pickers, send_to_me)));
    members.push(member("resize_keyboard", json_bool(true)));
    members.push(member("one_time_keyboard", json_bool(true)));
    let ghost mm = members@;
    let j = json_object(members);
    assert(j.value()->Object_0 =~= destination_keyboard()->Object_0);
    j
}

/// Build a ReplyKeyboardRemove markup to hide the custom keyboard.
pub fn build_remove_keyboard() -> (j: Json)
    ensures
        j.value() == remove_keyboard(),
{
    single_exec("remove_keyboard", json_bool(true))
}


/// The characters of an optional string slice.
pub open spec fn opt_str_view(o: Option<&str>) -> Option<Seq<char>> {
    match o {
        Some(s) => Some(s@),
        None => None,
    }
}

/// The style that a style picker's callback data selects.
pub open spec fn style_for_callback(data: Seq<char>) -> Option<Seq<char>> {
    if data == "style_primary"@ {
        Some("primary"@)
    } else if data == "style_success"@ {
        Some("success"@)
    } else if data == "style_danger"@ {
        Some("danger"@)
    } else {
        None
    }
}

/// How a style is shown to the user.
pub open spec fn style_name(style: Option<Seq<char>>) -> Seq<char> {
    match style {
        Some(s) => if s == "primary"@ {
            "🔵 Primary"@
        } else if s == "success"@ {
            "🟢 Success"@
        } else if s == "danger"@ {
            "🔴 Danger"@
        } else {
            "⚪ Default"@
        },
        None => "⚪ Default"@,
    }
}

/// A button URL must start with `http://`, `https://` or `tg://`, in any case.
pub open spec fn valid_url(url: Seq<char>) -> bool {
    ||| starts_with_ignore_case(url, "http://"@)
    ||| starts_with_ignore_case(url, "https://"@)
    ||| starts_with_ignore_case(url, "tg://"@)
}

/// Map style callback data to the actual style value.
pub fn map_style_callback(callback_data: &str) -> (r: Option<String>)
    ensures
        crate::session::opt_view(r) == style_for_callback(callback_data@),
{
    if str_eq(callback_data, "style_primary") {
        Some(String::from_str("primary"))
    } else if str_eq(callback_data, "style_success") {
        Some(String::from_str("success"))
    } else if str_eq(callback_data, "style_danger") {
        Some(String::from_str("danger"))
    } else {
        None
    }
}

/// Get a human-readable style name.
pub fn style_display_name(style: Option<&str>) -> (r: &'static str)
    ensures
        r@ == style_name(opt_str_view(style)),
{
    match style {
        Some(s) => if str_eq(s, "primary") {
            "🔵 Primary"
        } else if str_eq(s, "success") {
            "🟢 Success"
        } else if str_eq(s, "danger") {
            "🔴 Danger"
        } else {
            "⚪ Default"
        },
        None => "⚪ Default",
    }
}

/// Validate a URL for button usage.
///
/// Returns true if the URL starts with http://, https://, or tg:// (in any case).
pub fn validate_url(url: &str) -> (b: bool)
    ensures
        b == valid_url(url@),
{
    let v = chars_of(url);
    starts_with_ignore_case_chars(&v, "http://") || starts_with_ignore_case_chars(&v, "https://")
        || starts_with_ignore_case_chars(&v, "tg://")
}

/// The members `key: value` for a present `value`, and none for an absent one.
pub open spec fn optional_value(key: Seq<char>, value: Option<JsonValue>) -> Seq<(Seq<char>, JsonValue)> {
    match value {
        Some(v) => seq![(key, v)],
        None => seq![],
    }
}

/// The text of an optional parse mode as a JSON string.
pub open spec fn opt_str_json(o: Option<&str>) -> Option<JsonValue> {
    match o {
        Some(s) => Some(JsonValue::Str(s@)),
        None => None,
    }
}

/// The body of a `copyMessage` request.
pub open spec fn copy_message_request(chat_id: i64, from_chat_id: i64, message_id: i32, markup: JsonValue) -> JsonValue {
    JsonValue::Object(
        seq![
            ("chat_id"@, JsonValue::Int(chat_id as int)),
            ("from_chat_id"@, JsonValue::Int(from_chat_id as int)),
            ("message_id"@, JsonValue::Int(message_id as int)),
            ("reply_markup"@, markup),
        ],
    )
}

/// The body of a `sendMessage` request: chat and text, then the markup and
/// the parse mode where they are given.
pub open spec fn send_message_request(
    chat_id: i64,
    text: Seq<char>,
    markup: Option<JsonValue>,
    parse_mode: Option<JsonValue>,
) -> JsonValue {
    JsonValue::Object(
        seq![("chat_id"@, JsonValue::Int(chat_id as int)), ("text"@, JsonValue::Str(text))]
            + optional_value("reply_markup"@, markup) + optional_value("parse_mode"@, parse_mode),
    )
}

/// The body of an `editMessageText` request: chat, message and text, then
/// the markup and the parse mode where they are given.
pub open spec fn edit_message_request(
    chat_id: i64,
    message_id: i32,
    text: Seq<char>,
    markup: Option<JsonValue>,
    parse_mode: Option<JsonValue>,
) -> JsonValue {
    JsonValue::Object(
        seq![
            ("chat_id"@, JsonValue::Int(chat_id as int)),
            ("message_id"@, JsonValue::Int(message_id as int)),
            ("text"@, JsonValue::Str(text)),
        ] + optional_value("reply_markup"@, markup) + optional_value("parse_mode"@, parse_mode),
    )
}

/// The body of an `answerCallbackQuery` request: the query, then the text
/// where one is given.
pub open spec fn answer_callback_request(callback_query_id: Seq<char>, text: Option<JsonValue>) -> JsonValue {
    JsonValue::Object(seq![("callback_query_id"@, JsonValue::Str(callback_query_id))] + optional_value("text"@, text))
}

/// Appends `key: value` to `members` where `value` is given.
fn push_optional(members: &mut Vec<(String, Json)>, key: &str, value: Option<Json>)
    ensures
        crate::json::members_of(final(members)@) == crate::json::members_of(old(members)@)
            + optional_value(key@, opt_json(value)),
{
    let ghost before = members@;
    match value {
        Some(v) => {
            members.push(member(key, v));
        },
        None => {},
    }
    assert(crate::json::members_of(members@) =~= crate::json::members_of(before) + optional_value(
        key@,
        opt_json(value),
    ));
}

fn opt_json_str(o: Option<&str>) -> (r: Option<Json>)
    ensures
        opt_json(r) == opt_str_json(o),
{
    match o {
        Some(s) => Some(json_str(s)),
        None => None,
    }
}

/// The body of a `copyMessage` request that copies message `message_id` of
/// `from_chat_id` to `chat_id` with `reply_markup`.
pub fn copy_message_body(chat_id: i64, from_chat_id: i64, message_id: i32, reply_markup: Json) -> (j: Json)
    ensures
        j.value() == copy_message_request(chat_id, from_chat_id, message_id, reply_markup.value()),
{
    let ghost markup = reply_markup.value();
    let mut members: Vec<(String, Json)> = Vec::new();
    members.push(member("chat_id", json_int(chat_id)));
    members.push(member("from_chat_id", json_int(from_chat_id)));
    members.push(member("message_id", json_int(message_id as i64)));
    members.push(member("reply_markup", reply_markup));
    let ghost mm = members@;
    let j = json_object(members);
    assert(crate::json::members_of(mm) =~= copy_message_request(chat_id, from_chat_id, message_id, markup)->Object_0);
    j
}

/// The body of a `sendMessage` request.
pub fn send_message_body(chat_id: i64, text: &str, reply_markup: Option<Json>, parse_mode: Option<&str>) -> (j: Json)
    ensures
        j.value() == send_message_request(chat_id, text@, opt_json(reply_markup), opt_str_json(parse_mode)),
{
    let mut members: Vec<(String, Json)> = Vec::new();
    members.push(member("chat_id", json_int(chat_id)));
    members.push(member("text", json_str(text)));
    let ghost base = members@;
    assert(crate::json::members_of(base) =~= seq![("chat_id"@, JsonValue::Int(chat_id as int)), ("text"@, JsonValue::Str(text@))]);
    push_optional(&mut members, "reply_markup", reply_markup);
    push_optional(&mut members, "parse_mode", opt_json_str(parse_mode));
    json_object(members)
}

/// The body of an `editMessageText` request.
pub fn edit_message_body(
    chat_id: i64,
    message_id: i32,
    text: &str,
    reply_markup: Option<Json>,
    parse_mode: Option<&str>,
) -> (j: Json)
    ensures
        j.value() == edit_message_request(
            chat_id,
            message_id,
            text@,
            opt_json(reply_markup),
            opt_str_json(parse_mode),
        ),
{
    let mut members: Vec<(String, Json)> = Vec::new();
    members.push(member("chat_id", json_int(chat_id)));
    members.push(member("message_id", json_int(message_id as i64)));
    members.push(member("text", json_str(text)));
    let ghost base = members@;
    assert(crate::json::members_of(base) =~= seq![
        ("chat_id"@, JsonValue::Int(chat_id as int)),
        ("message_id"@, JsonValue::Int(message_id as int)),
        ("text"@, JsonValue::Str(text@)),
    ]);
    push_optional(&mut members, "reply_markup", reply_markup);
    push_optional(&mut members, "parse_mode", opt_json_str(parse_mode));
    json_object(members)
}

/// The body of an `answerCallbackQuery` request.
pub fn answer_callback_body(callback_query_id: &str, text: Option<&str>) -> (j: Json)
    ensures
        j.value() == answer_callback_request(callback_query_id@, opt_str_json(text)),
{
    let mut members: Vec<(String, Json)> = Vec::new();
    members.push(member("callback_query_id", json_str(callback_query_id)));
    let ghost base = members@;
    assert(crate::json::members_of(base) =~= seq![("callback_query_id"@, JsonValue::Str(callback_query_id@))]);
    push_optional(&mut members, "text", opt_json_str(text));
    json_object(members)
}

/// The description of a failed API call, or "Unknown error" where there is none.
pub open spec fn description_or_default(d: Option<Seq<char>>) -> Seq<char> {
    match d {
        Some(x) => x,
        None => "Unknown error"@,
    }
}

/// The error reported for a failed API call with description `d`.
pub open spec fn api_error_text(d: Seq<char>) -> Seq<char> {
    "Telegram API error: "@ + d
}

/// The error reported for a failed `copyMessage`: common failures get an
/// explanation the user can act on.
pub open spec fn copy_error_text(d: Seq<char>) -> Seq<char> {
    if contains_seq(d, "not enough rights"@) || contains_seq(d, "CHAT_ADMIN_REQUIRED"@)
        || contains_seq(d, "need administrator rights"@) || contains_seq(d, "have no rights"@) {
        "I couldn't post to that chat. Make sure I'm an admin with permission to post messages."@
    } else if contains_seq(d, "chat not found"@) || contains_seq(d, "CHAT_NOT_FOUND"@) {
        "The chat was not found. It may have been deleted or I was removed."@
    } else if contains_seq(d, "bot was kicked"@) || contains_seq(d, "bot is not a member"@) {
        "I'm not a member of that chat. Please add me first."@
    } else if contains_seq(d, "message to copy not found"@) {
        "The original message was deleted. Please send new content."@
    } else {
        api_error_text(d)
    }
}

fn description_text(description: Option<&str>) -> (r: Vec<char>)
    ensures
        r@ == description_or_default(opt_str_view(description)),
{
    match description {
        Some(d) => chars_of(d),
        None => chars_of("Unknown error"),
    }
}

fn api_error_string(d: &Vec<char>) -> (r: String)
    ensures
        r@ == api_error_text(d@),
{
    let mut r = String::from_str("Telegram API error: ");
    let tail = crate::text::string_from_chars(d, 0, d.len());
    assert(d@.subrange(0, d.len() as int) =~= d@);
    r.append(tail.as_str());
    r
}

/// Reads the answer to `copyMessage`: `ok` and `description` are the fields
/// of the same names in the API's reply.
pub fn copy_message_outcome(ok: Option<bool>, description: Option<&str>) -> (r: Result<(), String>)
    ensures
        ok == Some(true) ==> r is Ok,
        ok != Some(true) ==> (r matches Err(e) && e@ == copy_error_text(
            description_or_default(opt_str_view(description)),
        )),
{
    if ok == Some(true) {
        return Ok(());
    }
    let d = description_text(description);
    if contains_chars(&d, "not enough rights") || contains_chars(&d, "CHAT_ADMIN_REQUIRED")
        || contains_chars(&d, "need administrator rights") || contains_chars(&d, "have no rights") {
        Err(String::from_str("I couldn't post to that chat. Make sure I'm an admin with permission to post messages."))
    } else if contains_chars(&d, "chat not found") || contains_chars(&d, "CHAT_NOT_FOUND") {
        Err(String::from_str("The chat was not found. It may have been deleted or I was removed."))
    } else if contains_chars(&d, "bot was kicked") || contains_chars(&d, "bot is not a member") {
        Err(String::from_str("I'm not a member of that chat. Please add me first."))
    } else if contains_chars(&d, "message to copy not found") {
        Err(String::from_str("The original message was deleted. Please send new content."))
    } else {
        Err(api_error_string(&d))
    }
}

/// Reads the answer to `sendMessage`.
pub fn send_message_outcome(ok: Option<bool>, description: Option<&str>) -> (r: Result<(), String>)
    ensures
        ok == Some(true) ==> r is Ok,
        ok != Some(true) ==> (r matches Err(e) && e@ == api_error_text(
            description_or_default(opt_str_view(description)),
        )),
{
    if ok == Some(true) {
        return Ok(());
    }
    let d = description_text(description);
    Err(api_error_string(&d))
}

/// Reads the answer to `editMessageText`: "message is not modified" is no failure.
pub fn edit_message_outcome(ok: Option<bool>, description: Option<&str>) -> (r: Result<(), String>)
    ensures
        ({
            let d = description_or_default(opt_str_view(description));
            if ok == Some(true) || contains_seq(d, "message is not modified"@) {
                r is Ok
            } else {
                r matches Err(e) && e@ == api_error_text(d)
            }
        }),
{
    if ok == Some(true) {
        return Ok(());
    }
    let d = description_text(description);
    if contains_chars(&d, "message is not modified") {
        Ok(())
    } else {
        Err(api_error_string(&d))
    }
}

} // verus!
