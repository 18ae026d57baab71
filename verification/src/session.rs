//! Session data carried through the conversation: the buttons configured so far
//! and the one being configured.

use vstd::prelude::*;
use crate::json::{json_object, json_string, member, members_of, Json, JsonValue};

verus! {

/// Configuration of one inline URL button.
#[derive(Debug, PartialEq)]
pub struct ButtonConfig {
    /// The label text displayed on the button.
    pub text: String,
    /// The URL the button links to.
    pub url: String,
    /// Optional button style: "primary", "success", "danger", or None for default.
    pub style: Option<String>,
    /// Optional custom emoji ID to display as an icon on the button.
    pub icon_custom_emoji_id: Option<String>,
}

/// The characters of an optional string.
pub open spec fn opt_view(o: Option<String>) -> Option<Seq<char>> {
    match o {
        Some(s) => Some(s@),
        None => None,
    }
}

/// The value of a [`ButtonConfig`]: its strings as character sequences.
pub ghost struct ButtonView {
    pub text: Seq<char>,
    pub url: Seq<char>,
    pub style: Option<Seq<char>>,
    pub icon_custom_emoji_id: Option<Seq<char>>,
}

impl View for ButtonConfig {
    type V = ButtonView;

    open spec fn view(&self) -> ButtonView {
        ButtonView {
            text: self.text@,
            url: self.url@,
            style: opt_view(self.style),
            icon_custom_emoji_id: opt_view(self.icon_custom_emoji_id),
        }
    }
}

/// The values of a sequence of buttons.
pub open spec fn buttons_view(s: Seq<ButtonConfig>) -> Seq<ButtonView> {
    s.map_values(|b: ButtonConfig| b@)
}

/// The members `key: s` for a present `s`, and none for an absent one.
pub open spec fn optional_member(key: Seq<char>, o: Option<Seq<char>>) -> Seq<(Seq<char>, JsonValue)> {
    match o {
        Some(s) => seq![(key, JsonValue::Str(s))],
        None => seq![],
    }
}

/// The JSON object that the Telegram API takes for a button: `text` and `url`,
/// then `style` and `icon_custom_emoji_id` where they are set.
pub open spec fn button_json(b: ButtonView) -> JsonValue {
    JsonValue::Object(
        seq![("text"@, JsonValue::Str(b.text)), ("url"@, JsonValue::Str(b.url))]
            + optional_member("style"@, b.style)
            + optional_member("icon_custom_emoji_id"@, b.icon_custom_emoji_id),
    )
}

/// A copy of an optional string.
pub fn clone_opt_string(o: &Option<String>) -> (r: Option<String>)
    ensures
        r == *o,
{
    match o {
        Some(s) => Some(s.clone()),
        None => None,
    }
}

impl Clone for ButtonConfig {
    fn clone(&self) -> (r: Self)
        ensures
            r == *self,
    {
        ButtonConfig {
            text: self.text.clone(),
            url: self.url.clone(),
            style: clone_opt_string(&self.style),
            icon_custom_emoji_id: clone_opt_string(&self.icon_custom_emoji_id),
        }
    }
}

impl ButtonConfig {
    /// Create a new ButtonConfig with the given parameters.
    pub fn new(
        text: String,
        url: String,
        style: Option<String>,
        icon_custom_emoji_id: Option<String>,
    ) -> (b: Self)
        ensures
            b == (ButtonConfig { text, url, style, icon_custom_emoji_id }),
    {
        ButtonConfig { text, url, style, icon_custom_emoji_id }
    }

    /// Convert this button config to a JSON value for the Telegram API.
    pub fn to_json(&self) -> (j: Json)
        ensures
            j.value() == button_json(self@),
    {
        let mut members: Vec<(String, Json)> = Vec::new();
        members.push(member("text", json_string(self.text.clone())));
        members.push(member("url", json_string(self.url.clone())));
        let ghost base = members@;
        match &self.style {
            Some(style) => {
                members.push(member("style", json_string(style.clone())));
            },
            None => {},
        }
        let ghost with_style = members@;
        match &self.icon_custom_emoji_id {
            Some(emoji) => {
                members.push(member("icon_custom_emoji_id", json_string(emoji.clone())));
            },
            None => {},
        }
        proof {
            assert(members_of(base) =~= seq![("text"@, JsonValue::Str(self.text@)), ("url"@, JsonValue::Str(self.url@))]);
            assert(members_of(with_style) =~= members_of(base) + optional_member("style"@, opt_view(self.style)));
            assert(members_of(members@) =~= members_of(with_style) + optional_member(
                "icon_custom_emoji_id"@,
                opt_view(self.icon_custom_emoji_id),
            ));
        }
        json_object(members)
    }
}

/// Session data persisted across conversation states.
#[derive(Clone, Debug, PartialEq)]
pub struct SessionData {
    /// The chat ID where the original content was sent from.
    pub source_chat_id: Option<i64>,
    /// The message ID of the original content.
    pub source_message_id: Option<i32>,
    /// The destination chat ID where content will be posted.
    pub destination_chat_id: Option<i64>,
    /// List of configured buttons to attach.
    pub buttons: Vec<ButtonConfig>,
    /// Currently being configured: button text.
    pub current_button_text: Option<String>,
    /// Currently being configured: button URL.
    pub current_button_url: Option<String>,
    /// Currently being configured: button style.
    pub current_button_style: Option<String>,
    /// Currently being configured: button emoji ID.
    pub current_button_emoji: Option<String>,
}

/// The value of a [`SessionData`].
pub ghost struct SessionView {
    pub source_chat_id: Option<i64>,
    pub source_message_id: Option<i32>,
    pub destination_chat_id: Option<i64>,
    pub buttons: Seq<ButtonView>,
    pub current_button_text: Option<Seq<char>>,
    pub current_button_url: Option<Seq<char>>,
    pub current_button_style: Option<Seq<char>>,
    pub current_button_emoji: Option<Seq<char>>,
}

impl View for SessionData {
    type V = SessionView;

    open spec fn view(&self) -> SessionView {
        SessionView {
            source_chat_id: self.source_chat_id,
            source_message_id: self.source_message_id,
            destination_chat_id: self.destination_chat_id,
            buttons: buttons_view(self.buttons@),
            current_button_text: opt_view(self.current_button_text),
            current_button_url: opt_view(self.current_button_url),
            current_button_style: opt_view(self.current_button_style),
            current_button_emoji: opt_view(self.current_button_emoji),
        }
    }
}

impl SessionData {
    /// The session holds nothing: no source, destination, buttons or current button.
    pub open spec fn is_empty_session(self) -> bool {
        &&& self.source_chat_id is None
        &&& self.source_message_id is None
        &&& self.destination_chat_id is None
        &&& self.buttons@.len() == 0
        &&& self.current_button_text is None
        &&& self.current_button_url is None
        &&& self.current_button_style is None
        &&& self.current_button_emoji is None
    }

    /// No field of the button being configured is set.
    pub open spec fn current_button_cleared(self) -> bool {
        &&& self.current_button_text is None
        &&& self.current_button_url is None
        &&& self.current_button_style is None
        &&& self.current_button_emoji is None
    }

    /// `self` and `other` agree on source, destination and configured buttons.
    pub open spec fn same_post(self, other: SessionData) -> bool {
        &&& self.source_chat_id == other.source_chat_id
        &&& self.source_message_id == other.source_message_id
        &&& self.destination_chat_id == other.destination_chat_id
        &&& self.buttons@ == other.buttons@
    }

    /// Create a new empty session.
    pub fn new() -> (s: Self)
        ensures
            s.is_empty_session(),
    {
        Self::default()
    }

    /// Reset all session data.
    pub fn clear(&mut self)
        ensures
            final(self).is_empty_session(),
    {
        *self = Self::default();
    }

    /// Clear only the current button configuration fields.
    pub fn clear_current_button(&mut self)
        ensures
            final(self).current_button_cleared(),
            final(self).same_post(*old(self)),
    {
        self.current_button_text = None;
        self.current_button_url = None;
        self.current_button_style = None;
        self.current_button_emoji = None;
    }

    /// Finalize the current button configuration and add it to the buttons list.
    ///
    /// The text and URL of the current button are taken in any case; style and
    /// emoji are taken only when both text and URL were set.
    pub fn finalize_current_button(&mut self) -> (r: Option<ButtonConfig>)
        ensures
            match (old(self).current_button_text, old(self).current_button_url) {
                (Some(text), Some(url)) => {
                    let b = ButtonConfig {
                        text,
                        url,
                        style: old(self).current_button_style,
                        icon_custom_emoji_id: old(self).current_button_emoji,
                    };
                    &&& r == Some(b)
                    &&& final(self).buttons@ == old(self).buttons@.push(b)
                    &&& final(self).current_button_cleared()
                },
                _ => {
                    &&& r is None
                    &&& final(self).buttons@ == old(self).buttons@
                    &&& final(self).current_button_text is None
                    &&& final(self).current_button_url is None
                    &&& final(self).current_button_style == old(self).current_button_style
                    &&& final(self).current_button_emoji == old(self).current_button_emoji
                },
            },
            final(self).source_chat_id == old(self).source_chat_id,
            final(self).source_message_id == old(self).source_message_id,
            final(self).destination_chat_id == old(self).destination_chat_id,
    {
        let text = self.current_button_text.take();
        let url = self.current_button_url.take();
        match (text, url) {
            (Some(text), Some(url)) => {
                let button = ButtonConfig::new(
                    text,
                    url,
                    self.current_button_style.take(),
                    self.current_button_emoji.take(),
                );
                self.buttons.push(button.clone());
                Some(button)
            },
            _ => None,
        }
    }

    /// Get the number of configured buttons.
    pub fn button_count(&self) -> (n: usize)
        ensures
            n == self.buttons@.len(),
    {
        self.buttons.len()
    }
}

impl Default for SessionData {
    fn default() -> (s: Self)
        ensures
            s.is_empty_session(),
    {
        SessionData {
            source_chat_id: None,
            source_message_id: None,
            destination_chat_id: None,
            buttons: Vec::new(),
            current_button_text: None,
            current_button_url: None,
            current_button_style: None,
            current_button_emoji: None,
        }
    }
}

} // verus!
