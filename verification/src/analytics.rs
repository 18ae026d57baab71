//! Analytics records: event types and the statistics shown to admins.

use vstd::prelude::*;

verus! {

/// Event types for analytics tracking.
#[derive(Debug, Clone, Copy, PartialEq, Eq)]
pub enum EventType {
    /// User started the bot
    Start,
    /// User sent content to attach buttons
    ContentReceived,
    /// User selected a destination
    DestinationSelected,
    /// User configured a button
    ButtonConfigured,
    /// User published content
    Published,
    /// User cancelled an operation
    Cancelled,
    /// User requested help
    Help,
}

impl EventType {
    /// The name under which the event is stored.
    pub open spec fn event_name(self) -> Seq<char> {
        match self {
            EventType::Start => "start"@,
            EventType::ContentReceived => "content_received"@,
            EventType::DestinationSelected => "destination_selected"@,
            EventType::ButtonConfigured => "button_configured"@,
            EventType::Published => "published"@,
            EventType::Cancelled => "cancelled"@,
            EventType::Help => "help"@,
        }
    }

    /// The name under which the event is stored.
    pub fn as_str(&self) -> (r: &'static str)
        ensures
            r@ == self.event_name(),
    {
        match self {
            EventType::Start => "start",
            EventType::ContentReceived => "content_received",
            EventType::DestinationSelected => "destination_selected",
            EventType::ButtonConfigured => "button_configured",
            EventType::Published => "published",
            EventType::Cancelled => "cancelled",
            EventType::Help => "help",
        }
    }
}

/// User statistics for admin reporting.
#[derive(Clone, Debug)]
pub struct UserStats {
    pub user_id: i64,
    pub username: Option<String>,
    pub first_name: Option<String>,
    pub last_seen_at: String,
    pub total_messages: i64,
    pub total_publications: i64,
}

/// Overall bot statistics.
#[derive(Clone, Debug)]
pub struct BotStats {
    pub total_users: i64,
    pub active_users_24h: i64,
    pub active_users_7d: i64,
    pub active_users_30d: i64,
    pub total_publications: i64,
    pub publications_24h: i64,
    pub publications_7d: i64,
    pub total_buttons_configured: i64,
    pub most_popular_style: Option<String>,
    pub top_destination_chats: Vec<(i64, String, i64)>,
}

} // verus!
