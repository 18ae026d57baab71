use button_attach_bot::admin::{
    authorize, broadcast_opening, broadcast_text, format_stats, handle_block, handle_stats,
    handle_unblock, handle_users, page_offset, parse_page, parse_target_id, BroadcastProgress,
    NOT_AUTHORIZED,
};
use button_attach_bot::analytics::{BotStats, EventType, UserStats};
use button_attach_bot::config::Config;
use button_attach_bot::conversation::{Effect, ParseMode};

fn text_of(e: &Effect) -> String {
    match e {
        Effect::SendMessage { text, .. } => text.clone(),
        _ => panic!("expected a message"),
    }
}

fn stats() -> BotStats {
    BotStats {
        total_users: 12,
        active_users_24h: 3,
        active_users_7d: 5,
        active_users_30d: 9,
        total_publications: 40,
        publications_24h: 2,
        publications_7d: 7,
        total_buttons_configured: 55,
        most_popular_style: None,
        top_destination_chats: vec![
            (1, "News".to_string(), 20),
            (2, "Unknown".to_string(), 10),
            (3, "Shop".to_string(), 5),
            (4, "Other".to_string(), 1),
        ],
    }
}

fn user(id: i64, seen: &str) -> UserStats {
    UserStats {
        user_id: id,
        username: Some("u".to_string()),
        first_name: None,
        last_seen_at: seen.to_string(),
        total_messages: 4,
        total_publications: -1,
    }
}

#[test]
fn test_authorize() {
    let c = Config::from_values(Some("t".to_string()), None, Some("7".to_string())).unwrap();
    assert!(authorize(1, 7, &c).is_none());
    assert_eq!(text_of(&authorize(1, 8, &c).unwrap()), NOT_AUTHORIZED);
}

#[test]
fn test_stats_message() {
    let text = format_stats(&stats());
    assert_eq!(
        text,
        "<b>Bot Statistics</b>\n\n<b>Users</b>\nTotal: 12\nActive (24h): 3\nActive (7d): 5\nActive (30d): 9\n\n<b>Publications</b>\nTotal: 40\nLast 24h: 2\nLast 7d: 7\n\n<b>Buttons</b>\nTotal configured: 55\nMost popular style: default\n\n<b>Top Destination Chats</b>\n  News (20 posts)\n  Unknown (10 posts)\n  Shop (5 posts)"
    );
    let mut s = stats();
    s.top_destination_chats.clear();
    s.most_popular_style = Some("primary".to_string());
    s.total_users = -3;
    let text = format_stats(&s);
    assert!(text.ends_with("Most popular style: primary\n\n<b>Top Destination Chats</b>\nNone yet"));
    assert!(text.contains("Total: -3\n"));
    match handle_stats(1, Some(stats())) {
        Effect::SendMessage { parse_mode, .. } => assert_eq!(parse_mode, Some(ParseMode::Html)),
        _ => panic!(),
    }
    assert_eq!(text_of(&handle_stats(1, None)), "Failed to retrieve statistics.");
}

#[test]
fn test_pages() {
    assert_eq!(parse_page("/users"), 1);
    assert_eq!(parse_page("/users 3"), 3);
    assert_eq!(parse_page("/users   0"), 1);
    assert_eq!(parse_page("/users x"), 1);
    assert_eq!(parse_page("/users +4 more"), 4);
    assert_eq!(parse_page("/users -2"), 1);
    assert_eq!(page_offset(1), 0);
    assert_eq!(page_offset(3), 20);
}

#[test]
fn test_users_page() {
    let users = vec![user(42, "2024-05-01 10:20:30"), user(-5, "2024-05-02 11:00:59")];
    let text = text_of(&handle_users(1, 1, Some(users), 25));
    assert_eq!(
        text,
        "<b>Users (Page 1/3)</b>\n\n<code>42</code> Unknown (@u)\n  Messages: 4 | Publications: -1\n  Last seen: 2024-05-01 10:20\n\n<code>-5</code> Unknown (@u)\n  Messages: 4 | Publications: -1\n  Last seen: 2024-05-02 11:00\n\n\nUse <code>/users 2</code> for next page"
    );
    let mut last = user(9, "2024-05-01 10:20:30");
    last.username = None;
    last.first_name = Some("Zoe".to_string());
    let text = text_of(&handle_users(1, 1, Some(vec![last]), 0));
    assert_eq!(
        text,
        "<b>Users (Page 1/1)</b>\n\n<code>9</code> Zoe (no username)\n  Messages: 4 | Publications: -1\n  Last seen: 2024-05-01 10:20\n\n"
    );
    assert_eq!(text_of(&handle_users(1, 4, Some(vec![]), 25)), "No users found.");
    assert_eq!(text_of(&handle_users(1, 1, None, 25)), "Failed to retrieve users.");
}

#[test]
fn test_block_and_unblock() {
    assert_eq!(parse_target_id("/block 12345"), Some(12345));
    assert_eq!(parse_target_id("/block"), None);
    assert_eq!(parse_target_id("/block abc"), None);
    assert_eq!(parse_target_id("/unblock  -77 extra"), Some(-77));
    assert_eq!(text_of(&handle_block(1, Some((12345, true)))), "User 12345 has been blocked.");
    assert_eq!(text_of(&handle_block(1, Some((12345, false)))), "Failed to block user.");
    assert_eq!(text_of(&handle_block(1, None)), "Usage: /block <user_id>");
    assert_eq!(text_of(&handle_unblock(1, Some((-77, true)))), "User -77 has been unblocked.");
    assert_eq!(text_of(&handle_unblock(1, Some((3, false)))), "Failed to unblock user.");
    assert_eq!(text_of(&handle_unblock(1, None)), "Usage: /unblock <user_id>");
}

#[test]
fn test_broadcast() {
    assert_eq!(broadcast_text("/broadcast   Hello all  "), "Hello all");
    assert_eq!(broadcast_text("/broadcast"), "");
    assert_eq!(broadcast_text("hello"), "");
    assert_eq!(broadcast_text("/broadcast@bot hi"), "@bot hi");
    let (e, go) = broadcast_opening(1, &String::new());
    assert!(!go);
    assert_eq!(text_of(&e), "Usage: /broadcast <message>\n\nThis will send the message to all users.");
    let (e, go) = broadcast_opening(1, &"hi".to_string());
    assert!(go);
    assert_eq!(text_of(&e), "Starting broadcast...");

    let mut p = BroadcastProgress::new();
    assert!(BroadcastProgress::continues(Some(2)));
    assert!(!BroadcastProgress::continues(Some(0)));
    assert!(!BroadcastProgress::continues(None));
    p.record(true);
    p.record(false);
    p.record(true);
    p.advance();
    assert_eq!(p.offset, 50);
    assert_eq!(text_of(&p.summary(1)), "Broadcast complete!\nSent: 2\nFailed: 1");
}

#[test]
fn test_event_names() {
    assert_eq!(EventType::Start.as_str(), "start");
    assert_eq!(EventType::ContentReceived.as_str(), "content_received");
    assert_eq!(EventType::DestinationSelected.as_str(), "destination_selected");
    assert_eq!(EventType::ButtonConfigured.as_str(), "button_configured");
    assert_eq!(EventType::Published.as_str(), "published");
    assert_eq!(EventType::Cancelled.as_str(), "cancelled");
    assert_eq!(EventType::Help.as_str(), "help");
}

#[test]
fn test_broadcast_batch_counts_every_user() {
    let mut p = BroadcastProgress::new();
    p.record(true);
    p.record_batch(&vec![true, false, true, true, false]);
    assert_eq!((p.sent, p.failed, p.offset), (4, 2, 0));
    p.record_batch(&vec![]);
    assert_eq!((p.sent, p.failed), (4, 2));
    p.advance();
    p.record_batch(&vec![false]);
    assert_eq!((p.sent, p.failed, p.offset), (4, 3, 50));
}

#[test]
fn test_batch_messages_one_per_user() {
    let users = vec![user(42, "2024-05-01 10:20:00"), user(-5, "2024-05-02 11:00:00")];
    let effects = button_attach_bot::admin::batch_messages(&users, &"Hello all".to_string());
    assert_eq!(effects.len(), 2);
    for (effect, id) in effects.iter().zip([42i64, -5]) {
        match effect {
            Effect::SendMessage { chat_id, text, parse_mode, markup } => {
                assert_eq!(*chat_id, id);
                assert_eq!(text, "Hello all");
                assert!(parse_mode.is_none() && markup.is_none());
            }
            other => panic!("expected a message, got {:?}", other),
        }
    }
    assert!(button_attach_bot::admin::batch_messages(&vec![], &"x".to_string()).is_empty());
}
