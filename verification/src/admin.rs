//! Admin commands: who may use them, what they read from the command text,
//! and the replies they send.

use vstd::prelude::*;
use vstd::utf8::{decode_utf8, encode_utf8, is_char_boundary};
use crate::analytics::{BotStats, UserStats};
use crate::config::{is_admin, Config};
use crate::conversation::{effects_view, join_lines, send, Effect, EffectView, ParseMode};
use crate::text::{
    chars_of, decimal, parse_i64, parse_i64_range, parse_usize, parse_usize_range,
    push_decimal, push_signed_decimal, second_token, second_token_bounds, signed_decimal,
    starts_with, starts_with_chars, string_from_chars, trim, trim_bounds,
};

verus! {

/// Reply to an admin command from a user who is no admin.
pub const NOT_AUTHORIZED: &'static str = "You are not authorized to use admin commands.";
/// Users listed per page of /users.
pub const USERS_PER_PAGE: usize = 10;
/// Users read per batch of a broadcast.
pub const BROADCAST_BATCH: usize = 50;

fn send_text(chat_id: i64, text: String, parse_mode: Option<ParseMode>) -> (e: Effect)
    ensures
        e@ == send(chat_id, text@, parse_mode, None),
{
    Effect::SendMessage { chat_id, text, parse_mode, markup: None }
}

fn send_str(chat_id: i64, text: &str) -> (e: Effect)
    ensures
        e@ == send(chat_id, text@, None, None),
{
    send_text(chat_id, String::from_str(text), None)
}

/// Check that `user_id` may use admin commands: `None` where the user is an
/// admin, else the reply that refuses the command.
pub fn authorize(chat_id: i64, user_id: i64, config: &Config) -> (r: Option<Effect>)
    ensures
        r is None <==> config.admin_user_ids@.contains(user_id),
        r matches Some(e) ==> e@ == send(chat_id, NOT_AUTHORIZED@, None, None),
{
    if is_admin(user_id, config) {
        None
    } else {
        Some(send_str(chat_id, NOT_AUTHORIZED))
    }
}

/// A destination chat as listed in the statistics.
pub open spec fn chat_line(c: (i64, String, i64)) -> Seq<char> {
    "  "@ + c.1@ + " ("@ + signed_decimal(c.2 as int) + " posts)"@
}

/// The top destination chats as listed: up to the first three, or "None yet".
pub open spec fn top_chats_text(chats: Seq<(i64, String, i64)>) -> Seq<char> {
    if chats.len() == 0 {
        "None yet"@
    } else {
        let n = if chats.len() < 3 {
            chats.len()
        } else {
            3
        };
        join_lines(chats.take(n as int).map_values(|c: (i64, String, i64)| chat_line(c)))
    }
}

/// The statistics message.
pub open spec fn stats_message(s: BotStats) -> Seq<char> {
    "<b>Bot Statistics</b>\n\n<b>Users</b>\nTotal: "@ + signed_decimal(s.total_users as int)
        + "\nActive (24h): "@ + signed_decimal(s.active_users_24h as int)
        + "\nActive (7d): "@ + signed_decimal(s.active_users_7d as int)
        + "\nActive (30d): "@ + signed_decimal(s.active_users_30d as int)
        + "\n\n<b>Publications</b>\nTotal: "@ + signed_decimal(s.total_publications as int)
        + "\nLast 24h: "@ + signed_decimal(s.publications_24h as int)
        + "\nLast 7d: "@ + signed_decimal(s.publications_7d as int)
        + "\n\n<b>Buttons</b>\nTotal configured: "@ + signed_decimal(s.total_buttons_configured as int)
        + "\nMost popular style: "@ + match s.most_popular_style {
        Some(x) => x@,
        None => "default"@,
    } + "\n\n<b>Top Destination Chats</b>\n"@ + top_chats_text(s.top_destination_chats@)
}

fn top_chats_string(chats: &Vec<(i64, String, i64)>) -> (s: String)
    ensures
        s@ == top_chats_text(chats@),
{
    if chats.len() == 0 {
        return String::from_str("None yet");
    }
    let n: usize = if chats.len() < 3 {
        chats.len()
    } else {
        3
    };
    let ghost lines = chats@.take(n as int).map_values(|c: (i64, String, i64)| chat_line(c));
    let mut s = String::new();
    let mut i: usize = 0;
    while i < n
        invariant
            i <= n <= chats.len(),
            n == (if chats.len() < 3 { chats.len() } else { 3 }),
            lines == chats@.take(n as int).map_values(|c: (i64, String, i64)| chat_line(c)),
            s@ == join_lines(lines.take(i as int)),
        decreases n - i,
    {
        let ghost before = s@;
        if i > 0 {
            s.append("\n");
        }
        let c = &chats[i];
        s.append("  ");
        s.append(c.1.as_str());
        s.append(" (");
        push_signed_decimal(&mut s, c.2);
        s.append(" posts)");
        proof {
            let t = lines.take(i + 1);
            assert(t.drop_last() =~= lines.take(i as int));
            assert(t.last() == chat_line(chats@[i as int]));
            if i > 0 {
                assert(s@ =~= before + "\n"@ + chat_line(chats@[i as int]));
            } else {
                assert(s@ =~= chat_line(chats@[i as int]));
            }
        }
        i = i + 1;
    }
    assert(lines.take(n as int) =~= lines);
    s
}

/// The statistics message for `stats`.
pub fn format_stats(stats: &BotStats) -> (s: String)
    ensures
        s@ == stats_message(*stats),
{
    let mut s = String::from_str("<b>Bot Statistics</b>\n\n<b>Users</b>\nTotal: ");
    push_signed_decimal(&mut s, stats.total_users);
    s.append("\nActive (24h): ");
    push_signed_decimal(&mut s, stats.active_users_24h);
    s.append("\nActive (7d): ");
    push_signed_decimal(&mut s, stats.active_users_7d);
    s.append("\nActive (30d): ");
    push_signed_decimal(&mut s, stats.active_users_30d);
    s.append("\n\n<b>Publications</b>\nTotal: ");
    push_signed_decimal(&mut s, stats.total_publications);
    s.append("\nLast 24h: ");
    push_signed_decimal(&mut s, stats.publications_24h);
    s.append("\nLast 7d: ");
    push_signed_decimal(&mut s, stats.publications_7d);
    s.append("\n\n<b>Buttons</b>\nTotal configured: ");
    push_signed_decimal(&mut s, stats.total_buttons_configured);
    s.append("\nMost popular style: ");
    match &stats.most_popular_style {
        Some(x) => s.append(x.as_str()),
        None => s.append("default"),
    }
    s.append("\n\n<b>Top Destination Chats</b>\n");
    let top = top_chats_string(&stats.top_destination_chats);
    s.append(top.as_str());
    s
}

/// The reply to /stats: the statistics, or a failure where they could not be read.
pub open spec fn stats_reply(chat_id: i64, stats: Option<BotStats>) -> EffectView {
    match stats {
        Some(s) => send(chat_id, stats_message(s), Some(ParseMode::Html), None),
        None => send(chat_id, "Failed to retrieve statistics."@, None, None),
    }
}

/// Handle /stats for an admin, with the statistics read (`None` where reading failed).
pub fn handle_stats(chat_id: i64, stats: Option<BotStats>) -> (e: Effect)
    ensures
        e@ == stats_reply(chat_id, stats),
{
    match &stats {
        Some(s) => send_text(chat_id, format_stats(s), Some(ParseMode::Html)),
        None => send_str(chat_id, "Failed to retrieve statistics."),
    }
}

/// The page that /users asks for: the number after the command, at least 1;
/// 1 where there is none.
pub open spec fn requested_page(text: Seq<char>) -> usize {
    match second_token(text) {
        Some(t) => match parse_usize(t) {
            Some(p) => if p < 1 {
                1
            } else {
                p
            },
            None => 1,
        },
        None => 1,
    }
}

/// The page that the text of a /users command asks for.
pub fn parse_page(text: &str) -> (page: usize)
    ensures
        page == requested_page(text@),
        page >= 1,
{
    let v = chars_of(text);
    match second_token_bounds(&v) {
        Some((a, b)) => match parse_usize_range(&v, a, b) {
            Some(p) => if p < 1 {
                1
            } else {
                p
            },
            None => 1,
        },
        None => 1,
    }
}

/// Offset of the first user listed on `page`.
pub fn page_offset(page: usize) -> (offset: usize)
    requires
        page >= 1,
        (page - 1) * 10 <= usize::MAX,
    ensures
        offset == (page - 1) * 10,
{
    (page - 1) * USERS_PER_PAGE
}

/// The number of pages for `total` users, at least 1.
pub open spec fn page_count(total: int) -> int {
    let p = (total + 9) / 10;
    if p < 1 {
        1
    } else {
        p
    }
}

/// The first 16 bytes of `s`, the date and time of an SQLite timestamp.
pub open spec fn timestamp_prefix(s: Seq<char>) -> Seq<char> {
    decode_utf8(encode_utf8(s).subrange(0, 16))
}

/// A user as listed by /users.
pub open spec fn user_entry(u: UserStats) -> Seq<char> {
    "<code>"@ + signed_decimal(u.user_id as int) + "</code> "@ + match u.first_name {
        Some(n) => n@,
        None => "Unknown"@,
    } + " ("@ + match u.username {
        Some(n) => "@"@ + n@,
        None => "no username"@,
    } + ")\n  Messages: "@ + signed_decimal(u.total_messages as int) + " | Publications: "@
        + signed_decimal(u.total_publications as int) + "\n  Last seen: "@ + timestamp_prefix(
        u.last_seen_at@,
    ) + "\n\n"@
}

/// The users listed, one entry after another.
pub open spec fn user_entries(users: Seq<UserStats>) -> Seq<char>
    decreases users.len(),
{
    if users.len() == 0 {
        Seq::empty()
    } else {
        user_entries(users.drop_last()) + user_entry(users.last())
    }
}

/// The page of users.
pub open spec fn users_message(page: usize, total_pages: int, users: Seq<UserStats>) -> Seq<char> {
    "<b>Users (Page "@ + decimal(page as nat) + "/"@ + decimal(total_pages as nat) + ")</b>\n\n"@
        + user_entries(users) + if page < total_pages {
        "\nUse <code>/users "@ + decimal((page + 1) as nat) + "</code> for next page"@
    } else {
        Seq::empty()
    }
}

/// The timestamp of every user can be cut after its 16th byte.
pub open spec fn timestamps_cut(users: Seq<UserStats>) -> bool {
    forall|i: int| 0 <= i < users.len() ==> is_char_boundary(encode_utf8(#[trigger] users[i].last_seen_at@), 16)
}

/// The reply to /users: the page, or a failure where the users could not be
/// read, or a note where the page is empty.
pub open spec fn users_reply(chat_id: i64, page: usize, users: Option<Seq<UserStats>>, total_users: usize) -> EffectView {
    match users {
        None => send(chat_id, "Failed to retrieve users."@, None, None),
        Some(us) => if us.len() == 0 {
            send(chat_id, "No users found."@, None, None)
        } else {
            send(chat_id, users_message(page, page_count(total_users as int), us), Some(ParseMode::Html), None)
        },
    }
}

/// The users, where they were read.
pub open spec fn users_view(users: Option<Vec<UserStats>>) -> Option<Seq<UserStats>> {
    match users {
        Some(v) => Some(v@),
        None => None,
    }
}

#[verifier::spinoff_prover]
#[verifier::rlimit(40)]
fn user_entry_string(s: &mut String, u: &UserStats)
    requires
        is_char_boundary(encode_utf8(u.last_seen_at@), 16),
    ensures
        final(s)@ == old(s)@ + user_entry(*u),
{
    let ghost start = s@;
    s.append("<code>");
    push_signed_decimal(s, u.user_id);
    s.append("</code> ");
    match &u.first_name {
        Some(n) => s.append(n.as_str()),
        None => s.append("Unknown"),
    }
    s.append(" (");
    match &u.username {
        Some(n) => {
            s.append("@");
            s.append(n.as_str());
        },
        None => s.append("no username"),
    }
    s.append(")\n  Messages: ");
    push_signed_decimal(s, u.total_messages);
    s.append(" | Publications: ");
    push_signed_decimal(s, u.total_publications);
    s.append("\n  Last seen: ");
    let seen = u.last_seen_at.as_str();
    let (head, _) = seen.split_at(16);
    proof {
        vstd::utf8::encode_utf8_decode_utf8(head@);
    }
    s.append(head);
    s.append("\n\n");
    assert(s@ =~= start + user_entry(*u));
}

/// Handle /users for an admin: `page` is the page asked for, `users` the users
/// read for it (`None` where reading failed) and `total_users` the number of
/// users, as a `usize`.
pub fn handle_users(chat_id: i64, page: usize, users: Option<Vec<UserStats>>, total_users: usize) -> (e: Effect)
    requires
        users is Some ==> total_users + 10 <= usize::MAX,
        users matches Some(us) ==> timestamps_cut(us@),
    ensures
        e@ == users_reply(chat_id, page, users_view(users), total_users),
{
    let users = match users {
        None => return send_str(chat_id, "Failed to retrieve users."),
        Some(us) => us,
    };
    if users.len() == 0 {
        return send_str(chat_id, "No users found.");
    }
    let per_page: usize = USERS_PER_PAGE;
    let pages = (total_users + per_page - 1) / per_page;
    let total_pages = if pages < 1 {
        1
    } else {
        pages
    };
    let mut s = String::from_str("<b>Users (Page ");
    push_decimal(&mut s, page as u64);
    s.append("/");
    push_decimal(&mut s, total_pages as u64);
    s.append(")</b>\n\n");
    let ghost head = s@;
    let mut i: usize = 0;
    while i < users.len()
        invariant
            i <= users.len(),
            timestamps_cut(users@),
            s@ == head + user_entries(users@.take(i as int)),
        decreases users.len() - i,
    {
        let ghost before = s@;
        assert(is_char_boundary(encode_utf8(users@[i as int].last_seen_at@), 16));
        user_entry_string(&mut s, &users[i]);
        assert(users@.take(i + 1).drop_last() =~= users@.take(i as int));
        i = i + 1;
    }
    assert(users@.take(users.len() as int) =~= users@);
    if page < total_pages {
        s.append("\nUse <code>/users ");
        push_decimal(&mut s, (page + 1) as u64);
        s.append("</code> for next page");
    }
    assert(s@ =~= users_message(page, page_count(total_users as int), users@));
    send_text(chat_id, s, Some(ParseMode::Html))
}

/// The user ID after a /block or /unblock command, if it is an integer.
pub open spec fn target_id(text: Seq<char>) -> Option<i64> {
    match second_token(text) {
        Some(t) => parse_i64(t),
        None => None,
    }
}

/// The user ID that the text of a /block or /unblock command names.
pub fn parse_target_id(text: &str) -> (r: Option<i64>)
    ensures
        r == target_id(text@),
{
    let v = chars_of(text);
    match second_token_bounds(&v) {
        Some((a, b)) => parse_i64_range(&v, a, b),
        None => None,
    }
}

/// The reply to /block (`block`) or /unblock: the usage where no user ID was
/// given, else whether the change was stored.
pub open spec fn block_reply(chat_id: i64, block: bool, outcome: Option<(i64, bool)>) -> EffectView {
    match outcome {
        None => send(chat_id, if block {
            "Usage: /block <user_id>"@
        } else {
            "Usage: /unblock <user_id>"@
        }, None, None),
        Some((id, stored)) => if !stored {
            send(chat_id, if block {
                "Failed to block user."@
            } else {
                "Failed to unblock user."@
            }, None, None)
        } else {
            send(chat_id, "User "@ + signed_decimal(id as int) + if block {
                " has been blocked."@
            } else {
                " has been unblocked."@
            }, None, None)
        },
    }
}

fn block_reply_effect(chat_id: i64, block: bool, outcome: Option<(i64, bool)>) -> (e: Effect)
    ensures
        e@ == block_reply(chat_id, block, outcome),
{
    match outcome {
        None => if block {
            send_str(chat_id, "Usage: /block <user_id>")
        } else {
            send_str(chat_id, "Usage: /unblock <user_id>")
        },
        Some((id, stored)) => {
            if !stored {
                if block {
                    send_str(chat_id, "Failed to block user.")
                } else {
                    send_str(chat_id, "Failed to unblock user.")
                }
            } else {
                let mut s = String::from_str("User ");
                push_signed_decimal(&mut s, id);
                if block {
                    s.append(" has been blocked.");
                } else {
                    s.append(" has been unblocked.");
                }
                send_text(chat_id, s, None)
            }
        },
    }
}

/// Handle /block for an admin: `outcome` is the user ID named and whether
/// blocking was stored, or `None` where no ID was named.
pub fn handle_block(chat_id: i64, outcome: Option<(i64, bool)>) -> (e: Effect)
    ensures
        e@ == block_reply(chat_id, true, outcome),
{
    block_reply_effect(chat_id, true, outcome)
}

/// Handle /unblock for an admin: `outcome` is the user ID named and whether
/// unblocking was stored, or `None` where no ID was named.
pub fn handle_unblock(chat_id: i64, outcome: Option<(i64, bool)>) -> (e: Effect)
    ensures
        e@ == block_reply(chat_id, false, outcome),
{
    block_reply_effect(chat_id, false, outcome)
}


/// Reply to /broadcast without a message.
pub const BROADCAST_USAGE: &'static str = "Usage: /broadcast <message>\n\nThis will send the message to all users.";
/// Notice that a broadcast begins.
pub const BROADCAST_STARTING: &'static str = "Starting broadcast...";

/// The message of a /broadcast command: what follows the command, trimmed;
/// empty where the text does not start with the command.
pub open spec fn broadcast_message(text: Seq<char>) -> Seq<char> {
    if starts_with(text, "/broadcast"@) {
        trim(text.skip("/broadcast"@.len() as int))
    } else {
        Seq::empty()
    }
}

/// The message that the text of a /broadcast command asks to send.
pub fn broadcast_text(text: &str) -> (r: String)
    ensures
        r@ == broadcast_message(text@),
{
    let v = chars_of(text);
    if !starts_with_chars(&v, "/broadcast") {
        return String::new();
    }
    let skip = chars_of("/broadcast").len();
    let (a, b) = trim_bounds(&v, skip, v.len());
    assert(v@.subrange(skip as int, v.len() as int) =~= v@.skip(skip as int));
    string_from_chars(&v, a, b)
}

/// The first reply to /broadcast with `message`: the usage where the message
/// is empty, else a notice that the broadcast begins; and whether it begins.
pub fn broadcast_opening(chat_id: i64, message: &String) -> (r: (Effect, bool))
    ensures
        r.1 == (message@.len() > 0),
        r.0@ == send(chat_id, if message@.len() > 0 {
            BROADCAST_STARTING@
        } else {
            BROADCAST_USAGE@
        }, None, None),
{
    if message.as_str().is_empty() {
        (send_str(chat_id, BROADCAST_USAGE), false)
    } else {
        (send_str(chat_id, BROADCAST_STARTING), true)
    }
}

/// The messages of one batch of a broadcast: `message` to each user, in order.
pub open spec fn batch_sends(users: Seq<UserStats>, message: Seq<char>) -> Seq<EffectView> {
    users.map_values(|u: UserStats| send(u.user_id, message, None, None))
}

/// The messages to send for one batch of users: exactly one `message` to each
/// user of the batch, in the batch's order.
pub fn batch_messages(users: &Vec<UserStats>, message: &String) -> (r: Vec<Effect>)
    ensures
        effects_view(r@) == batch_sends(users@, message@),
{
    let mut r: Vec<Effect> = Vec::new();
    let mut i: usize = 0;
    while i < users.len()
        invariant
            i <= users.len(),
            effects_view(r@) == batch_sends(users@.take(i as int), message@),
        decreases users.len() - i,
    {
        let ghost before = r@;
        r.push(send_text(users[i].user_id, message.clone(), None));
        proof {
            assert(users@.take(i + 1) =~= users@.take(i as int).push(users@[i as int]));
            assert(effects_view(r@) =~= effects_view(before).push(r@[i as int]@));
            assert(batch_sends(users@.take(i + 1), message@) =~= batch_sends(users@.take(i as int), message@).push(
                send(users@[i as int].user_id, message@, None, None),
            ));
        }
        i = i + 1;
    }
    assert(users@.take(users.len() as int) =~= users@);
    r
}

/// How many outcomes in `s` are `outcome`.
pub open spec fn outcome_count(s: Seq<bool>, outcome: bool) -> nat
    decreases s.len(),
{
    if s.len() == 0 {
        0
    } else {
        outcome_count(s.drop_last(), outcome) + if s.last() == outcome {
            1nat
        } else {
            0nat
        }
    }
}

/// Every outcome is a success or a failure.
pub proof fn lemma_outcome_counts_sum(s: Seq<bool>)
    ensures
        outcome_count(s, true) + outcome_count(s, false) == s.len(),
    decreases s.len(),
{
    if s.len() > 0 {
        lemma_outcome_counts_sum(s.drop_last());
    }
}

/// A prefix holds no more outcomes of a kind than the whole.
proof fn lemma_outcome_count_prefix(s: Seq<bool>, i: int, outcome: bool)
    requires
        0 <= i <= s.len(),
    ensures
        outcome_count(s.take(i), outcome) <= outcome_count(s, outcome),
    decreases s.len() - i,
{
    if i < s.len() {
        lemma_outcome_count_prefix(s, i + 1, outcome);
        assert(s.take(i + 1).drop_last() =~= s.take(i));
    } else {
        assert(s.take(i) =~= s);
    }
}

/// Progress of a broadcast: the offset of the next batch of users and the
/// deliveries that succeeded and failed so far.
#[derive(Clone, Copy, Debug)]
pub struct BroadcastProgress {
    pub offset: usize,
    pub sent: i32,
    pub failed: i32,
}

impl BroadcastProgress {
    /// A broadcast before its first batch.
    pub fn new() -> (p: Self)
        ensures
            p.offset == 0 && p.sent == 0 && p.failed == 0,
    {
        BroadcastProgress { offset: 0, sent: 0, failed: 0 }
    }

    /// Whether a batch of users read (`None` where reading failed) is delivered:
    /// the broadcast stops at a failure or an empty batch.
    pub fn continues(batch_len: Option<usize>) -> (b: bool)
        ensures
            b == (batch_len matches Some(n) && n > 0),
    {
        match batch_len {
            Some(n) => n > 0,
            None => false,
        }
    }

    /// Count one delivery, which succeeded or failed.
    pub fn record(&mut self, delivered: bool)
        requires
            delivered ==> old(self).sent < i32::MAX,
            !delivered ==> old(self).failed < i32::MAX,
        ensures
            final(self).offset == old(self).offset,
            delivered ==> final(self).sent == old(self).sent + 1 && final(self).failed == old(self).failed,
            !delivered ==> final(self).failed == old(self).failed + 1 && final(self).sent == old(self).sent,
    {
        if delivered {
            self.sent = self.sent + 1;
        } else {
            self.failed = self.failed + 1;
        }
    }

    /// Count the deliveries of a batch, in order: `delivered[i]` tells whether
    /// the message to the batch's `i`th user went out. Every user of the batch
    /// is counted once, as sent or as failed.
    pub fn record_batch(&mut self, delivered: &Vec<bool>)
        requires
            old(self).sent + outcome_count(delivered@, true) <= i32::MAX,
            old(self).failed + outcome_count(delivered@, false) <= i32::MAX,
        ensures
            final(self).offset == old(self).offset,
            final(self).sent == old(self).sent + outcome_count(delivered@, true),
            final(self).failed == old(self).failed + outcome_count(delivered@, false),
            final(self).sent + final(self).failed == old(self).sent + old(self).failed + delivered@.len(),
    {
        let ghost start = *self;
        let mut i: usize = 0;
        while i < delivered.len()
            invariant
                i <= delivered.len(),
                start.sent + outcome_count(delivered@, true) <= i32::MAX,
                start.failed + outcome_count(delivered@, false) <= i32::MAX,
                self.offset == start.offset,
                self.sent == start.sent + outcome_count(delivered@.take(i as int), true),
                self.failed == start.failed + outcome_count(delivered@.take(i as int), false),
            decreases delivered.len() - i,
        {
            proof {
                assert(delivered@.take(i + 1).drop_last() =~= delivered@.take(i as int));
                lemma_outcome_count_prefix(delivered@, i + 1, true);
                lemma_outcome_count_prefix(delivered@, i + 1, false);
            }
            self.record(delivered[i]);
            i = i + 1;
        }
        proof {
            assert(delivered@.take(delivered.len() as int) =~= delivered@);
            lemma_outcome_counts_sum(delivered@);
        }
    }

    /// Move on to the next batch of users.
    pub fn advance(&mut self)
        requires
            old(self).offset + 50 <= usize::MAX,
        ensures
            final(self).offset == old(self).offset + 50,
            final(self).sent == old(self).sent,
            final(self).failed == old(self).failed,
    {
        self.offset = self.offset + BROADCAST_BATCH;
    }

    /// The closing report of the broadcast.
    pub open spec fn summary_text(self) -> Seq<char> {
        "Broadcast complete!\nSent: "@ + signed_decimal(self.sent as int) + "\nFailed: "@
            + signed_decimal(self.failed as int)
    }

    /// The closing report of the broadcast, sent to `chat_id`.
    pub fn summary(&self, chat_id: i64) -> (e: Effect)
        ensures
            e@ == send(chat_id, self.summary_text(), None, None),
    {
        let mut s = String::from_str("Broadcast complete!\nSent: ");
        push_signed_decimal(&mut s, self.sent as i64);
        s.append("\nFailed: ");
        push_signed_decimal(&mut s, self.failed as i64);
        send_text(chat_id, s, None)
    }
}

} // verus!
