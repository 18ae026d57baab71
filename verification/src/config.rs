//! Configuration: the bot token, database location and admin user IDs.

use vstd::prelude::*;
use crate::session::opt_view;
use crate::text::{chars_of, parse_i64, parse_i64_range, str_eq, trim, trim_bounds};

verus! {

/// Application configuration.
#[derive(Clone, Debug)]
pub struct Config {
    /// Telegram Bot API token.
    pub bot_token: String,
    /// Path to SQLite database file.
    pub database_url: String,
    /// List of admin user IDs who can access admin commands.
    pub admin_user_ids: Vec<i64>,
}

/// Why a configuration was refused.
#[derive(Clone, Copy, Debug, PartialEq, Eq)]
pub enum ConfigError {
    /// No bot token was given.
    MissingToken,
    /// The bot token is empty or still the placeholder of the example file.
    PlaceholderToken,
}

impl ConfigError {
    /// The message shown for this error.
    pub open spec fn text(self) -> Seq<char> {
        match self {
            ConfigError::MissingToken => "BOT_TOKEN environment variable is required. Please set it in .env file or environment."@,
            ConfigError::PlaceholderToken => "BOT_TOKEN is not set or still contains placeholder value. Please set your actual bot token."@,
        }
    }

    /// The message shown for this error.
    pub fn message(&self) -> (r: &'static str)
        ensures
            r@ == self.text(),
    {
        match self {
            ConfigError::MissingToken => "BOT_TOKEN environment variable is required. Please set it in .env file or environment.",
            ConfigError::PlaceholderToken => "BOT_TOKEN is not set or still contains placeholder value. Please set your actual bot token.",
        }
    }
}

/// The pieces of `s` between commas (`str::split(',')`): one more than the commas.
pub open spec fn split_commas(s: Seq<char>) -> Seq<Seq<char>>
    decreases s.len(),
{
    if s.len() == 0 {
        seq![Seq::empty()]
    } else {
        let r = split_commas(s.drop_last());
        if s.last() == ',' {
            r.push(Seq::empty())
        } else {
            r.update(r.len() - 1, r.last().push(s.last()))
        }
    }
}

/// The IDs read from `pieces`, in order: each piece, trimmed, that parses as an `i64`.
pub open spec fn ids_of(pieces: Seq<Seq<char>>) -> Seq<i64>
    decreases pieces.len(),
{
    if pieces.len() == 0 {
        Seq::empty()
    } else {
        ids_of(pieces.drop_last()) + match parse_i64(trim(pieces.last())) {
            Some(id) => seq![id],
            None => Seq::empty(),
        }
    }
}

/// The admin IDs of a comma-separated list; entries that are no integer are skipped.
pub open spec fn admin_ids(s: Seq<char>) -> Seq<i64> {
    ids_of(split_commas(s))
}

/// Parses a comma-separated list of admin user IDs, such as `ADMIN_USER_IDS`.
pub fn parse_admin_ids(s: &str) -> (ids: Vec<i64>)
    ensures
        ids@ == admin_ids(s@),
{
    let v = chars_of(s);
    let mut ids: Vec<i64> = Vec::new();
    let mut start: usize = 0;
    let mut i: usize = 0;
    let ghost mut done: Seq<Seq<char>> = Seq::empty();
    assert(v@.take(0) =~= Seq::<char>::empty());
    assert(split_commas(v@.take(0)) =~= done.push(v@.subrange(0, 0)));
    while i < v.len()
        invariant
            v@ == s@,
            start <= i <= v.len(),
            split_commas(v@.take(i as int)) == done.push(v@.subrange(start as int, i as int)),
            ids@ == ids_of(done),
        decreases v.len() - i,
    {
        let ghost prev = v@.take(i as int);
        assert(v@.take(i + 1).drop_last() =~= prev);
        if v[i] == ',' {
            let (a, b) = trim_bounds(&v, start, i);
            let ghost piece = v@.subrange(start as int, i as int);
            match parse_i64_range(&v, a, b) {
                Some(id) => {
                    ids.push(id);
                },
                None => {},
            }
            proof {
                assert(done.push(piece).drop_last() =~= done);
                assert(ids@ =~= ids_of(done.push(piece)));
                done = done.push(piece);
                assert(v@.subrange(i + 1, i + 1) =~= Seq::<char>::empty());
            }
            start = i + 1;
        } else {
            proof {
                assert(v@.subrange(start as int, i + 1) =~= v@.subrange(start as int, i as int).push(
                    v@[i as int],
                ));
            }
        }
        i = i + 1;
    }
    let (a, b) = trim_bounds(&v, start, v.len());
    let ghost piece = v@.subrange(start as int, v.len() as int);
    assert(v@.take(v.len() as int) =~= v@);
    match parse_i64_range(&v, a, b) {
        Some(id) => {
            ids.push(id);
        },
        None => {},
    }
    proof {
        assert(done.push(piece).drop_last() =~= done);
        assert(ids@ =~= ids_of(done.push(piece)));
    }
    ids
}

/// The configuration built from the values given for the token, the database
/// location and the admin IDs; `None` where a value is absent.
pub open spec fn config_outcome(
    bot_token: Option<Seq<char>>,
    database_url: Option<Seq<char>>,
    admin_user_ids: Option<Seq<char>>,
) -> Result<(Seq<char>, Seq<char>, Seq<i64>), ConfigError> {
    match bot_token {
        None => Err(ConfigError::MissingToken),
        Some(t) => if t.len() == 0 || t == "your_bot_token_here"@ {
            Err(ConfigError::PlaceholderToken)
        } else {
            Ok(
                (
                    t,
                    match database_url {
                        Some(d) => d,
                        None => "./data/bot.db"@,
                    },
                    match admin_user_ids {
                        Some(a) => admin_ids(a),
                        None => Seq::empty(),
                    },
                ),
            )
        },
    }
}

impl Config {
    /// Builds the configuration from the values of `BOT_TOKEN`, `DATABASE_URL`
    /// and `ADMIN_USER_IDS` (`None` where a variable is unset).
    ///
    /// The token is required and must not be empty or the placeholder;
    /// `DATABASE_URL` defaults to `./data/bot.db`; `ADMIN_USER_IDS` is a
    /// comma-separated list whose entries that are no integer are skipped.
    pub fn from_values(
        bot_token: Option<String>,
        database_url: Option<String>,
        admin_user_ids: Option<String>,
    ) -> (r: Result<Config, ConfigError>)
        ensures
            match config_outcome(
                opt_view(bot_token),
                opt_view(database_url),
                opt_view(admin_user_ids),
            ) {
                Ok((t, d, a)) => r matches Ok(c) && c.bot_token@ == t && c.database_url@ == d
                    && c.admin_user_ids@ == a,
                Err(e) => r == Err::<Config, ConfigError>(e),
            },
    {
        let bot_token = match bot_token {
            Some(t) => t,
            None => return Err(ConfigError::MissingToken),
        };
        if bot_token.as_str().is_empty() || str_eq(bot_token.as_str(), "your_bot_token_here") {
            return Err(ConfigError::PlaceholderToken);
        }
        let database_url = match database_url {
            Some(d) => d,
            None => String::from_str("./data/bot.db"),
        };
        let admin_user_ids = match admin_user_ids {
            Some(a) => parse_admin_ids(a.as_str()),
            None => Vec::new(),
        };
        Ok(Config { bot_token, database_url, admin_user_ids })
    }
}

/// Check if a user is an admin.
pub fn is_admin(user_id: i64, config: &Config) -> (b: bool)
    ensures
        b == config.admin_user_ids@.contains(user_id),
{
    let mut i: usize = 0;
    while i < config.admin_user_ids.len()
        invariant
            i <= config.admin_user_ids.len(),
            forall|k: int| 0 <= k < i ==> config.admin_user_ids@[k] != user_id,
        decreases config.admin_user_ids.len() - i,
    {
        if config.admin_user_ids[i] == user_id {
            return true;
        }
        i = i + 1;
    }
    false
}

} // verus!
