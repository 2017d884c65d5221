use vstd::prelude::*;
use vstd::string::*;
use crate::cache::CacheWrite;
use crate::text::{decimal, decimal_text};

verus! {

/// A user's running total of transcribed seconds, as stored in the stats table.
#[derive(Clone, Debug)]
pub struct Item {
    pub table: String,
    pub user_id: String,
    pub transcribed_seconds: u64,
}

/// One transcription, as counted in the stats.
#[derive(Clone, Debug)]
pub struct TranscriptionData {
    pub user_id: u64,
    pub timestamp: String,
    pub seconds_transcribed: u64,
}

/// Adding to a user's total: update the row when the user has one, insert otherwise.
pub fn smart_add_write(existing: Option<u64>) -> (r: CacheWrite)
    ensures
        r == (if existing is Some { CacheWrite::Update } else { CacheWrite::Insert }),
{
    match existing {
        Some(_) => CacheWrite::Update,
        None => CacheWrite::Insert,
    }
}

/// Total seconds a user may have transcribed over the bot's lifetime.
pub const LIFETIME_LIMIT_SECONDS: u64 = 1800;

/// A user whose recorded total has reached the lifetime limit is turned away;
/// a user with no record is not.
pub fn lifetime_limit_reached(used: Option<u64>) -> (r: bool)
    ensures
        r == (used is Some && used->Some_0 >= LIFETIME_LIMIT_SECONDS),
{
    match used {
        Some(s) => s >= LIFETIME_LIMIT_SECONDS,
        None => false,
    }
}

pub const NO_STATS_TEXT: &'static str = "You have no stats. Start sending voice messages or video notes to get some!";

pub open spec fn stats_reply(username: Seq<char>, seconds: Option<u64>) -> Seq<char> {
    match seconds {
        Option::None => NO_STATS_TEXT@,
        Option::Some(s) => "<b>Your stats:</b>\n- Username: <code>"@ + username
            + "</code>\n- Transcribed: <code>"@ + decimal(s as nat) + "s</code>"@,
    }
}

/// The HTML reply to the stats command.
pub fn stats_text(username: &str, seconds: Option<u64>) -> (r: String)
    ensures
        r@ == stats_reply(username@, seconds),
{
    match seconds {
        None => String::from_str(NO_STATS_TEXT),
        Some(s) => {
            let mut t = String::from_str("<b>Your stats:</b>\n- Username: <code>");
            t.append(username);
            t.append("</code>\n- Transcribed: <code>");
            t.append(decimal_text(s).as_str());
            t.append("s</code>");
            t
        },
    }
}

} // verus!
