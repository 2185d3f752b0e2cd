//! Points in time that the game writes into an upload.

use vstd::prelude::*;

verus! {

/// A point in UTC: whole seconds since the start of 1970, and the nanoseconds past
/// them (a thousand million and more within a leap second).
#[derive(Debug, Clone, Copy, PartialEq, Eq, Structural)]
pub struct GameTime {
    pub seconds: i64,
    pub nanos: u32,
}

/// How the game writes a point in time.
pub const GAME_TIME_FORMAT: &'static str = "%Y-%m-%d %H:%M:%S";

/// The seconds since the start of 1970 and the nanoseconds past them, where a text
/// reads as a date and a time of day in the given `strftime` format.
pub uninterp spec fn naive_utc(text: Seq<char>, format: Seq<char>) -> Option<(i64, u32)>;

/// `NaiveDateTime::parse_from_str`, the result taken as UTC.
#[verifier::external_body]
pub(crate) fn parse_naive_utc(text: &str, format: &str) -> (r: Option<(i64, u32)>)
    ensures
        r == naive_utc(text@, format@),
{
    match chrono::NaiveDateTime::parse_from_str(text, format) {
        Ok(naive) => {
            let utc = chrono::TimeZone::from_utc_datetime(&chrono::Utc, &naive);
            Some((utc.timestamp(), utc.timestamp_subsec_nanos()))
        },
        Err(_) => None,
    }
}

/// The point in time that a text of the game stands for.
pub open spec fn game_time(text: Seq<char>) -> Option<GameTime> {
    match naive_utc(text, GAME_TIME_FORMAT@) {
        Some((seconds, nanos)) => Some(GameTime { seconds, nanos }),
        None => None,
    }
}

/// Parses a timestamp of the game, taken as UTC.
pub fn parse_game_time(s: &str) -> (r: Option<GameTime>)
    ensures
        r == game_time(s@),
{
    match parse_naive_utc(s, GAME_TIME_FORMAT) {
        Some((seconds, nanos)) => Some(GameTime { seconds, nanos }),
        None => None,
    }
}

} // verus!
