//! The activity log: one record per file that was relayed.

use crate::profile::UserRow;
use std::fmt::Write;
use vstd::prelude::*;

verus! {

/// One row of the activity log.
#[derive(Debug, PartialEq, Eq)]
pub struct LogRecord {
    /// Moment of the relay in UTC, printed under `STAMP_PATTERN`.
    pub timestamp: String,
    /// Catalog path of the file that was relayed.
    pub path: String,
    pub user_id: String,
    pub username: String,
    pub first_name: String,
    pub last_name: String,
}

/// A row of the activity log, as plain text.
pub struct LogEntry {
    pub timestamp: Seq<char>,
    pub path: Seq<char>,
    pub user_id: Seq<char>,
    pub username: Seq<char>,
    pub first_name: Seq<char>,
    pub last_name: Seq<char>,
}

impl View for LogRecord {
    type V = LogEntry;

    open spec fn view(&self) -> LogEntry {
        LogEntry {
            timestamp: self.timestamp@,
            path: self.path@,
            user_id: self.user_id@,
            username: self.username@,
            first_name: self.first_name@,
            last_name: self.last_name@,
        }
    }
}

/// The log row for the relay of `path` to `user` at the moment `timestamp`.
pub open spec fn audit_entry(timestamp: Seq<char>, path: Seq<char>, user: UserRow) -> LogEntry {
    LogEntry {
        timestamp,
        path,
        user_id: user.id,
        username: user.username,
        first_name: user.first_name,
        last_name: user.last_name,
    }
}

/// The pattern of a row's timestamp: day, month and year between slashes,
/// then hours, minutes and seconds between colons.
pub const STAMP_PATTERN: &'static str = "%d/%m/%Y %T";

/// The last second of the year 9999, counted from 1970-01-01 00:00:00 UTC.
pub const LAST_SECOND: i64 = 253_402_300_799;

/// The UTC moment that lies `secs` seconds after 1970-01-01 00:00:00,
/// printed under the `strftime` pattern `pattern`. `None` for a moment
/// outside the calendar's range and for a pattern that cannot be printed.
pub uninterp spec fn utc_stamp(secs: int, pattern: Seq<char>) -> Option<Seq<char>>;

/// The timestamp of a row written `secs` seconds after 1970-01-01 00:00:00
/// UTC. Every moment from 1970 to the end of the year 9999 has one.
pub open spec fn stamp_at(secs: int) -> Option<Seq<char>> {
    if 0 <= secs <= LAST_SECOND {
        Some(utc_stamp(secs, STAMP_PATTERN@)->0)
    } else {
        utc_stamp(secs, STAMP_PATTERN@)
    }
}

/// Turns `secs` into a calendar moment with `chrono::DateTime::from_timestamp`
/// and prints it with `DateTime::format` under `pattern`. The result depends
/// on `secs` and `pattern` alone: the moment is taken in UTC and printed
/// without a locale. It is `None` when `from_timestamp` rejects `secs` as
/// out of range and when the printing reports an error, which it does for a
/// pattern it cannot read. Under `STAMP_PATTERN` every moment from 1970 to
/// the end of the year 9999 is printed.
#[verifier::external_body]
pub(crate) fn format_utc(secs: i64, pattern: &str) -> (stamp: Option<String>)
    ensures
        match stamp {
            Some(text) => utc_stamp(secs as int, pattern@) == Some(text@),
            None => utc_stamp(secs as int, pattern@) is None,
        },
        pattern@ == STAMP_PATTERN@ && 0 <= secs <= LAST_SECOND ==> stamp is Some,
{
    match chrono::DateTime::from_timestamp(secs, 0) {
        Some(moment) => {
            let mut text = String::new();
            match write!(text, "{}", moment.format(pattern)) {
                Ok(()) => Some(text),
                Err(_) => None,
            }
        },
        None => None,
    }
}

/// Prints the timestamp of a row written at `secs`.
pub fn stamp(secs: i64) -> (text: Option<String>)
    ensures
        match text {
            Some(text) => stamp_at(secs as int) == Some(text@),
            None => stamp_at(secs as int) is None,
        },
        0 <= secs <= LAST_SECOND ==> text is Some,
{
    format_utc(secs, STAMP_PATTERN)
}

} // verus!
