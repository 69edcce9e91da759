//! The clock of the system, and the calendar as `chrono` has it.

use vstd::prelude::*;
use crate::text::opt_view;

verus! {

/// How this library writes an instant: date and time of day, to the
/// second.
pub open spec fn timestamp_pattern() -> Seq<char> {
    "%Y-%m-%d %H:%M:%S"@
}

/// The instant that lies `millis` milliseconds after the epoch, in UTC,
/// written after `pattern` as `chrono` does it; nothing where `chrono`
/// cannot hold the instant.
pub uninterp spec fn utc_text(millis: i64, pattern: Seq<char>) -> Option<Seq<char>>;

/// `DateTime::from_timestamp_millis` and, on the instant it gives,
/// `format` with the pattern. Only the pattern above is passed, which
/// `chrono` accepts.
#[verifier::external_body]
fn format_utc(millis: i64, pattern: &str) -> (text: Option<String>)
    requires
        pattern@ == timestamp_pattern(),
    ensures
        opt_view(text) == utc_text(millis, pattern@),
{
    chrono::DateTime::from_timestamp_millis(millis).map(|t| t.format(pattern).to_string())
}

/// Whether `chrono` reads a text as an instant: a date and a time of day
/// with an offset, in the relaxed form of RFC 3339 that it accepts.
pub uninterp spec fn is_timestamp(text: Seq<char>) -> bool;

/// `from_str` of `chrono::DateTime<Utc>`, which `str::parse` calls: whether
/// it reads the text as an instant.
#[verifier::external_body]
fn parses_as_instant(text: &str) -> (ok: bool)
    ensures
        ok == is_timestamp(text@),
{
    text.parse::<chrono::DateTime<chrono::Utc>>().is_ok()
}

/// `SystemTime::now` as the whole seconds since `UNIX_EPOCH`, zero where the
/// clock is set before the epoch. Nothing is said of the number.
#[verifier::external_body]
fn system_now_secs() -> u64 {
    std::time::SystemTime::now().duration_since(
        std::time::UNIX_EPOCH,
    ).unwrap_or_default().as_secs()
}

/// The instant that lies `millis` milliseconds after the epoch, in UTC, as
/// date and time of day.
pub fn timestamp_text(millis: i64) -> (text: Option<String>)
    ensures
        opt_view(text) == utc_text(millis, timestamp_pattern()),
{
    format_utc(millis, "%Y-%m-%d %H:%M:%S")
}

/// The time on the system's clock, in whole seconds since the epoch; zero
/// where the clock is set before the epoch.
pub fn now_secs() -> u64 {
    system_now_secs()
}

/// The time on the system's clock, in milliseconds since the epoch, to the
/// second: the milliseconds of some reading of the clock in whole seconds.
pub fn now_millis() -> (millis: i64)
    ensures
        exists|secs: u64| millis == #[trigger] whole_millis(secs),
{
    let secs = now_secs();
    millis_of(secs)
}

/// So many seconds in milliseconds; the largest number of milliseconds
/// there is where the seconds amount to more.
pub open spec fn whole_millis(secs: u64) -> i64 {
    if secs * 1000 > i64::MAX {
        i64::MAX
    } else {
        (secs * 1000) as i64
    }
}

/// So many seconds in milliseconds.
pub fn millis_of(secs: u64) -> (millis: i64)
    ensures
        millis == whole_millis(secs),
{
    if secs > 9_223_372_036_854_775 {
        i64::MAX
    } else {
        (secs * 1000) as i64
    }
}

/// Whether a text is an instant as `chrono` reads one.
pub fn timestamp_ok(text: &str) -> (ok: bool)
    ensures
        ok == is_timestamp(text@),
{
    parses_as_instant(text)
}

} // verus!
