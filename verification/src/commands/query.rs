//! The command that runs a query in the server's own language.

use vstd::prelude::*;
use crate::api::models::QueryRequest;
use crate::clock::{now_millis, timestamp_pattern, timestamp_text, utc_text};
use crate::error::Error;
use crate::text::{chars_of, integer_value, owned, parse_integer, trim, trimmed, trimmed_end};

verus! {

/// How results are printed.
#[derive(Debug, Clone, Copy, PartialEq, Eq, Structural)]
pub enum OutputFormat {
    Text,
    Json,
    Jsonl,
    Table,
    List,
}

/// The arguments of `query`.
#[derive(Debug)]
pub struct QueryArgs {
    pub query: Option<String>,
    pub since: Option<String>,
    pub from: Option<String>,
    pub to: Option<String>,
    pub team: Option<String>,
    pub source: Option<String>,
    pub limit: Option<u32>,
    pub output: OutputFormat,
    pub no_highlight: bool,
    pub no_timestamp: bool,
    pub show_sql: bool,
    pub highlights: Vec<String>,
    pub disable_highlights: Vec<String>,
}

/// The unit of a time span.
#[derive(Debug, Clone, Copy, PartialEq, Eq, Structural)]
pub enum TimeUnit {
    Minutes,
    Hours,
    Days,
    Weeks,
}

/// A time span: so many units.
#[derive(Debug, Clone, Copy, PartialEq, Eq, Structural)]
pub struct TimeSpan {
    pub amount: i64,
    pub unit: TimeUnit,
}

/// The longest span that can be handled, in seconds: the largest number of
/// milliseconds in 64 bits.
pub const MAX_SPAN_SECS: i64 = 9_223_372_036_854_775;

/// How many seconds a unit has.
pub open spec fn unit_seconds(unit: TimeUnit) -> int {
    match unit {
        TimeUnit::Minutes => 60,
        TimeUnit::Hours => 3600,
        TimeUnit::Days => 86400,
        TimeUnit::Weeks => 604800,
    }
}

impl TimeSpan {
    /// The span in seconds, where it is within the bounds.
    pub open spec fn seconds_of(self) -> Option<i64> {
        let secs = self.amount * unit_seconds(self.unit);
        if -MAX_SPAN_SECS <= secs <= MAX_SPAN_SECS {
            Some(secs as i64)
        } else {
            None
        }
    }

    /// The span in seconds; nothing for a span of more than the largest
    /// number of milliseconds in 64 bits, either way.
    pub fn seconds(&self) -> (secs: Option<i64>)
        ensures
            secs == self.seconds_of(),
    {
        let per: i64 = match self.unit {
            TimeUnit::Minutes => 60,
            TimeUnit::Hours => 3600,
            TimeUnit::Days => 86400,
            TimeUnit::Weeks => 604800,
        };
        let bound: i64 = MAX_SPAN_SECS / per;
        assert(self.amount * per <= MAX_SPAN_SECS <==> self.amount <= bound) by (nonlinear_arith)
            requires
                per > 0,
                bound == MAX_SPAN_SECS / per,
        ;
        assert(self.amount * per >= -MAX_SPAN_SECS <==> self.amount >= -bound) by (nonlinear_arith)
            requires
                per > 0,
                bound == MAX_SPAN_SECS / per,
        ;
        if self.amount > bound || self.amount < -bound {
            None
        } else {
            assert(-MAX_SPAN_SECS <= self.amount * per <= MAX_SPAN_SECS);
            Some(self.amount * per)
        }
    }
}

/// The unit that a word for a span ends with, and the word without it: a
/// last letter `m`, `h`, `d` or `w` names the unit and is dropped as often
/// as it stands at the end; a word without such a letter counts minutes.
pub open spec fn unit_and_number(word: Seq<char>) -> (TimeUnit, Seq<char>) {
    if word.len() > 0 && word.last() == 'm' {
        (TimeUnit::Minutes, trimmed_end(word, 'm'))
    } else if word.len() > 0 && word.last() == 'h' {
        (TimeUnit::Hours, trimmed_end(word, 'h'))
    } else if word.len() > 0 && word.last() == 'd' {
        (TimeUnit::Days, trimmed_end(word, 'd'))
    } else if word.len() > 0 && word.last() == 'w' {
        (TimeUnit::Weeks, trimmed_end(word, 'w'))
    } else {
        (TimeUnit::Minutes, word)
    }
}

/// The span that a text names: fifteen minutes for a blank text, else the
/// number before the unit; nothing where that is no number.
pub open spec fn duration_of(s: Seq<char>) -> Option<TimeSpan> {
    let word = trimmed(s);
    if word.len() == 0 {
        Some(TimeSpan { amount: 15, unit: TimeUnit::Minutes })
    } else {
        match integer_value(unit_and_number(word).1) {
            Some(amount) => Some(TimeSpan { amount, unit: unit_and_number(word).0 }),
            None => None,
        }
    }
}

/// The span that a text such as `15m`, `2h`, `7d` or `1w` names.
pub fn parse_duration(s: &str) -> (r: Result<TimeSpan, Error>)
    ensures
        match r {
            Ok(span) => duration_of(s@) == Some(span),
            Err(e) => {
                &&& duration_of(s@) is None
                &&& e matches Error::Other(m)
                &&& m@ == "Invalid duration number"@
            },
        },
{
    let word = trim(s);
    let v = chars_of(word.as_str());
    if v.len() == 0 {
        return Ok(TimeSpan { amount: 15, unit: TimeUnit::Minutes });
    }
    let last = v[v.len() - 1];
    let (unit, number) = if last == 'm' {
        (TimeUnit::Minutes, crate::text::trim_end(word.as_str(), 'm'))
    } else if last == 'h' {
        (TimeUnit::Hours, crate::text::trim_end(word.as_str(), 'h'))
    } else if last == 'd' {
        (TimeUnit::Days, crate::text::trim_end(word.as_str(), 'd'))
    } else if last == 'w' {
        (TimeUnit::Weeks, crate::text::trim_end(word.as_str(), 'w'))
    } else {
        (TimeUnit::Minutes, word)
    };
    match parse_integer(number.as_str()) {
        Some(amount) => Ok(TimeSpan { amount, unit }),
        None => Err(Error::other("Invalid duration number")),
    }
}

/// The instant that lies `span` before `now`, in milliseconds since the
/// epoch; nothing where the span or the instant is out of bounds.
pub open spec fn instant_before(now: i64, span: TimeSpan) -> Option<i64> {
    match span.seconds_of() {
        Some(secs) => if i64::MIN <= now - secs * 1000 <= i64::MAX {
            Some((now - secs * 1000) as i64)
        } else {
            None
        },
        None => None,
    }
}

/// The instant that lies `span` before `now`.
pub fn before(now: i64, span: TimeSpan) -> (at: Option<i64>)
    ensures
        at == instant_before(now, span),
{
    match span.seconds() {
        Some(secs) => now.checked_sub(secs * 1000),
        None => None,
    }
}

/// The range that ends at `now` and starts `span` before it, as two
/// timestamps; nothing where either instant is out of bounds.
pub open spec fn range_before(now: i64, span: TimeSpan) -> Option<(Seq<char>, Seq<char>)> {
    match instant_before(now, span) {
        Some(start) => match (
            utc_text(start, timestamp_pattern()),
            utc_text(now, timestamp_pattern()),
        ) {
            (Some(a), Some(b)) => Some((a, b)),
            _ => None,
        },
        None => None,
    }
}

/// The view of an optional pair of texts.
pub open spec fn pair_view(p: Option<(String, String)>) -> Option<(Seq<char>, Seq<char>)> {
    match p {
        Some(pair) => Some((pair.0@, pair.1@)),
        None => None,
    }
}

/// The range that ends at `now` and starts `span` before it.
pub fn range_ending(now: i64, span: TimeSpan) -> (range: Option<(String, String)>)
    ensures
        pair_view(range) == range_before(now, span),
{
    match before(now, span) {
        Some(start) => both(timestamp_text(start), timestamp_text(now)),
        None => None,
    }
}

/// The two ends of a range as they were written, where both could be
/// written.
pub fn both(start: Option<String>, end: Option<String>) -> (range: Option<(String, String)>)
    ensures
        range == (match (start, end) {
            (Some(a), Some(b)) => Some((a, b)),
            _ => None,
        }),
{
    match (start, end) {
        (Some(a), Some(b)) => Some((a, b)),
        _ => None,
    }
}

/// The time range of a query, at `now`: what `--from` and `--to` say where
/// both are given; an error where only one is; else the range that ends
/// now and is as long as `since` says.
pub open spec fn time_range_is(
    since: Seq<char>,
    from: Option<Seq<char>>,
    to: Option<Seq<char>>,
    now: i64,
    r: Result<(String, String), Error>,
) -> bool {
    match (from, to) {
        (Some(f), Some(t)) => r matches Ok(range) && range.0@ == f && range.1@ == t,
        (Some(_), None) => r matches Err(Error::Other(m)) && m@
            == "--from requires --to to be specified"@,
        (None, Some(_)) => r matches Err(Error::Other(m)) && m@
            == "--to requires --from to be specified"@,
        (None, None) => match duration_of(since) {
            None => r matches Err(Error::Other(m)) && m@ == "Invalid duration number"@,
            Some(span) => match range_before(now, span) {
                Some(range) => r matches Ok(found) && found.0@ == range.0 && found.1@ == range.1,
                None => r matches Err(Error::Other(m)) && m@ == "Time range out of bounds"@,
            },
        },
    }
}

/// The view of an optional word.
pub open spec fn word_view(o: Option<&str>) -> Option<Seq<char>> {
    match o {
        Some(s) => Some(s@),
        None => None,
    }
}

/// The range that ends at `now` and is as long as `since` says.
pub fn relative_range(since: &str, now: i64) -> (r: Result<(String, String), Error>)
    ensures
        time_range_is(since@, None, None, now, r),
{
    let span = match parse_duration(since) {
        Ok(span) => span,
        Err(e) => {
            return Err(e);
        },
    };
    match range_ending(now, span) {
        Some(range) => Ok(range),
        None => Err(Error::other("Time range out of bounds")),
    }
}

/// The time range of a query, at `now`.
pub fn time_range_at(since: &str, from: Option<&str>, to: Option<&str>, now: i64) -> (r: Result<
    (String, String),
    Error,
>)
    ensures
        time_range_is(since@, word_view(from), word_view(to), now, r),
{
    match (from, to) {
        (Some(f), Some(t)) => Ok((owned(f), owned(t))),
        (Some(_), None) => Err(Error::other("--from requires --to to be specified")),
        (None, Some(_)) => Err(Error::other("--to requires --from to be specified")),
        (None, None) => relative_range(since, now),
    }
}

/// The time range of a query, by the system's clock.
pub fn parse_time_range(since: &str, from: Option<&str>, to: Option<&str>) -> (r: Result<
    (String, String),
    Error,
>)
    ensures
        exists|now: i64| #[trigger] time_range_is(since@, word_view(from), word_view(to), now, r),
{
    let now = now_millis();
    time_range_at(since, from, to, now)
}

/// The request that a query makes: the query, the time range, the time
/// zone of the context and the limit.
pub fn query_request(
    query: Option<String>,
    range: (String, String),
    timezone: Option<String>,
    limit: u32,
) -> (request: QueryRequest)
    ensures
        request.query@ == (match query {
            Some(q) => q@,
            None => Seq::empty(),
        }),
        request.start_time == range.0,
        request.end_time == range.1,
        request.timezone == timezone,
        request.limit == Some(limit),
        request.query_timeout is None,
{
    let text = match query {
        Some(q) => q,
        None => String::new(),
    };
    QueryRequest {
        query: text,
        start_time: range.0,
        end_time: range.1,
        timezone,
        limit: Some(limit),
        query_timeout: None,
    }
}

} // verus!
