//! How a log entry becomes a line of text, and which highlighting rules a
//! configuration asks for.

pub mod plan;

pub use plan::{
    default_log_level_keywords, parse_color_style, Color, HighlightOptions, HighlightPlan,
    KeywordGroup, RegexRule, TextStyle,
};

use vstd::prelude::*;
use crate::api::models::{Column, FieldValue, LogEntry};
use crate::text::{
    chars_of, find_named, first_index, join, join3, joined, names_of, text_eq, texts_view,
};

verus! {

/// The upper-case form of a text, as `str::to_uppercase` gives it.
pub uninterp spec fn uppercase_of(s: Seq<char>) -> Seq<char>;

/// `str::to_uppercase`: the text with each character replaced by its
/// upper-case form under Unicode's rules.
#[verifier::external_body]
fn uppercase(s: &str) -> (out: String)
    ensures
        out@ == uppercase_of(s@),
{
    s.to_uppercase()
}

/// The value of the first field named `key`.
pub open spec fn field_of(fields: Seq<(String, FieldValue)>, key: Seq<char>) -> Option<FieldValue> {
    match first_index(names_of(fields), key) {
        Some(i) => Some(fields[i].1),
        None => None,
    }
}

/// Whether the field holds a timestamp.
pub open spec fn is_time_key(key: Seq<char>) -> bool {
    key == "_timestamp"@ || key == "timestamp"@
}

/// Whether the field holds a level.
pub open spec fn is_level_key(key: Seq<char>) -> bool {
    key == "level"@ || key == "severity"@
}

/// Whether the field holds the message.
pub open spec fn is_message_key(key: Seq<char>) -> bool {
    key == "msg"@ || key == "message"@
}

/// Whether the field is one of those that lead a line.
pub open spec fn is_priority_key(key: Seq<char>) -> bool {
    is_time_key(key) || is_level_key(key) || is_message_key(key)
}

/// How the value of the field `key` shows in a line: a timestamp and a
/// message as they are, a level in upper case between brackets, null as
/// nothing, anything else as `key=value`.
pub open spec fn value_text(key: Seq<char>, value: FieldValue) -> Seq<char> {
    match value {
        FieldValue::Text(s) => if is_time_key(key) {
            s@
        } else if is_level_key(key) {
            "["@ + uppercase_of(s@) + "]"@
        } else if is_message_key(key) {
            s@
        } else {
            key + "="@ + s@
        },
        FieldValue::Number(n) => if is_time_key(key) {
            n@
        } else {
            key + "="@ + n@
        },
        FieldValue::Bool(b) => key + "="@ + (if b {
            "true"@
        } else {
            "false"@
        }),
        FieldValue::Null => Seq::empty(),
        FieldValue::Array { shown, json } => key + "="@ + shown@,
        FieldValue::Object(shown) => key + "="@ + shown@,
    }
}

/// The part that the field `key` adds at the head of a line: its value
/// where the entry has the field, null included.
pub open spec fn priority_part(fields: Seq<(String, FieldValue)>, key: Seq<char>) -> Seq<
    Seq<char>,
> {
    match field_of(fields, key) {
        Some(value) => seq![value_text(key, value)],
        None => Seq::empty(),
    }
}

/// The parts at the head of a line: timestamp, level and message, under
/// either of their names, in this order.
pub open spec fn priority_parts(fields: Seq<(String, FieldValue)>) -> Seq<Seq<char>> {
    priority_part(fields, "_timestamp"@) + priority_part(fields, "timestamp"@) + priority_part(
        fields,
        "level"@,
    ) + priority_part(fields, "severity"@) + priority_part(fields, "msg"@) + priority_part(
        fields,
        "message"@,
    )
}

/// The part that the column `name` adds to a line: the entry's value for
/// it, unless the column leads the line anyway, its name starts with an
/// underscore, or the entry has no value or null for it.
pub open spec fn column_part(fields: Seq<(String, FieldValue)>, name: Seq<char>) -> Seq<Seq<char>> {
    if is_priority_key(name) || (name.len() > 0 && name[0] == '_') {
        Seq::empty()
    } else {
        match field_of(fields, name) {
            Some(value) => if value is Null {
                Seq::empty()
            } else {
                seq![value_text(name, value)]
            },
            None => Seq::empty(),
        }
    }
}

/// The parts that the columns add to a line, in the order of the columns.
pub open spec fn column_parts(fields: Seq<(String, FieldValue)>, columns: Seq<Column>) -> Seq<
    Seq<char>,
>
    decreases columns.len(),
{
    if columns.len() == 0 {
        Seq::empty()
    } else {
        column_parts(fields, columns.drop_last()) + column_part(fields, columns.last().name@)
    }
}

/// The line that shows a log entry.
pub open spec fn entry_line(fields: Seq<(String, FieldValue)>, columns: Seq<Column>) -> Seq<char> {
    joined(priority_parts(fields) + column_parts(fields, columns), " "@)
}

impl LogEntry {
    /// The value of the first field named `key`.
    pub fn get(&self, key: &str) -> (found: Option<&FieldValue>)
        ensures
            match found {
                Some(value) => field_of(self.fields@, key@) == Some(*value),
                None => field_of(self.fields@, key@) is None,
            },
    {
        match find_named(&self.fields, key) {
            Some(i) => Some(&self.fields[i].1),
            None => None,
        }
    }
}

fn time_key(key: &str) -> (yes: bool)
    ensures
        yes == is_time_key(key@),
{
    text_eq(key, "_timestamp") || text_eq(key, "timestamp")
}

fn level_key(key: &str) -> (yes: bool)
    ensures
        yes == is_level_key(key@),
{
    text_eq(key, "level") || text_eq(key, "severity")
}

fn message_key(key: &str) -> (yes: bool)
    ensures
        yes == is_message_key(key@),
{
    text_eq(key, "msg") || text_eq(key, "message")
}

/// How a level shows in a line, given its upper-case form: between
/// brackets.
pub fn level_part(upper: &str) -> (out: String)
    ensures
        out@ == "["@ + upper@ + "]"@,
{
    join3("[", upper, "]")
}

/// How the value of the field `key` shows in a line.
pub fn format_value(key: &str, value: &FieldValue) -> (out: String)
    ensures
        out@ == value_text(key@, *value),
{
    match value {
        FieldValue::Text(s) => {
            if time_key(key) {
                s.clone()
            } else if level_key(key) {
                let upper = uppercase(s.as_str());
                level_part(upper.as_str())
            } else if message_key(key) {
                s.clone()
            } else {
                join3(key, "=", s.as_str())
            }
        },
        FieldValue::Number(n) => {
            if time_key(key) {
                n.clone()
            } else {
                join3(key, "=", n.as_str())
            }
        },
        FieldValue::Bool(b) => {
            if *b {
                join3(key, "=", "true")
            } else {
                join3(key, "=", "false")
            }
        },
        FieldValue::Null => String::new(),
        FieldValue::Array { shown, json } => join3(key, "=", shown.as_str()),
        FieldValue::Object(shown) => join3(key, "=", shown.as_str()),
    }
}

fn push_priority(parts: &mut Vec<String>, entry: &LogEntry, key: &str)
    ensures
        texts_view(final(parts)@) == texts_view(old(parts)@) + priority_part(entry.fields@, key@),
{
    match entry.get(key) {
        Some(value) => {
            parts.push(format_value(key, value));
        },
        None => {},
    }
    assert(texts_view(parts@) =~= texts_view(old(parts)@) + priority_part(entry.fields@, key@));
}

fn push_column(parts: &mut Vec<String>, entry: &LogEntry, name: &str)
    ensures
        texts_view(final(parts)@) == texts_view(old(parts)@) + column_part(entry.fields@, name@),
{
    let v = chars_of(name);
    let hidden = v.len() > 0 && v[0] == '_';
    if !(time_key(name) || level_key(name) || message_key(name)) && !hidden {
        match entry.get(name) {
            Some(value) => {
                match value {
                    FieldValue::Null => {},
                    _ => {
                        parts.push(format_value(name, value));
                    },
                }
            },
            None => {},
        }
    }
    assert(texts_view(parts@) =~= texts_view(old(parts)@) + column_part(entry.fields@, name@));
}

/// The line that shows a log entry: first its timestamp, level and
/// message, then its value for each of the columns, with a blank between
/// each two.
pub fn format_log_entry(entry: &LogEntry, columns: &[Column]) -> (line: String)
    ensures
        line@ == entry_line(entry.fields@, columns@),
{
    format_log_entry_with_options(entry, columns, &FormatOptions { show_timestamp: true })
}

/// How a line is made of a log entry.
#[derive(Debug, Clone, Copy, PartialEq, Eq, Structural)]
pub struct FormatOptions {
    /// Whether the line leads with the timestamp.
    pub show_timestamp: bool,
}

/// The parts at the head of a line: the timestamp where it is wanted, then
/// level and message.
pub open spec fn leading_parts(fields: Seq<(String, FieldValue)>, show_timestamp: bool) -> Seq<
    Seq<char>,
> {
    (if show_timestamp {
        priority_part(fields, "_timestamp"@) + priority_part(fields, "timestamp"@)
    } else {
        Seq::empty()
    }) + priority_part(fields, "level"@) + priority_part(fields, "severity"@) + priority_part(
        fields,
        "msg"@,
    ) + priority_part(fields, "message"@)
}

/// The line that shows a log entry, with or without its timestamp.
pub open spec fn entry_line_with(
    fields: Seq<(String, FieldValue)>,
    columns: Seq<Column>,
    show_timestamp: bool,
) -> Seq<char> {
    joined(leading_parts(fields, show_timestamp) + column_parts(fields, columns), " "@)
}

/// With the timestamp, the leading parts are all six.
pub proof fn lemma_leading_parts_with_timestamp(fields: Seq<(String, FieldValue)>)
    ensures
        leading_parts(fields, true) == priority_parts(fields),
        forall|columns: Seq<Column>|
            #[trigger] entry_line_with(fields, columns, true) == entry_line(fields, columns),
{
    assert(leading_parts(fields, true) =~= priority_parts(fields));
}

/// The line that shows a log entry: first its timestamp, unless that is
/// not wanted, its level and its message, then its value for each of the
/// columns, with a blank between each two.
pub fn format_log_entry_with_options(
    entry: &LogEntry,
    columns: &[Column],
    options: &FormatOptions,
) -> (line: String)
    ensures
        line@ == entry_line_with(entry.fields@, columns@, options.show_timestamp),
        options.show_timestamp ==> line@ == entry_line(entry.fields@, columns@),
{
    proof {
        lemma_leading_parts_with_timestamp(entry.fields@);
    }
    let mut parts: Vec<String> = Vec::new();
    assert(texts_view(parts@) =~= Seq::<Seq<char>>::empty());
    if options.show_timestamp {
        push_priority(&mut parts, entry, "_timestamp");
        push_priority(&mut parts, entry, "timestamp");
    }
    push_priority(&mut parts, entry, "level");
    push_priority(&mut parts, entry, "severity");
    push_priority(&mut parts, entry, "msg");
    push_priority(&mut parts, entry, "message");
    assert(texts_view(parts@) =~= leading_parts(entry.fields@, options.show_timestamp));
    let ghost show = options.show_timestamp;
    let mut i: usize = 0;
    assert(columns@.take(0) == Seq::<Column>::empty());
    while i < columns.len()
        invariant
            i <= columns.len(),
            texts_view(parts@) == leading_parts(entry.fields@, show) + column_parts(
                entry.fields@,
                columns@.take(i as int),
            ),
        decreases columns.len() - i,
    {
        assert(columns@.take(i + 1).drop_last() == columns@.take(i as int));
        assert(columns@.take(i + 1).last() == columns@[i as int]);
        push_column(&mut parts, entry, columns[i].name.as_str());
        i += 1;
    }
    assert(columns@.take(i as int) == columns@);
    join(&parts, " ")
}

} // verus!
