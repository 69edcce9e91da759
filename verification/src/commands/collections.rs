//! The command that lists and runs saved queries.

use vstd::prelude::*;
use crate::address::pairs_view;
use crate::api::models::{
    Collection, CollectionQueryContent, CollectionTimeRange, CollectionVariable, SqlQueryRequest,
};
use crate::clock::{timestamp_pattern, timestamp_text, utc_text};
use crate::commands::query::{
    OutputFormat, range_before, range_ending, relative_range, time_range_is, TimeSpan, TimeUnit,
};
use crate::error::Error;
use crate::text::{
    eq_ignore_ascii_case, find_named, join3, keys_of, lookup, names_of, opt_view, put, replace,
    replaced, same_ignoring_ascii_case, split_first, split_once, text_eq,
};

verus! {

/// The arguments of `collections`.
#[derive(Debug)]
pub struct CollectionsArgs {
    pub name: Option<String>,
    pub team: Option<String>,
    pub source: Option<String>,
    pub since: Option<String>,
    pub limit: Option<u32>,
    pub output: OutputFormat,
    pub no_highlight: bool,
    pub no_timestamp: bool,
    pub highlights: Vec<String>,
    pub disable_highlights: Vec<String>,
    pub variables: Vec<String>,
}

/// What one argument of `--var` sets: the name before the first equals
/// sign and the value after it. Nothing for an argument without one.
pub open spec fn override_of(arg: Seq<char>) -> Option<(Seq<char>, Seq<char>)> {
    split_first(arg, '=')
}

/// What the arguments of `--var` set, by name: a later argument for a name
/// replaces an earlier one; an argument without an equals sign is passed
/// over.
pub open spec fn overrides_of(args: Seq<String>) -> Seq<(Seq<char>, Seq<char>)>
    decreases args.len(),
{
    if args.len() == 0 {
        Seq::empty()
    } else {
        let before = overrides_of(args.drop_last());
        match override_of(args.last()@) {
            Some(pair) => put(before, pair.0, pair.1),
            None => before,
        }
    }
}

fn put_pair(pairs: &mut Vec<(String, String)>, name: String, value: String)
    ensures
        pairs_view(final(pairs)@) == put(pairs_view(old(pairs)@), name@, value@),
{
    assert(names_of(pairs@) == keys_of(pairs_view(pairs@)));
    match find_named(pairs, name.as_str()) {
        Some(i) => {
            pairs.set(i, (name, value));
        },
        None => {
            pairs.push((name, value));
        },
    }
    assert(pairs_view(pairs@) == put(pairs_view(old(pairs)@), name@, value@));
}

/// What the arguments of `--var` set, by name.
pub fn parse_variable_overrides(vars: &[String]) -> (out: Vec<(String, String)>)
    ensures
        pairs_view(out@) == overrides_of(vars@),
{
    let mut out: Vec<(String, String)> = Vec::new();
    let mut i: usize = 0;
    assert(vars@.take(0) == Seq::<String>::empty());
    assert(pairs_view(out@) == Seq::<(Seq<char>, Seq<char>)>::empty());
    while i < vars.len()
        invariant
            i <= vars.len(),
            pairs_view(out@) == overrides_of(vars@.take(i as int)),
        decreases vars.len() - i,
    {
        assert(vars@.take(i + 1).drop_last() == vars@.take(i as int));
        assert(vars@.take(i + 1).last() == vars@[i as int]);
        match split_once(vars[i].as_str(), '=') {
            Some(pair) => {
                put_pair(&mut out, pair.0, pair.1);
            },
            None => {},
        }
        i += 1;
    }
    assert(vars@.take(i as int) == vars@);
    out
}

/// How a variable stands in a query: its name between double braces.
pub open spec fn placeholder(name: Seq<char>) -> Seq<char> {
    "{{"@ + name + "}}"@
}

/// The value that a variable takes: the one that was given for its name,
/// else its own, else nothing.
pub open spec fn variable_value(
    variable: CollectionVariable,
    overrides: Seq<(Seq<char>, Seq<char>)>,
) -> Seq<char> {
    match lookup(overrides, variable.name@) {
        Some(value) => value,
        None => match variable.value {
            Some(value) => value@,
            None => Seq::empty(),
        },
    }
}

/// The query with the variables put in, one after the other.
pub open spec fn with_variables(
    query: Seq<char>,
    variables: Seq<CollectionVariable>,
    overrides: Seq<(Seq<char>, Seq<char>)>,
) -> Seq<char>
    decreases variables.len(),
{
    if variables.len() == 0 {
        query
    } else {
        replaced(
            with_variables(query, variables.drop_last(), overrides),
            placeholder(variables.last().name@),
            variable_value(variables.last(), overrides),
        )
    }
}

/// The query that a saved query runs: its text, empty where it has none,
/// with its variables put in.
pub open spec fn final_query_text(
    content: CollectionQueryContent,
    overrides: Seq<(Seq<char>, Seq<char>)>,
) -> Seq<char> {
    let query = match content.content {
        Some(q) => q@,
        None => Seq::empty(),
    };
    match content.variables {
        Some(variables) => with_variables(query, variables@, overrides),
        None => query,
    }
}

/// The query that a saved query runs.
pub fn final_query(content: &CollectionQueryContent, overrides: &Vec<(String, String)>) -> (query:
    String)
    ensures
        query@ == final_query_text(*content, pairs_view(overrides@)),
{
    let mut query = match &content.content {
        Some(q) => q.clone(),
        None => String::new(),
    };
    match &content.variables {
        Some(variables) => {
            let ghost start = query@;
            let mut i: usize = 0;
            assert(variables@.take(0) == Seq::<CollectionVariable>::empty());
            while i < variables.len()
                invariant
                    i <= variables.len(),
                    query@ == with_variables(start, variables@.take(i as int), pairs_view(overrides@)),
                decreases variables.len() - i,
            {
                assert(variables@.take(i + 1).drop_last() == variables@.take(i as int));
                assert(variables@.take(i + 1).last() == variables@[i as int]);
                let variable = &variables[i];
                assert(names_of(overrides@) == keys_of(pairs_view(overrides@)));
                let value = match find_named(overrides, variable.name.as_str()) {
                    Some(k) => overrides[k].1.clone(),
                    None => match &variable.value {
                        Some(v) => v.clone(),
                        None => String::new(),
                    },
                };
                let pattern = join3("{{", variable.name.as_str(), "}}");
                query = replace(query.as_str(), pattern.as_str(), value.as_str());
                i += 1;
            }
            assert(variables@.take(i as int) == variables@);
        },
        None => {},
    }
    query
}

/// The fifteen minutes that a saved query covers where nothing says
/// otherwise.
pub open spec fn default_span() -> TimeSpan {
    TimeSpan { amount: 15, unit: TimeUnit::Minutes }
}

/// The time range of a saved query, at `now`: as long as `--since` says
/// where it is given; else the query's own range, relative or absolute;
/// else the last fifteen minutes.
pub open spec fn collection_range_is(
    since: Option<Seq<char>>,
    time_range: Option<CollectionTimeRange>,
    now: i64,
    r: Result<(String, String), Error>,
) -> bool {
    match since {
        Some(s) => time_range_is(s, None, None, now, r),
        None => match time_range {
            Some(CollectionTimeRange { relative: Some(rel), absolute }) => time_range_is(
                rel@,
                None,
                None,
                now,
                r,
            ),
            Some(CollectionTimeRange { relative: None, absolute: Some(abs) }) => match (
                utc_text(abs.start, timestamp_pattern()),
                utc_text(abs.end, timestamp_pattern()),
            ) {
                (None, _) => r matches Err(Error::Other(m)) && m@ == "Invalid start timestamp"@,
                (Some(_), None) => r matches Err(Error::Other(m)) && m@
                    == "Invalid end timestamp"@,
                (Some(a), Some(b)) => r matches Ok(range) && range.0@ == a && range.1@ == b,
            },
            _ => match range_before(now, default_span()) {
                Some(range) => r matches Ok(found) && found.0@ == range.0 && found.1@ == range.1,
                None => r matches Err(Error::Other(m)) && m@ == "Time range out of bounds"@,
            },
        },
    }
}

fn default_range(now: i64) -> (r: Result<(String, String), Error>)
    ensures
        match range_before(now, default_span()) {
            Some(range) => r matches Ok(found) && found.0@ == range.0 && found.1@ == range.1,
            None => r matches Err(Error::Other(m)) && m@ == "Time range out of bounds"@,
        },
{
    match range_ending(now, TimeSpan { amount: 15, unit: TimeUnit::Minutes }) {
        Some(range) => Ok(range),
        None => Err(Error::other("Time range out of bounds")),
    }
}

/// The absolute range of a saved query, given its two ends as they were
/// written: an end that could not be written is an error, the start's
/// first.
pub fn absolute_range(start: Option<String>, end: Option<String>) -> (r: Result<
    (String, String),
    Error,
>)
    ensures
        match (start, end) {
            (None, _) => r matches Err(Error::Other(m)) && m@ == "Invalid start timestamp"@,
            (Some(_), None) => r matches Err(Error::Other(m)) && m@ == "Invalid end timestamp"@,
            (Some(a), Some(b)) => r == Ok::<(String, String), Error>((a, b)),
        },
{
    match (start, end) {
        (None, _) => Err(Error::other("Invalid start timestamp")),
        (Some(_), None) => Err(Error::other("Invalid end timestamp")),
        (Some(a), Some(b)) => Ok((a, b)),
    }
}

/// The time range of a saved query, at `now`.
pub fn collection_range(since: &Option<String>, time_range: &Option<CollectionTimeRange>, now: i64)
    -> (r: Result<(String, String), Error>)
    ensures
        collection_range_is(opt_view(*since), *time_range, now, r),
{
    match since {
        Some(s) => {
            return relative_range(s.as_str(), now);
        },
        None => {},
    }
    match time_range {
        Some(range) => match &range.relative {
            Some(rel) => relative_range(rel.as_str(), now),
            None => match &range.absolute {
                Some(abs) => absolute_range(timestamp_text(abs.start), timestamp_text(abs.end)),
                None => default_range(now),
            },
        },
        None => default_range(now),
    }
}

/// How many rows a saved query asks for: what `--limit` says, else what
/// the query says, else a hundred.
pub fn collection_limit(argument: Option<u32>, saved: Option<u32>) -> (limit: u32)
    ensures
        limit == (match argument {
            Some(n) => n,
            None => match saved {
                Some(n) => n,
                None => 100u32,
            },
        }),
{
    match argument {
        Some(n) => n,
        None => match saved {
            Some(n) => n,
            None => 100,
        },
    }
}

/// Whether a saved query is in SQL.
pub fn is_sql(collection: &Collection) -> (yes: bool)
    ensures
        yes == (collection.query_type@ == "sql"@),
{
    text_eq(collection.query_type.as_str(), "sql")
}

/// The request that a saved query in SQL makes: the query and the time
/// zone, with a timeout of thirty seconds and no limit of its own.
pub fn saved_sql_request(query: String, timezone: Option<String>) -> (request: SqlQueryRequest)
    ensures
        request.raw_sql == query,
        request.limit is None,
        request.timezone == timezone,
        request.start_time is None,
        request.end_time is None,
        request.query_timeout == Some(30u32),
{
    SqlQueryRequest {
        raw_sql: query,
        limit: None,
        timezone,
        start_time: None,
        end_time: None,
        query_timeout: Some(30),
    }
}

/// The place of the first saved query whose name is `name` but for the
/// case of ASCII letters.
pub open spec fn collection_index(collections: Seq<Collection>, name: Seq<char>) -> Option<int>
    decreases collections.len(),
{
    if collections.len() == 0 {
        None
    } else if same_ignoring_ascii_case(collections[0].name@, name) {
        Some(0)
    } else {
        match collection_index(collections.drop_first(), name) {
            Some(i) => Some(i + 1),
            None => None,
        }
    }
}

/// `collection_index` gives the least place whose query has the name, and
/// nothing only where none has it.
pub proof fn lemma_collection_index(collections: Seq<Collection>, name: Seq<char>)
    ensures
        match collection_index(collections, name) {
            Some(i) => 0 <= i < collections.len() && same_ignoring_ascii_case(
                collections[i].name@,
                name,
            ) && forall|j: int|
                0 <= j < i ==> !same_ignoring_ascii_case((#[trigger] collections[j]).name@, name),
            None => forall|j: int|
                0 <= j < collections.len() ==> !same_ignoring_ascii_case(
                    (#[trigger] collections[j]).name@,
                    name,
                ),
        },
    decreases collections.len(),
{
    if collections.len() > 0 && !same_ignoring_ascii_case(collections[0].name@, name) {
        let rest = collections.drop_first();
        lemma_collection_index(rest, name);
        match collection_index(rest, name) {
            Some(i) => {
                assert forall|j: int| 0 <= j < i + 1 implies !same_ignoring_ascii_case(
                    (#[trigger] collections[j]).name@,
                    name,
                ) by {
                    if j > 0 {
                        assert(collections[j] == rest[j - 1]);
                    }
                }
            },
            None => {
                assert forall|j: int| 0 <= j < collections.len() implies !same_ignoring_ascii_case(
                    (#[trigger] collections[j]).name@,
                    name,
                ) by {
                    if j > 0 {
                        assert(collections[j] == rest[j - 1]);
                    }
                }
            },
        }
    }
}

/// The text that says that no saved query has the name.
pub open spec fn collection_not_found_text(name: Seq<char>) -> Seq<char> {
    "Collection '"@ + name + "' not found"@
}

/// The first saved query whose name is `name` but for the case of ASCII
/// letters, as a place in `collections`.
pub fn find_collection(collections: &[Collection], name: &str) -> (r: Result<usize, Error>)
    ensures
        match r {
            Ok(i) => i < collections.len() && collection_index(collections@, name@) == Some(
                i as int,
            ),
            Err(e) => {
                &&& collection_index(collections@, name@) is None
                &&& e matches Error::Other(m)
                &&& m@ == collection_not_found_text(name@)
            },
        },
{
    let mut i: usize = 0;
    while i < collections.len()
        invariant
            i <= collections.len(),
            forall|j: int|
                0 <= j < i ==> !same_ignoring_ascii_case((#[trigger] collections@[j]).name@, name@),
        decreases collections.len() - i,
    {
        if eq_ignore_ascii_case(collections[i].name.as_str(), name) {
            proof {
                lemma_collection_index(collections@, name@);
            }
            return Ok(i);
        }
        i += 1;
    }
    proof {
        lemma_collection_index(collections@, name@);
    }
    Err(Error::Other(join3("Collection '", name, "' not found")))
}

} // verus!
