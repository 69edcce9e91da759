//! The command that runs a query in SQL.

use vstd::prelude::*;
use crate::api::models::SqlQueryRequest;
use crate::commands::query::OutputFormat;
use crate::error::Error;
use crate::text::{text_eq, trim, trimmed};

verus! {

/// The arguments of `sql`.
#[derive(Debug)]
pub struct SqlArgs {
    pub sql: Option<String>,
    pub team: Option<String>,
    pub source: Option<String>,
    pub timeout: u32,
    pub output: OutputFormat,
    pub no_highlight: bool,
    pub no_timestamp: bool,
    pub highlights: Vec<String>,
    pub disable_highlights: Vec<String>,
}

/// Where the SQL of a query comes from.
#[derive(Debug)]
pub enum SqlSource {
    /// From the argument.
    Given(String),
    /// From the standard input, which is to be read to its end.
    Stdin,
}

/// Where the SQL of a query comes from: the argument, or the standard
/// input where the argument is a dash. Without an argument there is none.
pub fn sql_source(argument: Option<String>) -> (r: Result<SqlSource, Error>)
    ensures
        match argument {
            Some(sql) => if sql@ == "-"@ {
                r matches Ok(SqlSource::Stdin)
            } else {
                r matches Ok(SqlSource::Given(s)) && s == sql
            },
            None => r matches Err(Error::Other(m)) && m@
                == "SQL query required. Provide as argument or use '-' to read from stdin."@,
        },
{
    match argument {
        Some(sql) => if text_eq(sql.as_str(), "-") {
            Ok(SqlSource::Stdin)
        } else {
            Ok(SqlSource::Given(sql))
        },
        None => Err(
            Error::other("SQL query required. Provide as argument or use '-' to read from stdin."),
        ),
    }
}

/// The SQL that was read from the standard input: the input without the
/// white space round it.
pub fn sql_from_stdin(input: &str) -> (sql: String)
    ensures
        sql@ == trimmed(input@),
{
    trim(input)
}

/// The request that a query in SQL makes: the query, which must not be
/// empty, the time zone of the context and the timeout; the query sets its
/// own limit.
pub fn sql_request(sql: String, timezone: Option<String>, timeout: u32) -> (r: Result<
    SqlQueryRequest,
    Error,
>)
    ensures
        match r {
            Ok(request) => {
                &&& sql@.len() > 0
                &&& request.raw_sql == sql
                &&& request.limit is None
                &&& request.timezone == timezone
                &&& request.start_time is None
                &&& request.end_time is None
                &&& request.query_timeout == Some(timeout)
            },
            Err(e) => {
                &&& sql@.len() == 0
                &&& e matches Error::Other(m)
                &&& m@ == "SQL query cannot be empty"@
            },
        },
{
    if sql.as_str().unicode_len() == 0 {
        return Err(Error::other("SQL query cannot be empty"));
    }
    Ok(
        SqlQueryRequest {
            raw_sql: sql,
            limit: None,
            timezone,
            start_time: None,
            end_time: None,
            query_timeout: Some(timeout),
        },
    )
}

} // verus!
