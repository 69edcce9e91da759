//! The values that the server's REST interface sends and receives.

use vstd::prelude::*;
use crate::text::{join3, opt_view};

verus! {

/// The envelope round every successful answer.
#[derive(Debug)]
pub struct ApiResponse<T> {
    pub status: String,
    pub data: T,
}

/// The body of an answer that reports an error.
#[derive(Debug)]
pub struct ApiErrorResponse {
    pub status: String,
    pub message: String,
    pub error_type: Option<String>,
}

/// The answer to a request for the server's description of itself.
#[derive(Debug)]
pub struct MetaResponse {
    pub status: String,
    pub data: MetaData,
}

/// What a server says about itself.
#[derive(Debug)]
pub struct MetaData {
    pub version: String,
    pub build_info: Option<String>,
    pub oidc_issuer: Option<String>,
    pub cli_client_id: Option<String>,
}

impl MetaData {
    /// Whether the server offers the browser login to command-line clients:
    /// it does when it names both an issuer and a client id.
    pub fn oidc_enabled(&self) -> (enabled: bool)
        ensures
            enabled == (self.oidc_issuer is Some && self.cli_client_id is Some),
    {
        self.oidc_issuer.is_some() && self.cli_client_id.is_some()
    }
}

/// The answer to "who am I".
#[derive(Debug)]
pub struct UserData {
    pub user: User,
    pub auth_method: Option<String>,
}

/// A user of the server.
#[derive(Debug, Clone)]
pub struct User {
    pub id: i64,
    pub email: String,
    pub full_name: Option<String>,
    pub role: String,
    pub status: Option<String>,
}

/// A team that the user belongs to.
#[derive(Debug, Clone)]
pub struct Team {
    pub id: i64,
    pub name: String,
    pub description: Option<String>,
    pub role: Option<String>,
    pub member_count: Option<i32>,
}

/// A log source of a team.
#[derive(Debug, Clone)]
pub struct Source {
    pub id: i64,
    pub name: String,
    pub description: Option<String>,
    pub database: Option<String>,
    pub table_name: Option<String>,
    pub is_connected: bool,
}

/// A column of a source's schema.
#[derive(Debug, Clone)]
pub struct Column {
    pub name: String,
    pub column_type: String,
}

/// A query in the server's own query language.
#[derive(Debug)]
pub struct QueryRequest {
    pub query: String,
    pub start_time: String,
    pub end_time: String,
    pub timezone: Option<String>,
    pub limit: Option<u32>,
    pub query_timeout: Option<u32>,
}

/// A query in SQL.
#[derive(Debug)]
pub struct SqlQueryRequest {
    pub raw_sql: String,
    pub limit: Option<u32>,
    pub timezone: Option<String>,
    pub start_time: Option<String>,
    pub end_time: Option<String>,
    pub query_timeout: Option<u32>,
}

/// One value of a log entry. A number keeps the text that it is written
/// as; a list keeps both its debug rendering and its compact JSON text, an
/// object its compact JSON text.
#[derive(Debug, Clone)]
pub enum FieldValue {
    Null,
    Bool(bool),
    Number(String),
    Text(String),
    Array { shown: String, json: String },
    Object(String),
}

/// One log entry: its fields by name. No name occurs twice in an entry that
/// the server sent; a lookup takes the first.
#[derive(Debug, Clone)]
pub struct LogEntry {
    pub fields: Vec<(String, FieldValue)>,
}

/// The rows of a query's answer and what the server says about the run.
#[derive(Debug)]
pub struct QueryResponse {
    pub logs: Vec<LogEntry>,
    pub data: Vec<LogEntry>,
    pub columns: Vec<Column>,
    pub stats: QueryStats,
    pub query_id: Option<String>,
    pub generated_sql: Option<String>,
}

impl QueryResponse {
    /// The rows of the answer: `logs` where it holds any, else `data`.
    pub fn entries(&self) -> (rows: &[LogEntry])
        ensures
            rows@ == (if self.logs@.len() > 0 { self.logs@ } else { self.data@ }),
    {
        if self.logs.len() > 0 {
            self.logs.as_slice()
        } else {
            self.data.as_slice()
        }
    }
}

/// How much work a query was.
#[derive(Debug)]
pub struct QueryStats {
    pub execution_time_ms: i64,
    pub rows_read: i64,
    pub bytes_read: i64,
}

impl Default for QueryStats {
    fn default() -> (stats: Self)
        ensures
            stats.execution_time_ms == 0,
            stats.rows_read == 0,
            stats.bytes_read == 0,
    {
        QueryStats { execution_time_ms: 0, rows_read: 0, bytes_read: 0 }
    }
}

/// The envelope round a minted service token.
#[derive(Debug)]
pub struct TokenExchangeApiResponse {
    pub status: String,
    pub data: TokenExchangeData,
}

/// A service token: the token, when it expires (the timestamp as the server
/// wrote it) and whom it was minted for.
#[derive(Debug)]
pub struct TokenExchangeData {
    pub token: String,
    pub expires_at: Option<String>,
    pub user: Option<TokenUser>,
}

/// The user a service token was minted for.
#[derive(Debug)]
pub struct TokenUser {
    pub id: i64,
    pub email: String,
    pub full_name: Option<String>,
    pub role: Option<String>,
}

impl Source {
    /// The table behind the source, as `database.table`.
    pub open spec fn table_ref_text(&self) -> Option<Seq<char>> {
        match (self.database, self.table_name) {
            (Some(database), Some(table)) => Some(database@ + "."@ + table@),
            _ => None,
        }
    }

    /// The table behind the source, as `database.table`, where both are
    /// known.
    pub fn table_ref(&self) -> (table: Option<String>)
        ensures
            opt_view(table) == self.table_ref_text(),
    {
        match (&self.database, &self.table_name) {
            (Some(database), Some(table)) => Some(join3(database.as_str(), ".", table.as_str())),
            _ => None,
        }
    }
}

/// A saved query.
#[derive(Debug, Clone)]
pub struct Collection {
    pub id: i64,
    pub name: String,
    pub description: Option<String>,
    pub query_type: String,
    pub query_content: String,
}

/// What a saved query holds: the query, its variables, its time range and
/// its limit.
#[derive(Debug)]
pub struct CollectionQueryContent {
    pub content: Option<String>,
    pub variables: Option<Vec<CollectionVariable>>,
    pub time_range: Option<CollectionTimeRange>,
    pub limit: Option<u32>,
}

/// A variable of a saved query, with the value it has where none is given.
#[derive(Debug)]
pub struct CollectionVariable {
    pub name: String,
    pub value: Option<String>,
}

/// The time range of a saved query: relative to now, or absolute.
#[derive(Debug)]
pub struct CollectionTimeRange {
    pub relative: Option<String>,
    pub absolute: Option<AbsoluteTimeRange>,
}

/// A time range between two instants, in milliseconds since the epoch.
#[derive(Debug)]
pub struct AbsoluteTimeRange {
    pub start: i64,
    pub end: i64,
}

} // verus!
