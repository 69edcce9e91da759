//! The REST interface of the server: where each request goes, what it
//! carries, and what an answer means.

pub mod models;

pub use models::{
    AbsoluteTimeRange, ApiErrorResponse, ApiResponse, Collection, CollectionQueryContent,
    CollectionTimeRange, CollectionVariable, Column, FieldValue, LogEntry, MetaData, MetaResponse,
    QueryRequest, QueryResponse, QueryStats, Source, SqlQueryRequest, Team,
    TokenExchangeApiResponse, TokenExchangeData, TokenUser, User, UserData,
};

use vstd::prelude::*;
use vstd::utf8::encode_utf8;
use crate::auth::response::{is_success, status_is_success};
use crate::clock::{is_timestamp, timestamp_ok};
use crate::config::schema::Context;
use crate::error::Error;
use crate::json::{Json, json_document, parse_json};
use crate::text::{
    decimal, i64_text, join2, opt_view, owned, signed_decimal, text_eq, trim_end, trimmed_end,
    u64_text,
};

verus! {

/// How the client names itself to the server.
pub open spec fn user_agent() -> Seq<char> {
    "logchef-cli/0.1.0"@
}

/// Whether a byte may stand in the value of an HTTP header: a tab, or any
/// byte from 32 on but 127.
pub open spec fn header_byte(b: u8) -> bool {
    (b >= 32 && b != 127) || b == 9
}

/// Whether a text may be the value of an HTTP header: each of its bytes
/// may stand in one.
pub open spec fn header_text(s: Seq<char>) -> bool {
    forall|i: int| 0 <= i < encode_utf8(s).len() ==> header_byte(#[trigger] encode_utf8(s)[i])
}

/// `HeaderValue::from_str` of `http`, which `reqwest` hands on: whether it
/// accepts the text. It refuses a text with a byte below 32 other than tab,
/// or with the byte 127.
#[verifier::external_body]
fn header_value_ok(text: &str) -> (ok: bool)
    ensures
        ok == header_text(text@),
{
    reqwest::header::HeaderValue::from_str(text).is_ok()
}

/// A client of one server: where the server is, how long a request may
/// take, and the token it authenticates with, if any.
#[derive(Debug)]
pub struct Client {
    base_url: String,
    timeout_secs: u64,
    token: Option<String>,
}

/// The headers of a request, given the token and whether a header may
/// carry it: the user agent, the content type, and the token as a bearer
/// credential where there is one that a header may carry.
pub open spec fn request_headers(token: Option<Seq<char>>) -> Seq<(Seq<char>, Seq<char>)> {
    let fixed = seq![("user-agent"@, user_agent()), ("content-type"@, "application/json"@)];
    match token {
        Some(t) => if header_text("Bearer "@ + t) {
            fixed.push(("authorization"@, "Bearer "@ + t))
        } else {
            fixed
        },
        None => fixed,
    }
}

/// The headers of the request that exchanges an ID token: the bearer
/// credential is the ID token where a header may carry it, else the
/// client's own token under the same condition.
pub open spec fn exchange_headers(token: Option<Seq<char>>, id_token: Seq<char>) -> Seq<
    (Seq<char>, Seq<char>),
> {
    if header_text("Bearer "@ + id_token) {
        request_headers(Some(id_token))
    } else {
        request_headers(token)
    }
}

/// The path of a team.
pub open spec fn team_path(team_id: i64) -> Seq<char> {
    "/api/v1/teams/"@ + signed_decimal(team_id as int)
}

/// The path of a source of a team.
pub open spec fn source_path(team_id: i64, source_id: i64) -> Seq<char> {
    team_path(team_id) + "/sources/"@ + signed_decimal(source_id as int)
}

/// What an answer means, given what its body reads as: the document of a
/// successful answer, or the error that the answer amounts to.
pub open spec fn response_meaning(
    status: u16,
    body: Seq<char>,
    doc: Option<Json>,
    r: Result<Json, Error>,
) -> bool {
    if is_success(status) {
        match doc {
            Some(d) => r == Ok::<Json, Error>(d),
            None => r matches Err(Error::Other(m)) && m@
                == "Failed to parse response: not a JSON document (body: "@ + body + ")"@,
        }
    } else {
        r matches Err(Error::Api { status: s, message }) && s == Some(status) && message@
            == failure_message(status, body, doc)
    }
}

/// The message of a failed request: the one that the server's error body
/// carries where the body is such a thing, a JSON object with the texts
/// `status` and `message`; else the status and the body as they came.
pub open spec fn failure_message(status: u16, body: Seq<char>, doc: Option<Json>) -> Seq<char> {
    match doc {
        Some(d) => if d.text_member("status"@) is Some && d.text_member("message"@) is Some {
            d.text_member("message"@)->0
        } else {
            "HTTP "@ + decimal(status as nat) + ": "@ + body
        },
        None => "HTTP "@ + decimal(status as nat) + ": "@ + body,
    }
}

/// Whether `u` is the user that the object `user` describes: its integer
/// `id`, its text `email` and, where they are there, the texts `full_name`
/// and `role`.
pub open spec fn token_user_of(user: Json, u: TokenUser) -> bool {
    &&& user.integer_member("id"@) == Some(u.id)
    &&& user.text_member("email"@) == Some(u.email@)
    &&& user.text_member("full_name"@) == opt_view(u.full_name)
    &&& user.text_member("role"@) == opt_view(u.role)
}

/// Whether the member `user` of an exchange's data counts as absent: it is
/// missing or null.
pub open spec fn no_user(data: Json) -> bool {
    data.member("user"@) is None || data.member("user"@) == Some(Json::Null)
}

/// Whether the member `expires_at` of an exchange's data counts as absent:
/// it is missing or null.
pub open spec fn no_expiry(data: Json) -> bool {
    data.member("expires_at"@) is None || data.member("expires_at"@) == Some(Json::Null)
}

/// Whether the member `expires_at` of an exchange's data is as it should
/// be: absent, or a text that is an instant.
pub open spec fn expiry_fits(data: Json) -> bool {
    no_expiry(data) || (data.text_member("expires_at"@) matches Some(text) && is_timestamp(text))
}

/// Whether `t` is the service token that the object `data` describes.
pub open spec fn token_data_of(data: Json, t: TokenExchangeData) -> bool {
    &&& data.text_member("token"@) == Some(t.token@)
    &&& data.text_member("expires_at"@) == opt_view(t.expires_at)
    &&& t.expires_at matches Some(text) ==> is_timestamp(text@)
    &&& if no_user(data) {
        t.user is None
    } else {
        t.user is Some && token_user_of(data.member("user"@)->0, t.user->0)
    }
}

/// The name of the first member that the document of an exchange's answer
/// lacks or has in another shape than it should, if there is one. The
/// envelope needs a text `status` and a member `data` with a text `token`;
/// an `expires_at` that is there and not null must be a text that is an
/// instant; a `user` that is there and not null needs an integer `id` and
/// a text `email`.
pub open spec fn token_exchange_gap(doc: Json) -> Option<Seq<char>> {
    if doc.text_member("status"@) is None {
        Some("status"@)
    } else if doc.member("data"@) is None {
        Some("data"@)
    } else {
        let data = doc.member("data"@)->0;
        if data.text_member("token"@) is None {
            Some("token"@)
        } else if !expiry_fits(data) {
            Some("expires_at"@)
        } else if no_user(data) {
            None
        } else if data.member("user"@)->0.integer_member("id"@) is None {
            Some("id"@)
        } else if data.member("user"@)->0.text_member("email"@) is None {
            Some("email"@)
        } else {
            None
        }
    }
}

/// The text that says that an answer lacks the member `name`, or that its
/// `expires_at` is no instant.
pub open spec fn gap_text(name: Seq<char>) -> Seq<char> {
    if name == "expires_at"@ {
        "Failed to parse response: invalid field "@ + name
    } else {
        "Failed to parse response: missing field "@ + name
    }
}

/// The text that says that an answer lacks the member `name`, or that its
/// `expires_at` is no instant.
pub fn gap_message(name: &str) -> (text: String)
    ensures
        text@ == gap_text(name@),
{
    if text_eq(name, "expires_at") {
        join2("Failed to parse response: invalid field ", name)
    } else {
        join2("Failed to parse response: missing field ", name)
    }
}

/// What the answer to a token exchange yields, given its document: the
/// name of the first required member that is missing, or the service token.
pub open spec fn token_exchange_of(doc: Json, r: Result<TokenExchangeData, Seq<char>>) -> bool {
    match r {
        Ok(t) => token_exchange_gap(doc) is None && token_data_of(doc.member("data"@)->0, t),
        Err(name) => token_exchange_gap(doc) == Some(name),
    }
}

/// The view of a decoding's outcome: the name of the missing member as a
/// sequence of characters.
pub open spec fn missing_view<T>(r: Result<T, String>) -> Result<T, Seq<char>> {
    match r {
        Ok(t) => Ok(t),
        Err(name) => Err(name@),
    }
}

/// The expiry that a member `expires_at` stands for, given whether its
/// text reads as an instant: none where the member is missing or null;
/// the text where it is a text that reads as one; and nothing at all, a
/// refusal, for any other member.
pub fn expiry_from(member: Option<&Json>, reads: bool) -> (r: Option<Option<String>>)
    ensures
        match member {
            None | Some(Json::Null) => r == Some(None::<String>),
            Some(Json::Text(text)) => if reads {
                r matches Some(Some(kept)) && kept@ == text@
            } else {
                r is None
            },
            Some(_) => r is None,
        },
{
    match member {
        None => Some(None),
        Some(Json::Null) => Some(None),
        Some(Json::Text(text)) => if reads {
            Some(Some(text.clone()))
        } else {
            None
        },
        Some(_) => None,
    }
}

/// The service token that the document of an exchange's answer carries, or
/// the name of the required member that it lacks.
pub fn token_exchange_from_json(doc: &Json) -> (r: Result<TokenExchangeData, String>)
    ensures
        token_exchange_of(*doc, missing_view(r)),
{
    if doc.get_text("status").is_none() {
        return Err(owned("status"));
    }
    let data = match doc.get("data") {
        Some(d) => d,
        None => {
            return Err(owned("data"));
        },
    };
    let token = match data.get_text("token") {
        Some(t) => t,
        None => {
            return Err(owned("token"));
        },
    };
    let member = data.get("expires_at");
    let reads = match member {
        Some(Json::Text(text)) => timestamp_ok(text.as_str()),
        _ => false,
    };
    let expires_at = match expiry_from(member, reads) {
        Some(expiry) => expiry,
        None => {
            return Err(owned("expires_at"));
        },
    };
    let user = match data.get("user") {
        None => None,
        Some(Json::Null) => None,
        Some(u) => {
            let id = match u.get_integer("id") {
                Some(id) => id,
                None => {
                    return Err(owned("id"));
                },
            };
            let email = match u.get_text("email") {
                Some(e) => e,
                None => {
                    return Err(owned("email"));
                },
            };
            Some(TokenUser { id, email, full_name: u.get_text("full_name"), role: u.get_text("role") })
        },
    };
    Ok(TokenExchangeData { token, expires_at, user })
}

/// What the answer to a token exchange yields, given what its body reads
/// as: the service token; for a failed request the error that any failed
/// request amounts to; for a successful one whose body is no JSON a JSON
/// error, and for one whose document is not what it should be an error
/// that names the member, both without the body, which may hold the token.
pub open spec fn token_exchange_outcome(
    status: u16,
    body: Seq<char>,
    doc: Option<Json>,
    r: Result<TokenExchangeData, Error>,
) -> bool {
    if !is_success(status) {
        r matches Err(Error::Api { status: s, message }) && s == Some(status) && message@
            == failure_message(status, body, doc)
    } else {
        match doc {
            None => r matches Err(Error::Json(m)) && m@ == "not a JSON document"@,
            Some(d) => match r {
                Ok(t) => token_exchange_of(d, Ok(t)),
                Err(Error::Other(m)) => token_exchange_gap(d) is Some && m@
                    == gap_text(token_exchange_gap(d)->0),
                Err(_) => false,
            },
        }
    }
}

impl Client {
    /// The server's address, without a slash at its end.
    pub closed spec fn base(&self) -> Seq<char> {
        self.base_url@
    }

    /// How long a request may take, in seconds.
    pub closed spec fn timeout(&self) -> u64 {
        self.timeout_secs
    }

    /// The token that requests carry, if any.
    pub closed spec fn bearer(&self) -> Option<Seq<char>> {
        opt_view(self.token)
    }

    /// A client for the server at `server_url`, without a token. The
    /// slashes at the end of the address are dropped.
    pub fn new(server_url: &str, timeout_secs: u64) -> (r: Result<Self, Error>)
        ensures
            r matches Ok(client) && client.base() == trimmed_end(server_url@, '/')
                && client.timeout() == timeout_secs && client.bearer() is None,
    {
        Ok(Client { base_url: trim_end(server_url, '/'), timeout_secs, token: None })
    }

    /// A client for the server of a stored context, with the context's
    /// timeout and token.
    pub fn from_context(ctx: &Context) -> (r: Result<Self, Error>)
        ensures
            r matches Ok(client) && client.base() == trimmed_end(ctx.server_url@, '/')
                && client.timeout() == ctx.timeout_secs && client.bearer() == opt_view(ctx.token),
    {
        Ok(
            Client {
                base_url: trim_end(ctx.server_url.as_str(), '/'),
                timeout_secs: ctx.timeout_secs,
                token: ctx.token.clone(),
            },
        )
    }

    /// The same client with `token` in place of its own.
    pub fn with_token(self, token: String) -> (client: Self)
        ensures
            client.base() == self.base(),
            client.timeout() == self.timeout(),
            client.bearer() == Some(token@),
    {
        Client { base_url: self.base_url, timeout_secs: self.timeout_secs, token: Some(token) }
    }

    /// The server's address.
    pub fn base_url(&self) -> (url: &str)
        ensures
            url@ == self.base(),
    {
        self.base_url.as_str()
    }

    /// How long a request may take, in seconds.
    pub fn timeout_secs(&self) -> (secs: u64)
        ensures
            secs == self.timeout(),
    {
        self.timeout_secs
    }

    /// The address of the resource at `path`.
    pub fn url(&self, path: &str) -> (url: String)
        ensures
            url@ == self.base() + path@,
    {
        join2(self.base_url.as_str(), path)
    }

    /// The headers that every request carries.
    pub fn headers(&self) -> (headers: Vec<(String, String)>)
        ensures
            crate::address::pairs_view(headers@) == request_headers(self.bearer()),
    {
        headers_with(&self.token)
    }

    /// The headers of the request that exchanges `oidc_token` for a service
    /// token.
    pub fn exchange_headers(&self, oidc_token: &str) -> (headers: Vec<(String, String)>)
        ensures
            crate::address::pairs_view(headers@) == exchange_headers(
                self.bearer(),
                oidc_token@,
            ),
    {
        let value = join2("Bearer ", oidc_token);
        if header_value_ok(value.as_str()) {
            headers_with(&Some(owned(oidc_token)))
        } else {
            headers_with(&self.token)
        }
    }

    /// The address of the server's description of itself.
    pub fn meta_url(&self) -> (url: String)
        ensures
            url@ == self.base() + "/api/v1/meta"@,
    {
        join2(self.base_url.as_str(), "/api/v1/meta")
    }

    /// The address that says who the user is.
    pub fn current_user_url(&self) -> (url: String)
        ensures
            url@ == self.base() + "/api/v1/me"@,
    {
        join2(self.base_url.as_str(), "/api/v1/me")
    }

    /// The address of the user's teams.
    pub fn teams_url(&self) -> (url: String)
        ensures
            url@ == self.base() + "/api/v1/me/teams"@,
    {
        join2(self.base_url.as_str(), "/api/v1/me/teams")
    }

    /// The address of the sources of a team.
    pub fn sources_url(&self, team_id: i64) -> (url: String)
        ensures
            url@ == self.base() + team_path(team_id) + "/sources"@,
    {
        let mut url = self.team_url(team_id);
        url.append("/sources");
        url
    }

    /// The address of the schema of a source.
    pub fn schema_url(&self, team_id: i64, source_id: i64) -> (url: String)
        ensures
            url@ == self.base() + source_path(team_id, source_id) + "/schema"@,
    {
        let mut url = self.source_url(team_id, source_id);
        url.append("/schema");
        url
    }

    /// The address that runs a query in the server's own language.
    pub fn logchefql_url(&self, team_id: i64, source_id: i64) -> (url: String)
        ensures
            url@ == self.base() + source_path(team_id, source_id) + "/logchefql/query"@,
    {
        let mut url = self.source_url(team_id, source_id);
        url.append("/logchefql/query");
        url
    }

    /// The address that runs a query in SQL.
    pub fn sql_url(&self, team_id: i64, source_id: i64) -> (url: String)
        ensures
            url@ == self.base() + source_path(team_id, source_id) + "/logs/query"@,
    {
        let mut url = self.source_url(team_id, source_id);
        url.append("/logs/query");
        url
    }

    /// The address of the saved queries of a source.
    pub fn collections_url(&self, team_id: i64, source_id: i64) -> (url: String)
        ensures
            url@ == self.base() + source_path(team_id, source_id) + "/collections"@,
    {
        let mut url = self.source_url(team_id, source_id);
        url.append("/collections");
        url
    }

    fn team_url(&self, team_id: i64) -> (url: String)
        ensures
            url@ == self.base() + team_path(team_id),
    {
        let id = i64_text(team_id);
        let mut url = self.base_url.clone();
        url.append("/api/v1/teams/");
        url.append(id.as_str());
        assert(url@ =~= self.base() + team_path(team_id));
        url
    }

    fn source_url(&self, team_id: i64, source_id: i64) -> (url: String)
        ensures
            url@ == self.base() + source_path(team_id, source_id),
    {
        let id = i64_text(source_id);
        let mut url = self.team_url(team_id);
        url.append("/sources/");
        url.append(id.as_str());
        assert(url@ =~= self.base() + source_path(team_id, source_id));
        url
    }

    /// The address that exchanges an ID token for a service token.
    pub fn exchange_token_url(&self) -> (url: String)
        ensures
            url@ == self.base() + "/api/v1/cli/token"@,
    {
        join2(self.base_url.as_str(), "/api/v1/cli/token")
    }

    /// What an answer with this status and body means: the document of a
    /// successful answer; for a failed one the server's message where the
    /// body carries one, else the status and the body.
    pub fn handle_response(status: u16, body: &str) -> (r: Result<Json, Error>)
        ensures
            response_meaning(status, body@, json_document(body@), r),
    {
        meaning_of(status, body, parse_json(body))
    }

    /// The service token that the answer to an exchange carries.
    pub fn read_token_exchange(status: u16, body: &str) -> (r: Result<TokenExchangeData, Error>)
        ensures
            token_exchange_outcome(status, body@, json_document(body@), r),
    {
        let doc = parse_json(body);
        if !status_is_success(status) {
            return Err(failure_of(status, body, &doc));
        }
        match doc {
            Some(doc) => match token_exchange_from_json(&doc) {
                Ok(t) => Ok(t),
                Err(name) => Err(Error::Other(gap_message(name.as_str()))),
            },
            None => Err(Error::Json(owned("not a JSON document"))),
        }
    }
}

fn headers_with(token: &Option<String>) -> (headers: Vec<(String, String)>)
    ensures
        crate::address::pairs_view(headers@) == request_headers(opt_view(*token)),
{
    let mut headers: Vec<(String, String)> = Vec::new();
    headers.push((owned("user-agent"), owned("logchef-cli/0.1.0")));
    headers.push((owned("content-type"), owned("application/json")));
    match token {
        Some(t) => {
            let value = join2("Bearer ", t.as_str());
            if header_value_ok(value.as_str()) {
                headers.push((owned("authorization"), value));
            }
        },
        None => {},
    }
    assert(crate::address::pairs_view(headers@) =~= request_headers(opt_view(*token)));
    headers
}

/// The error that a failed request amounts to: the status, and the
/// server's message where the body carries one, else the status and the
/// body as they came.
pub fn failure_of(status: u16, body: &str, doc: &Option<Json>) -> (e: Error)
    ensures
        e matches Error::Api { status: s, message } && s == Some(status) && message@
            == failure_message(status, body@, *doc),
{
    let from_body = match doc {
        Some(d) => if d.get_text("status").is_some() {
            d.get_text("message")
        } else {
            None
        },
        None => None,
    };
    let message = match from_body {
        Some(m) => m,
        None => {
            let digits = u64_text(status as u64);
            let mut m = owned("HTTP ");
            m.append(digits.as_str());
            m.append(": ");
            m.append(body);
            m
        },
    };
    Error::Api { status: Some(status), message }
}

/// What an answer means, given what its body read as.
pub fn meaning_of(status: u16, body: &str, doc: Option<Json>) -> (r: Result<Json, Error>)
    ensures
        response_meaning(status, body@, doc, r),
{
    if status_is_success(status) {
        match doc {
            Some(d) => Ok(d),
            None => {
                let mut m = owned("Failed to parse response: not a JSON document (body: ");
                m.append(body);
                m.append(")");
                Err(Error::Other(m))
            },
        }
    } else {
        Err(failure_of(status, body, &doc))
    }
}

} // verus!
