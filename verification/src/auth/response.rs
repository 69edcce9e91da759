//! Reading the answers of the identity provider: the discovery document and
//! the token set.

use vstd::prelude::*;
use crate::auth::failure::ResponseFailure;
use crate::json::{Json, json_document, parse_json};
use crate::text::{opt_view, owned};

verus! {

/// Whether an HTTP status reports success: 200 to 299.
pub open spec fn is_success(status: u16) -> bool {
    200 <= status <= 299
}

/// Whether an HTTP status reports success.
pub fn status_is_success(status: u16) -> (ok: bool)
    ensures
        ok == is_success(status),
{
    200 <= status && status <= 299
}

/// What an answer with this status and body yields, given what the body
/// reads as: the document, or the reason why there is none.
pub open spec fn document_or_failure(
    status: u16,
    body: Seq<char>,
    doc: Option<Json>,
    r: Result<Json, ResponseFailure>,
) -> bool {
    match r {
        Ok(d) => is_success(status) && doc == Some(d),
        Err(ResponseFailure::HttpStatus { code, body: b }) => !is_success(status) && code == status
            && b@ == body,
        Err(ResponseFailure::Json) => is_success(status) && doc is None,
        Err(_) => false,
    }
}

/// The JSON document of an answer: a status outside 200..=299 is a failure
/// that carries the status and the body, a body that is no JSON is one too.
pub fn read_json_response(status: u16, body: &str) -> (r: Result<Json, ResponseFailure>)
    ensures
        document_or_failure(status, body@, json_document(body@), r),
{
    if !status_is_success(status) {
        return Err(ResponseFailure::HttpStatus { code: status, body: owned(body) });
    }
    match parse_json(body) {
        Some(doc) => Ok(doc),
        None => Err(ResponseFailure::Json),
    }
}

/// Where the identity provider takes authorization requests and where it
/// redeems codes.
#[derive(Debug)]
pub struct OidcConfig {
    pub authorization_endpoint: String,
    pub token_endpoint: String,
}

/// What a discovery document yields: both endpoints, or the name of the
/// first of the two that it lacks.
pub open spec fn discovery_of(doc: Json, r: Result<OidcConfig, ResponseFailure>) -> bool {
    match r {
        Ok(config) => {
            &&& doc.text_member("authorization_endpoint"@) == Some(config.authorization_endpoint@)
            &&& doc.text_member("token_endpoint"@) == Some(config.token_endpoint@)
        },
        Err(ResponseFailure::MissingField(name)) => {
            ||| doc.text_member("authorization_endpoint"@) is None && name@
                == "authorization_endpoint"@
            ||| doc.text_member("authorization_endpoint"@) is Some && doc.text_member(
                "token_endpoint"@,
            ) is None && name@ == "token_endpoint"@
        },
        Err(_) => false,
    }
}

/// The endpoints that a discovery document names. Both are required, as
/// strings.
pub fn discovery_from_json(doc: &Json) -> (r: Result<OidcConfig, ResponseFailure>)
    ensures
        discovery_of(*doc, r),
{
    let authorization_endpoint = match doc.get_text("authorization_endpoint") {
        Some(s) => s,
        None => {
            return Err(ResponseFailure::MissingField(owned("authorization_endpoint")));
        },
    };
    let token_endpoint = match doc.get_text("token_endpoint") {
        Some(s) => s,
        None => {
            return Err(ResponseFailure::MissingField(owned("token_endpoint")));
        },
    };
    Ok(OidcConfig { authorization_endpoint, token_endpoint })
}

/// What the answer to a discovery request yields, given what its body
/// reads as.
pub open spec fn discovery_outcome(
    status: u16,
    body: Seq<char>,
    doc: Option<Json>,
    r: Result<OidcConfig, ResponseFailure>,
) -> bool {
    if !is_success(status) {
        r matches Err(ResponseFailure::HttpStatus { code, body: b }) && code == status && b@
            == body
    } else {
        match doc {
            None => r matches Err(ResponseFailure::Json),
            Some(d) => discovery_of(d, r),
        }
    }
}

/// The endpoints that the answer to a discovery request names. It fails
/// where the status is outside 200..=299, where the body is no JSON and
/// where either endpoint is missing.
pub fn read_discovery(status: u16, body: &str) -> (r: Result<OidcConfig, ResponseFailure>)
    ensures
        discovery_outcome(status, body@, json_document(body@), r),
{
    match read_json_response(status, body) {
        Ok(doc) => discovery_from_json(&doc),
        Err(why) => Err(why),
    }
}

/// What the token endpoint hands out for an authorization code.
#[derive(Debug)]
pub struct TokenSet {
    pub id_token: String,
    pub access_token: Option<String>,
    pub refresh_token: Option<String>,
    pub expires_in: Option<i64>,
}

/// What a token answer yields: the tokens, or the report that the ID token
/// is missing.
pub open spec fn token_set_of(doc: Json, r: Result<TokenSet, ResponseFailure>) -> bool {
    match r {
        Ok(tokens) => {
            &&& doc.text_member("id_token"@) == Some(tokens.id_token@)
            &&& doc.text_member("access_token"@) == opt_view(tokens.access_token)
            &&& doc.text_member("refresh_token"@) == opt_view(tokens.refresh_token)
            &&& doc.integer_member("expires_in"@) == tokens.expires_in
        },
        Err(ResponseFailure::MissingField(name)) => doc.text_member("id_token"@) is None && name@
            == "id_token"@,
        Err(_) => false,
    }
}

/// The tokens of a token answer. The ID token is required, as a string; the
/// others are taken where they are there.
pub fn token_set_from_json(doc: &Json) -> (r: Result<TokenSet, ResponseFailure>)
    ensures
        token_set_of(*doc, r),
{
    let id_token = match doc.get_text("id_token") {
        Some(s) => s,
        None => {
            return Err(ResponseFailure::MissingField(owned("id_token")));
        },
    };
    Ok(
        TokenSet {
            id_token,
            access_token: doc.get_text("access_token"),
            refresh_token: doc.get_text("refresh_token"),
            expires_in: doc.get_integer("expires_in"),
        },
    )
}

/// What the answer of the token endpoint yields, given what its body reads
/// as.
pub open spec fn token_outcome(
    status: u16,
    body: Seq<char>,
    doc: Option<Json>,
    r: Result<TokenSet, ResponseFailure>,
) -> bool {
    if !is_success(status) {
        r matches Err(ResponseFailure::HttpStatus { code, body: b }) && code == status && b@
            == body
    } else {
        match doc {
            None => r matches Err(ResponseFailure::Json),
            Some(d) => token_set_of(d, r),
        }
    }
}

/// The tokens that the token endpoint answered with. It fails where the
/// status is outside 200..=299, where the body is no JSON and where the ID
/// token is missing.
pub fn read_token_response(status: u16, body: &str) -> (r: Result<TokenSet, ResponseFailure>)
    ensures
        token_outcome(status, body@, json_document(body@), r),
{
    match read_json_response(status, body) {
        Ok(doc) => token_set_from_json(&doc),
        Err(why) => Err(why),
    }
}

} // verus!
