//! Why a login can fail, and how each failure is reported.

use vstd::prelude::*;
use crate::error::Error;
use crate::text::{decimal, join2, owned, u64_text};

verus! {

/// Why one request to a remote endpoint yielded nothing usable.
#[derive(Debug)]
pub enum ResponseFailure {
    /// The transport failed before an answer came; the text says how.
    Network(String),
    /// The answer's status was outside 200..=299.
    HttpStatus { code: u16, body: String },
    /// The answer's body was no JSON.
    Json,
    /// The body was JSON but lacked the named field.
    MissingField(String),
}

/// Why a login failed.
#[derive(Debug)]
pub enum AuthFailure {
    /// The platform's random source could not be read.
    Entropy,
    /// No local port could be bound, the one the system picks included.
    Bind,
    /// The identity provider's endpoints could not be learned.
    Discovery(ResponseFailure),
    /// No usable callback arrived before the deadline.
    CallbackTimeout,
    /// The callback's state was not the one this login generated.
    CsrfMismatch,
    /// The authorization code could not be redeemed for an ID token.
    CodeExchange(ResponseFailure),
    /// The ID token could not be exchanged for a service token; the error
    /// is the one that the server's client reported.
    ServiceExchange(Error),
}

/// The text that reports a failed discovery.
pub open spec fn discovery_text(why: ResponseFailure) -> Seq<char> {
    match why {
        ResponseFailure::Network(m) => "Failed to fetch OIDC configuration: "@ + m@,
        ResponseFailure::HttpStatus { code, body } => "OIDC discovery failed with status "@
            + decimal(code as nat),
        ResponseFailure::Json => "Failed to parse OIDC configuration: not a JSON document"@,
        ResponseFailure::MissingField(name) => "Failed to parse OIDC configuration: missing field "@
            + name@,
    }
}

/// The text that reports a failed redemption of the authorization code.
pub open spec fn code_exchange_text(why: ResponseFailure) -> Seq<char> {
    match why {
        ResponseFailure::Network(m) => "Token exchange request failed: "@ + m@,
        ResponseFailure::HttpStatus { code, body } => "Token exchange failed: "@ + body@,
        ResponseFailure::Json => "Failed to parse token response: not a JSON document"@,
        ResponseFailure::MissingField(name) => "No ID token in response"@,
    }
}

fn discovery_message(why: &ResponseFailure) -> (out: String)
    ensures
        out@ == discovery_text(*why),
{
    match why {
        ResponseFailure::Network(m) => join2("Failed to fetch OIDC configuration: ", m.as_str()),
        ResponseFailure::HttpStatus { code, body } => {
            let digits = u64_text(*code as u64);
            join2("OIDC discovery failed with status ", digits.as_str())
        },
        ResponseFailure::Json => owned("Failed to parse OIDC configuration: not a JSON document"),
        ResponseFailure::MissingField(name) => join2(
            "Failed to parse OIDC configuration: missing field ",
            name.as_str(),
        ),
    }
}

fn code_exchange_message(why: &ResponseFailure) -> (out: String)
    ensures
        out@ == code_exchange_text(*why),
{
    match why {
        ResponseFailure::Network(m) => join2("Token exchange request failed: ", m.as_str()),
        ResponseFailure::HttpStatus { code, body } => join2(
            "Token exchange failed: ",
            body.as_str(),
        ),
        ResponseFailure::Json => owned("Failed to parse token response: not a JSON document"),
        ResponseFailure::MissingField(name) => owned("No ID token in response"),
    }
}

impl AuthFailure {
    /// The text that tells this failure apart, as its report carries it.
    pub open spec fn text(self) -> Seq<char> {
        match self {
            AuthFailure::Entropy => "Failed to generate random bytes"@,
            AuthFailure::Bind => "Failed to start callback server"@,
            AuthFailure::Discovery(why) => discovery_text(why),
            AuthFailure::CallbackTimeout => Seq::empty(),
            AuthFailure::CsrfMismatch => "CSRF state mismatch"@,
            AuthFailure::CodeExchange(why) => code_exchange_text(why),
            AuthFailure::ServiceExchange(inner) => inner.message_text(),
        }
    }

    /// The text that the user is shown for this failure.
    pub open spec fn report_text(self) -> Seq<char> {
        match self {
            AuthFailure::Entropy | AuthFailure::Bind | AuthFailure::CsrfMismatch => {
                "Authentication failed: "@ + self.text()
            },
            AuthFailure::Discovery(_) | AuthFailure::CodeExchange(_) => "OAuth error: "@
                + self.text(),
            AuthFailure::CallbackTimeout => "Timeout waiting for authentication"@,
            AuthFailure::ServiceExchange(_) => self.text(),
        }
    }

    /// Whether `e` is the error that reports this failure.
    pub open spec fn reported_as(self, e: Error) -> bool {
        match self {
            AuthFailure::Entropy => e matches Error::Auth(m) && m@
                == "Failed to generate random bytes"@,
            AuthFailure::Bind => e matches Error::Auth(m) && m@
                == "Failed to start callback server"@,
            AuthFailure::Discovery(why) => e matches Error::OAuth(m) && m@ == discovery_text(why),
            AuthFailure::CallbackTimeout => e is AuthTimeout,
            AuthFailure::CsrfMismatch => e matches Error::Auth(m) && m@ == "CSRF state mismatch"@,
            AuthFailure::CodeExchange(why) => e matches Error::OAuth(m) && m@
                == code_exchange_text(why),
            AuthFailure::ServiceExchange(inner) => e == inner,
        }
    }

    /// The error that the invoking command reports for this failure. Its
    /// text is that of the failure, behind the words for its kind, and of
    /// nothing else.
    pub fn into_error(self) -> (e: Error)
        ensures
            self.reported_as(e),
            e.message_text() == self.report_text(),
    {
        match self {
            AuthFailure::Entropy => Error::auth("Failed to generate random bytes"),
            AuthFailure::Bind => Error::auth("Failed to start callback server"),
            AuthFailure::Discovery(why) => Error::OAuth(discovery_message(&why)),
            AuthFailure::CallbackTimeout => Error::AuthTimeout,
            AuthFailure::CsrfMismatch => Error::auth("CSRF state mismatch"),
            AuthFailure::CodeExchange(why) => Error::OAuth(code_exchange_message(&why)),
            AuthFailure::ServiceExchange(inner) => inner,
        }
    }
}

} // verus!
