//! The error type shared by every part of the library.

use vstd::prelude::*;
use crate::text::{join2, owned};

verus! {

/// What can go wrong in the client.
#[derive(Debug)]
pub enum Error {
    /// The stored configuration is unusable or an operation on it is refused.
    Config(String),
    /// No token is stored for the context in use.
    NotAuthenticated,
    /// The login flow failed on this machine.
    Auth(String),
    /// The server answered with an error.
    Api { status: Option<u16>, message: String },
    /// The transport failed; the text describes how.
    Network(String),
    /// A URL could not be parsed; the text describes why.
    InvalidUrl(String),
    /// A body was not the JSON that was expected; the text describes why.
    Json(String),
    /// Reading or writing a file failed; the text describes how.
    Io(String),
    /// The identity provider refused or garbled a step of the login.
    OAuth(String),
    /// No callback arrived before the deadline.
    AuthTimeout,
    /// The user gave up on the login.
    AuthCancelled,
    /// Anything else.
    Other(String),
}

/// What a fallible operation of this library gives.
pub type Result<T> = std::result::Result<T, Error>;

impl Error {
    /// The text shown to the user for this error.
    pub open spec fn message_text(&self) -> Seq<char> {
        match self {
            Error::Config(m) => "Configuration error: "@ + m@,
            Error::NotAuthenticated => "Not authenticated. Run 'logchef auth' to log in."@,
            Error::Auth(m) => "Authentication failed: "@ + m@,
            Error::Api { status, message } => "API error: "@ + message@,
            Error::Network(m) => "Network error: "@ + m@,
            Error::InvalidUrl(m) => "Invalid URL: "@ + m@,
            Error::Json(m) => "JSON error: "@ + m@,
            Error::Io(m) => "IO error: "@ + m@,
            Error::OAuth(m) => "OAuth error: "@ + m@,
            Error::AuthTimeout => "Timeout waiting for authentication"@,
            Error::AuthCancelled => "User cancelled authentication"@,
            Error::Other(m) => m@,
        }
    }

    /// A configuration error with the given text.
    pub fn config(msg: &str) -> (e: Self)
        ensures
            e matches Error::Config(m) && m@ == msg@,
    {
        Error::Config(owned(msg))
    }

    /// A login failure with the given text.
    pub fn auth(msg: &str) -> (e: Self)
        ensures
            e matches Error::Auth(m) && m@ == msg@,
    {
        Error::Auth(owned(msg))
    }

    /// A server-side error with its HTTP status, where one is known.
    pub fn api(status: Option<u16>, msg: &str) -> (e: Self)
        ensures
            e matches Error::Api { status: s, message: m } && s == status && m@ == msg@,
    {
        Error::Api { status, message: owned(msg) }
    }

    /// An identity-provider error with the given text.
    pub fn oauth(msg: &str) -> (e: Self)
        ensures
            e matches Error::OAuth(m) && m@ == msg@,
    {
        Error::OAuth(owned(msg))
    }

    /// An error of no particular kind with the given text.
    pub fn other(msg: &str) -> (e: Self)
        ensures
            e matches Error::Other(m) && m@ == msg@,
    {
        Error::Other(owned(msg))
    }

    /// The text shown to the user for this error.
    pub fn message(&self) -> (out: String)
        ensures
            out@ == self.message_text(),
    {
        match self {
            Error::Config(m) => join2("Configuration error: ", m.as_str()),
            Error::NotAuthenticated => owned("Not authenticated. Run 'logchef auth' to log in."),
            Error::Auth(m) => join2("Authentication failed: ", m.as_str()),
            Error::Api { status, message } => join2("API error: ", message.as_str()),
            Error::Network(m) => join2("Network error: ", m.as_str()),
            Error::InvalidUrl(m) => join2("Invalid URL: ", m.as_str()),
            Error::Json(m) => join2("JSON error: ", m.as_str()),
            Error::Io(m) => join2("IO error: ", m.as_str()),
            Error::OAuth(m) => join2("OAuth error: ", m.as_str()),
            Error::AuthTimeout => owned("Timeout waiting for authentication"),
            Error::AuthCancelled => owned("User cancelled authentication"),
            Error::Other(m) => owned(m.as_str()),
        }
    }
}

} // verus!
