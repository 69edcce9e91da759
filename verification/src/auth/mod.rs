//! The browser login: authorization code with PKCE over a loopback redirect.
//!
//! The login is a state machine. [`AuthFlow::step`] takes the state and what
//! just happened and gives the next state and what to do next; whoever
//! drives it binds the port, talks to the network and watches the clock.

pub mod callback;
pub mod failure;
pub mod guarantees;
pub mod request;
pub mod response;
pub mod secrets;

use vstd::prelude::*;
use crate::address::pairs_view;
use crate::api::{Client, exchange_headers, token_exchange_outcome};
use crate::api::models::TokenExchangeData;
use crate::auth::failure::{AuthFailure, ResponseFailure};
use crate::auth::request::{
    authorization_url, authorization_url_text, redirect_uri, redirect_uri_text, token_form_fields,
    token_request_form,
};
use crate::auth::response::{
    discovery_outcome, OidcConfig, read_discovery, read_token_response, token_outcome, TokenSet,
};
use crate::auth::secrets::{all_url_safe, generate_pkce, generate_state, pkce_pair, state_token};
use crate::clock::now_secs;
use crate::error::Error;
use crate::json::json_document;
use crate::text::{join2, text_eq, trim_end, trimmed_end};

verus! {

/// How long the login waits for the callback, in seconds.
pub const CALLBACK_TIMEOUT_SECS: u64 = 300;

/// How long one request to the identity provider or to the server may
/// take, in seconds.
pub const CALL_TIMEOUT_SECS: u64 = 30;

/// A login against one server: the server, the identity provider that it
/// trusts and the client id that it gave to command-line clients.
#[derive(Debug)]
pub struct AuthFlow {
    server_url: String,
    oidc_issuer: String,
    client_id: String,
}

/// What a login ends with: the service token, when it expires and whom it
/// was minted for.
#[derive(Debug)]
pub struct AuthResult {
    pub token: String,
    pub expires_at: Option<String>,
    pub user_email: Option<String>,
}

/// What one login holds while it runs: where the browser comes back to,
/// the secrets, and the instant, in seconds since the epoch, until which
/// the callback is waited for. It is made once the endpoints are known and
/// dropped when the authorization code is handed in. The verifier cannot
/// be read from outside: it leaves the session once, in the form that
/// redeems the code. Neither the session nor what holds it can be
/// printed.
pub struct FlowSession {
    redirect_uri: String,
    pkce_verifier: String,
    pkce_challenge: String,
    csrf_state: String,
    deadline_secs: u64,
}

impl FlowSession {
    /// The address that the browser comes back to.
    pub closed spec fn kept_redirect(&self) -> Seq<char> {
        self.redirect_uri@
    }

    /// The verifier that the challenge belongs to.
    pub closed spec fn kept_verifier(&self) -> Seq<char> {
        self.pkce_verifier@
    }

    /// The challenge that the authorization request carries.
    pub closed spec fn kept_challenge(&self) -> Seq<char> {
        self.pkce_challenge@
    }

    /// The state that the callback must bring back.
    pub closed spec fn kept_state(&self) -> Seq<char> {
        self.csrf_state@
    }

    /// The instant until which the callback is waited for.
    pub closed spec fn kept_deadline(&self) -> u64 {
        self.deadline_secs
    }

    /// The address that the browser comes back to.
    pub fn redirect_uri(&self) -> (uri: &str)
        ensures
            uri@ == self.kept_redirect(),
    {
        self.redirect_uri.as_str()
    }

    /// The challenge that the authorization request carries.
    pub fn pkce_challenge(&self) -> (challenge: &str)
        ensures
            challenge@ == self.kept_challenge(),
    {
        self.pkce_challenge.as_str()
    }

    /// The state that the callback must bring back.
    pub fn csrf_state(&self) -> (state: &str)
        ensures
            state@ == self.kept_state(),
    {
        self.csrf_state.as_str()
    }

    /// The instant until which the callback is waited for, in seconds since
    /// the epoch.
    pub fn deadline_secs(&self) -> (at: u64)
        ensures
            at == self.kept_deadline(),
    {
        self.deadline_secs
    }
}

/// Where a login stands.
pub enum FlowState {
    Idle,
    PortBound { port: u16 },
    AuthUrlOpened { session: FlowSession, token_endpoint: String },
    AwaitingCallback { session: FlowSession, token_endpoint: String },
    CodeReceived,
    CodeExchanged,
    ServiceTokenExchanged { result: AuthResult },
    Failed { reason: AuthFailure },
    TimedOut,
}

impl FlowState {
    /// Why the login failed, where it did.
    pub open spec fn failure(self) -> Option<AuthFailure> {
        match self {
            FlowState::Failed { reason } => Some(reason),
            FlowState::TimedOut => Some(AuthFailure::CallbackTimeout),
            _ => None,
        }
    }

    /// Whether the login is over.
    pub open spec fn is_final(self) -> bool {
        self is Failed || self is TimedOut || self is ServiceTokenExchanged
    }

    /// Whether the login is over.
    pub fn finished(&self) -> (over: bool)
        ensures
            over == self.is_final(),
    {
        match self {
            FlowState::Failed { .. } | FlowState::TimedOut
            | FlowState::ServiceTokenExchanged { .. } => true,
            _ => false,
        }
    }

    /// What a login that is over ended with: the result, or the error to
    /// report. Nothing while the login runs.
    pub fn outcome(self) -> (r: Option<Result<AuthResult, Error>>)
        ensures
            match r {
                Some(Ok(result)) => self == (FlowState::ServiceTokenExchanged { result }),
                Some(Err(e)) => self.failure() is Some && self.failure()->0.reported_as(e),
                None => !self.is_final(),
            },
    {
        match self {
            FlowState::ServiceTokenExchanged { result } => Some(Ok(result)),
            FlowState::Failed { reason } => Some(Err(reason.into_error())),
            FlowState::TimedOut => Some(Err(AuthFailure::CallbackTimeout.into_error())),
            _ => None,
        }
    }
}

/// What happened since the last step.
#[derive(Debug)]
pub enum FlowEvent {
    /// The login begins.
    Start,
    /// The port of the attempt could not be bound.
    BindRefused { attempt: usize },
    /// The listener is bound to `port`.
    Bound { port: u16 },
    /// The identity provider answered the discovery request.
    DiscoveryAnswer { status: u16, body: String },
    /// The discovery request got no answer.
    DiscoveryUnreachable { reason: String },
    /// The browser was pointed at the authorization URL, or could not be.
    BrowserAttempted { opened: bool },
    /// The listener received a request with a code and a state.
    Callback { code: String, state: String },
    /// The time for the callback is over.
    DeadlinePassed,
    /// The token endpoint answered.
    TokenAnswer { status: u16, body: String },
    /// The token endpoint gave no answer.
    TokenUnreachable { reason: String },
    /// The server answered the exchange of the ID token.
    ServiceAnswer { status: u16, body: String },
    /// The server gave no answer.
    ServiceUnreachable { reason: String },
}

/// What to do next.
pub enum FlowAction {
    /// Bind the loopback address at `port`; zero lets the system pick.
    Bind { attempt: usize, port: u16 },
    /// Fetch the discovery document, within the time given.
    Discover { url: String, timeout_secs: u64 },
    /// Show the URL and try to open it in the browser.
    OpenBrowser { url: String },
    /// Serve callbacks until one completes or the deadline has come, an
    /// instant in seconds since the epoch.
    Listen { deadline_secs: u64 },
    /// Post the form to the token endpoint, within the time given.
    ExchangeCode { endpoint: String, form: Vec<(String, String)>, timeout_secs: u64 },
    /// Post to the server with these headers, within the time given.
    ExchangeToken { url: String, headers: Vec<(String, String)>, timeout_secs: u64 },
    /// Release the listener; the login succeeded.
    Finish,
    /// Release the listener; the login failed.
    Abort,
    /// The event does not belong to the state: nothing changes.
    Nothing,
}

/// The port of the `attempt`-th try to bind: three fixed ports, then zero,
/// which lets the system pick; after that there is none.
pub open spec fn candidate_port_at(attempt: int) -> Option<u16> {
    if attempt == 0 {
        Some(19876u16)
    } else if attempt == 1 {
        Some(19877u16)
    } else if attempt == 2 {
        Some(19878u16)
    } else if attempt == 3 {
        Some(0u16)
    } else {
        None
    }
}

/// The port of the `attempt`-th try to bind.
pub fn candidate_port(attempt: usize) -> (port: Option<u16>)
    ensures
        port == candidate_port_at(attempt as int),
{
    if attempt == 0 {
        Some(19876)
    } else if attempt == 1 {
        Some(19877)
    } else if attempt == 2 {
        Some(19878)
    } else if attempt == 3 {
        Some(0)
    } else {
        None
    }
}

/// The address of an issuer's discovery document.
pub open spec fn discovery_url_text(issuer: Seq<char>) -> Seq<char> {
    trimmed_end(issuer, '/') + "/.well-known/openid-configuration"@
}

/// The address of an issuer's discovery document: the issuer without the
/// slashes at its end, then the well-known path.
pub fn discovery_url(issuer: &str) -> (url: String)
    ensures
        url@ == discovery_url_text(issuer@),
{
    let base = trim_end(issuer, '/');
    join2(base.as_str(), "/.well-known/openid-configuration")
}

/// The instant that lies `timeout_secs` seconds after `now`, in seconds
/// since the epoch; the last instant there is where that would lie beyond
/// it.
pub open spec fn deadline_after(now: u64, timeout_secs: u64) -> u64 {
    if now + timeout_secs > u64::MAX {
        u64::MAX
    } else {
        (now + timeout_secs) as u64
    }
}

/// The instant that lies `timeout_secs` seconds after `now`.
pub fn deadline(now: u64, timeout_secs: u64) -> (at: u64)
    ensures
        at == deadline_after(now, timeout_secs),
{
    now.saturating_add(timeout_secs)
}

/// How long is left until `deadline`, at `now`, in seconds.
pub fn remaining(deadline_secs: u64, now: u64) -> (left: u64)
    ensures
        left == (if now >= deadline_secs {
            0
        } else {
            deadline_secs - now
        }),
{
    deadline_secs.saturating_sub(now)
}

/// Whether a session is one that a login makes for a listener on `port`:
/// the redirect address names the port, the challenge belongs to the
/// verifier, verifier and state encode 32 and 16 bytes, all three may stand
/// in a URL as they are, and the deadline lies five minutes after some
/// reading of the clock.
pub open spec fn fresh_session(session: FlowSession, port: u16) -> bool {
    &&& session.kept_redirect() == redirect_uri_text(port)
    &&& pkce_pair(session.kept_verifier(), session.kept_challenge())
    &&& state_token(session.kept_state())
    &&& session.kept_verifier().len() > 0
    &&& session.kept_state().len() > 0
    &&& all_url_safe(session.kept_verifier())
    &&& all_url_safe(session.kept_challenge())
    &&& all_url_safe(session.kept_state())
    &&& exists|now: u64|
        session.kept_deadline() == #[trigger] deadline_after(now, CALLBACK_TIMEOUT_SECS)
}

/// What a login ends with, given the service token.
pub open spec fn result_of(data: TokenExchangeData, result: AuthResult) -> bool {
    &&& result.token == data.token
    &&& result.expires_at == data.expires_at
    &&& match data.user {
        Some(user) => result.user_email == Some(user.email),
        None => result.user_email is None,
    }
}

impl AuthFlow {
    /// The server that the login is for.
    pub closed spec fn server(&self) -> Seq<char> {
        self.server_url@
    }

    /// The identity provider.
    pub closed spec fn issuer(&self) -> Seq<char> {
        self.oidc_issuer@
    }

    /// The client id.
    pub closed spec fn client(&self) -> Seq<char> {
        self.client_id@
    }

    /// A login against `server_url` through the identity provider
    /// `oidc_issuer`, as the client `client_id`.
    pub fn new(server_url: String, oidc_issuer: String, client_id: String) -> (flow: Self)
        ensures
            flow.server() == server_url@,
            flow.issuer() == oidc_issuer@,
            flow.client() == client_id@,
    {
        AuthFlow { server_url, oidc_issuer, client_id }
    }

    /// The step from `Idle` on a refused bind: the next candidate port, or
    /// failure once the last one, which the system picks, was refused.
    pub open spec fn after_refusal(attempt: usize, next: FlowState, action: FlowAction) -> bool {
        match candidate_port_at(attempt + 1) {
            Some(p) => {
                &&& next is Idle
                &&& action matches FlowAction::Bind { attempt: a, port }
                &&& a == attempt + 1
                &&& port == p
            },
            None => next matches FlowState::Failed { reason } && reason is Bind && action is Abort,
        }
    }

    /// The step from `PortBound` on the discovery's outcome: a fresh session
    /// is made and the browser is sent to the authorization URL; or the
    /// login fails, with the discovery's failure, or with that of the random
    /// source where the discovery went well and the source gave nothing.
    pub open spec fn after_discovery(
        &self,
        port: u16,
        found: Result<OidcConfig, ResponseFailure>,
        next: FlowState,
        action: FlowAction,
    ) -> bool {
        match found {
            Ok(config) => match next {
                FlowState::AuthUrlOpened { session, token_endpoint } => {
                    &&& fresh_session(session, port)
                    &&& token_endpoint == config.token_endpoint
                    &&& action matches FlowAction::OpenBrowser { url }
                    &&& url@ == authorization_url_text(
                        config.authorization_endpoint@,
                        self.client(),
                        session.kept_redirect(),
                        session.kept_state(),
                        session.kept_challenge(),
                    )
                },
                FlowState::Failed { reason } => reason is Entropy && action is Abort,
                _ => false,
            },
            Err(why) => {
                &&& next matches FlowState::Failed { reason }
                &&& reason matches AuthFailure::Discovery(w)
                &&& w == why
                &&& action is Abort
            },
        }
    }

    /// The step from `AwaitingCallback` on a callback: the code is redeemed
    /// where the callback's state is the session's, exactly; else the login
    /// fails and nothing is sent.
    pub open spec fn after_callback(
        &self,
        session: FlowSession,
        token_endpoint: String,
        code: Seq<char>,
        state: Seq<char>,
        next: FlowState,
        action: FlowAction,
    ) -> bool {
        if state == session.kept_state() {
            &&& next is CodeReceived
            &&& action matches FlowAction::ExchangeCode { endpoint, form, timeout_secs }
            &&& timeout_secs == CALL_TIMEOUT_SECS
            &&& endpoint == token_endpoint
            &&& pairs_view(form@) == token_form_fields(
                self.client(),
                code,
                session.kept_redirect(),
                session.kept_verifier(),
            )
        } else {
            &&& next matches FlowState::Failed { reason }
            &&& reason is CsrfMismatch
            &&& action is Abort
        }
    }

    /// The step from `CodeReceived` on the token endpoint's outcome: the ID
    /// token is sent to the server as a bearer credential, or the login
    /// fails.
    pub open spec fn after_tokens(
        &self,
        found: Result<TokenSet, ResponseFailure>,
        next: FlowState,
        action: FlowAction,
    ) -> bool {
        match found {
            Ok(tokens) => {
                &&& next is CodeExchanged
                &&& action matches FlowAction::ExchangeToken { url, headers, timeout_secs }
                &&& timeout_secs == CALL_TIMEOUT_SECS
                &&& url@ == trimmed_end(self.server(), '/') + "/api/v1/cli/token"@
                &&& pairs_view(headers@) == exchange_headers(None, tokens.id_token@)
            },
            Err(why) => {
                &&& next matches FlowState::Failed { reason }
                &&& reason matches AuthFailure::CodeExchange(w)
                &&& w == why
                &&& action is Abort
            },
        }
    }

    /// The step from `CodeExchanged` on the server's outcome: success with
    /// the service token, or failure with the server client's error.
    pub open spec fn after_service(
        found: Result<TokenExchangeData, Error>,
        next: FlowState,
        action: FlowAction,
    ) -> bool {
        match found {
            Ok(data) => {
                &&& next matches FlowState::ServiceTokenExchanged { result }
                &&& result_of(data, result)
                &&& action is Finish
            },
            Err(e) => {
                &&& next matches FlowState::Failed { reason }
                &&& reason matches AuthFailure::ServiceExchange(inner)
                &&& inner == e
                &&& action is Abort
            },
        }
    }

    /// Whether the login may go from `state` to `next` with `action` when
    /// `event` happens.
    pub open spec fn steps_to(
        &self,
        state: FlowState,
        event: FlowEvent,
        next: FlowState,
        action: FlowAction,
    ) -> bool {
        match (state, event) {
            (FlowState::Idle, FlowEvent::Start) => {
                &&& next is Idle
                &&& action matches FlowAction::Bind { attempt, port }
                &&& attempt == 0
                &&& port == 19876
            },
            (FlowState::Idle, FlowEvent::BindRefused { attempt }) => Self::after_refusal(
                attempt,
                next,
                action,
            ),
            (FlowState::Idle, FlowEvent::Bound { port }) => {
                &&& next matches FlowState::PortBound { port: bound }
                &&& bound == port
                &&& action matches FlowAction::Discover { url, timeout_secs }
                &&& url@ == discovery_url_text(self.issuer())
                &&& timeout_secs == CALL_TIMEOUT_SECS
            },
            (
                FlowState::PortBound { port },
                FlowEvent::DiscoveryAnswer { status, body },
            ) => exists|found: Result<OidcConfig, ResponseFailure>|
                #![trigger discovery_outcome(status, body@, json_document(body@), found)]
                discovery_outcome(status, body@, json_document(body@), found)
                    && self.after_discovery(port, found, next, action),
            (
                FlowState::PortBound { port },
                FlowEvent::DiscoveryUnreachable { reason },
            ) => self.after_discovery(port, Err(ResponseFailure::Network(reason)), next, action),
            (
                FlowState::AuthUrlOpened { session, token_endpoint },
                FlowEvent::BrowserAttempted { opened },
            ) => {
                &&& next matches FlowState::AwaitingCallback { session: s, token_endpoint: t }
                &&& s == session
                &&& t == token_endpoint
                &&& action matches FlowAction::Listen { deadline_secs }
                &&& deadline_secs == session.kept_deadline()
            },
            (
                FlowState::AwaitingCallback { session, token_endpoint },
                FlowEvent::Callback { code, state: received },
            ) => self.after_callback(session, token_endpoint, code@, received@, next, action),
            (FlowState::AwaitingCallback { session, token_endpoint }, FlowEvent::DeadlinePassed) => {
                next is TimedOut && action is Abort
            },
            (
                FlowState::CodeReceived,
                FlowEvent::TokenAnswer { status, body },
            ) => exists|found: Result<TokenSet, ResponseFailure>|
                #![trigger token_outcome(status, body@, json_document(body@), found)]
                token_outcome(status, body@, json_document(body@), found) && self.after_tokens(
                    found,
                    next,
                    action,
                ),
            (FlowState::CodeReceived, FlowEvent::TokenUnreachable { reason }) => self.after_tokens(
                Err(ResponseFailure::Network(reason)),
                next,
                action,
            ),
            (
                FlowState::CodeExchanged,
                FlowEvent::ServiceAnswer { status, body },
            ) => exists|found: Result<TokenExchangeData, Error>|
                #![trigger token_exchange_outcome(status, body@, json_document(body@), found)]
                token_exchange_outcome(status, body@, json_document(body@), found)
                    && Self::after_service(found, next, action),
            (
                FlowState::CodeExchanged,
                FlowEvent::ServiceUnreachable { reason },
            ) => Self::after_service(Err(Error::Network(reason)), next, action),
            _ => next == state && action is Nothing,
        }
    }

    fn discovered(&self, port: u16, found: Result<OidcConfig, ResponseFailure>) -> (r: (
        FlowState,
        FlowAction,
    ))
        ensures
            self.after_discovery(port, found, r.0, r.1),
    {
        let config = match found {
            Ok(config) => config,
            Err(why) => {
                return (
                    FlowState::Failed { reason: AuthFailure::Discovery(why) },
                    FlowAction::Abort,
                );
            },
        };
        let pair = match generate_pkce() {
            Ok(pair) => pair,
            Err(reason) => {
                return (FlowState::Failed { reason }, FlowAction::Abort);
            },
        };
        let csrf_state = match generate_state() {
            Ok(s) => s,
            Err(reason) => {
                return (FlowState::Failed { reason }, FlowAction::Abort);
            },
        };
        let session = FlowSession {
            redirect_uri: redirect_uri(port),
            pkce_verifier: pair.0,
            pkce_challenge: pair.1,
            csrf_state,
            deadline_secs: deadline(now_secs(), CALLBACK_TIMEOUT_SECS),
        };
        let url = authorization_url(
            config.authorization_endpoint.as_str(),
            self.client_id.as_str(),
            session.redirect_uri.as_str(),
            session.csrf_state.as_str(),
            session.pkce_challenge.as_str(),
        );
        (
            FlowState::AuthUrlOpened { session, token_endpoint: config.token_endpoint },
            FlowAction::OpenBrowser { url },
        )
    }

    fn called_back(
        &self,
        session: FlowSession,
        token_endpoint: String,
        code: String,
        received: String,
    ) -> (r: (FlowState, FlowAction))
        ensures
            self.after_callback(session, token_endpoint, code@, received@, r.0, r.1),
    {
        if text_eq(received.as_str(), session.csrf_state.as_str()) {
            let form = token_request_form(
                self.client_id.as_str(),
                code.as_str(),
                session.redirect_uri.as_str(),
                session.pkce_verifier.as_str(),
            );
            (
                FlowState::CodeReceived,
                FlowAction::ExchangeCode {
                    endpoint: token_endpoint,
                    form,
                    timeout_secs: CALL_TIMEOUT_SECS,
                },
            )
        } else {
            (FlowState::Failed { reason: AuthFailure::CsrfMismatch }, FlowAction::Abort)
        }
    }

    fn redeemed(&self, found: Result<TokenSet, ResponseFailure>) -> (r: (FlowState, FlowAction))
        ensures
            self.after_tokens(found, r.0, r.1),
    {
        match found {
            Ok(tokens) => match Client::new(self.server_url.as_str(), CALL_TIMEOUT_SECS) {
                Ok(client) => {
                    let url = client.exchange_token_url();
                    let headers = client.exchange_headers(tokens.id_token.as_str());
                    let timeout_secs = client.timeout_secs();
                    (
                        FlowState::CodeExchanged,
                        FlowAction::ExchangeToken { url, headers, timeout_secs },
                    )
                },
                Err(e) => (
                    FlowState::Failed { reason: AuthFailure::ServiceExchange(e) },
                    FlowAction::Abort,
                ),
            },
            Err(why) => (
                FlowState::Failed { reason: AuthFailure::CodeExchange(why) },
                FlowAction::Abort,
            ),
        }
    }

    fn minted(found: Result<TokenExchangeData, Error>) -> (r: (FlowState, FlowAction))
        ensures
            Self::after_service(found, r.0, r.1),
    {
        match found {
            Ok(data) => {
                let user_email = match data.user {
                    Some(user) => Some(user.email),
                    None => None,
                };
                let result = AuthResult {
                    token: data.token,
                    expires_at: data.expires_at,
                    user_email,
                };
                (FlowState::ServiceTokenExchanged { result }, FlowAction::Finish)
            },
            Err(e) => (
                FlowState::Failed { reason: AuthFailure::ServiceExchange(e) },
                FlowAction::Abort,
            ),
        }
    }

    /// The next state of the login and what to do next, when `event`
    /// happens in `state`. An event that does not belong to the state
    /// changes nothing; so the three final states are never left.
    pub fn step(&self, state: FlowState, event: FlowEvent) -> (r: (FlowState, FlowAction))
        ensures
            self.steps_to(state, event, r.0, r.1),
    {
        match (state, event) {
            (FlowState::Idle, FlowEvent::Start) => (
                FlowState::Idle,
                FlowAction::Bind { attempt: 0, port: 19876 },
            ),
            (FlowState::Idle, FlowEvent::BindRefused { attempt }) => {
                if attempt < 3 {
                    match candidate_port(attempt + 1) {
                        Some(port) => (
                            FlowState::Idle,
                            FlowAction::Bind { attempt: attempt + 1, port },
                        ),
                        None => (FlowState::Failed { reason: AuthFailure::Bind }, FlowAction::Abort),
                    }
                } else {
                    (FlowState::Failed { reason: AuthFailure::Bind }, FlowAction::Abort)
                }
            },
            (FlowState::Idle, FlowEvent::Bound { port }) => {
                let url = discovery_url(self.oidc_issuer.as_str());
                (
                    FlowState::PortBound { port },
                    FlowAction::Discover { url, timeout_secs: CALL_TIMEOUT_SECS },
                )
            },
            (FlowState::PortBound { port }, FlowEvent::DiscoveryAnswer { status, body }) => {
                let found = read_discovery(status, body.as_str());
                self.discovered(port, found)
            },
            (FlowState::PortBound { port }, FlowEvent::DiscoveryUnreachable { reason }) => {
                self.discovered(port, Err(ResponseFailure::Network(reason)))
            },
            (
                FlowState::AuthUrlOpened { session, token_endpoint },
                FlowEvent::BrowserAttempted { opened },
            ) => {
                let deadline_secs = session.deadline_secs;
                (
                    FlowState::AwaitingCallback { session, token_endpoint },
                    FlowAction::Listen { deadline_secs },
                )
            },
            (
                FlowState::AwaitingCallback { session, token_endpoint },
                FlowEvent::Callback { code, state: received },
            ) => self.called_back(session, token_endpoint, code, received),
            (FlowState::AwaitingCallback { session, token_endpoint }, FlowEvent::DeadlinePassed) => (
                FlowState::TimedOut,
                FlowAction::Abort,
            ),
            (FlowState::CodeReceived, FlowEvent::TokenAnswer { status, body }) => {
                let found = read_token_response(status, body.as_str());
                self.redeemed(found)
            },
            (FlowState::CodeReceived, FlowEvent::TokenUnreachable { reason }) => self.redeemed(
                Err(ResponseFailure::Network(reason)),
            ),
            (FlowState::CodeExchanged, FlowEvent::ServiceAnswer { status, body }) => {
                let found = Client::read_token_exchange(status, body.as_str());
                Self::minted(found)
            },
            (FlowState::CodeExchanged, FlowEvent::ServiceUnreachable { reason }) => Self::minted(
                Err(Error::Network(reason)),
            ),
            (state, _) => (state, FlowAction::Nothing),
        }
    }
}

} // verus!
