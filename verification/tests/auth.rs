use std::collections::HashSet;

use base64::Engine;
use sha2::Digest;

use logchef::auth::callback::{http_response, serve_pairs, serve_request, value_of, Served};
use logchef::auth::failure::{AuthFailure, ResponseFailure};
use logchef::auth::request::{authorization_url, redirect_uri, token_request_form};
use logchef::auth::response::{
    discovery_from_json, read_discovery, read_json_response, read_token_response,
    status_is_success, token_set_from_json,
};
use logchef::auth::secrets::{
    challenge_for, generate_pkce, generate_state, pkce_from_seed, state_from_seed,
};
use logchef::auth::{
    candidate_port, deadline, discovery_url, remaining, AuthFlow, FlowAction, FlowEvent,
    FlowState, CALLBACK_TIMEOUT_SECS, CALL_TIMEOUT_SECS,
};
use logchef::error::Error;
use logchef::json::parse_json;

fn url_safe(s: &str) -> bool {
    s.chars().all(|c| c.is_ascii_alphanumeric() || c == '-' || c == '_' || c == '.' || c == '~')
}

fn flow() -> AuthFlow {
    AuthFlow::new("https://logs.example/".to_string(), "https://idp/".to_string(), "cli".to_string())
}

fn pairs(items: &[(&str, &str)]) -> Vec<(String, String)> {
    items.iter().map(|(k, v)| (k.to_string(), v.to_string())).collect()
}

const DISCOVERY: &str =
    "{\"authorization_endpoint\":\"https://idp/auth\",\"token_endpoint\":\"https://idp/token\"}";

/// Drives a login up to the point where it waits for the callback.
fn awaiting(flow: &AuthFlow) -> FlowState {
    let (state, action) = flow.step(FlowState::Idle, FlowEvent::Bound { port: 19876 });
    assert!(matches!(action, FlowAction::Discover { .. }));
    let (state, action) = flow.step(
        state,
        FlowEvent::DiscoveryAnswer { status: 200, body: DISCOVERY.to_string() },
    );
    assert!(matches!(action, FlowAction::OpenBrowser { .. }));
    let (state, action) = flow.step(state, FlowEvent::BrowserAttempted { opened: true });
    assert!(matches!(action, FlowAction::Listen { .. }));
    state
}

#[test]
fn generated_secrets_are_url_safe_and_do_not_collide() {
    let mut verifiers = HashSet::new();
    let mut states = HashSet::new();
    for _ in 0..10_000 {
        let (verifier, challenge) = generate_pkce().unwrap();
        let state = generate_state().unwrap();
        assert_eq!(verifier.len(), 43);
        assert_eq!(challenge.len(), 43);
        assert_eq!(state.len(), 22);
        assert!(url_safe(&verifier));
        assert!(url_safe(&challenge));
        assert!(url_safe(&state));
        assert!(verifiers.insert(verifier));
        assert!(states.insert(state));
    }
}

#[test]
fn challenge_is_the_encoded_digest_of_the_verifier() {
    for _ in 0..100 {
        let (verifier, challenge) = generate_pkce().unwrap();
        let digest = sha2::Sha256::digest(verifier.as_bytes());
        let expected = base64::engine::general_purpose::URL_SAFE_NO_PAD.encode(digest);
        assert_eq!(challenge, expected);
        assert_eq!(challenge_for(&verifier), expected);
    }
}

#[test]
fn challenge_of_the_published_example() {
    assert_eq!(
        challenge_for("dBjftJeZ4CVP-mB92K27uhbUJU1p1r_wW1gFWFOEjXk"),
        "E9Melhoa2OwvFrEMTJguCHaoeK1t8URWbuGJSstw-cM"
    );
}

#[test]
fn pkce_from_known_seed() {
    let seed: Vec<u8> = vec![
        116, 24, 223, 180, 151, 153, 224, 37, 79, 250, 96, 125, 216, 173, 187, 186, 22, 212, 37, 77,
        105, 214, 191, 240, 91, 88, 5, 88, 83, 132, 141, 121,
    ];
    let (verifier, challenge) = pkce_from_seed(&seed);
    assert_eq!(verifier, "dBjftJeZ4CVP-mB92K27uhbUJU1p1r_wW1gFWFOEjXk");
    assert_eq!(challenge, "E9Melhoa2OwvFrEMTJguCHaoeK1t8URWbuGJSstw-cM");
}

#[test]
fn base64url_of_short_inputs() {
    assert_eq!(pkce_from_seed(&[]).0, "");
    assert_eq!(pkce_from_seed(&[0xfb]).0, "-w");
    assert_eq!(pkce_from_seed(&[0xfb, 0xff]).0, "-_8");
    assert_eq!(pkce_from_seed(&[0xfb, 0xff, 0xbe]).0, "-_--");
    assert_eq!(pkce_from_seed(b"hello").0, "aGVsbG8");
}

#[test]
fn redirect_uri_names_the_port() {
    assert_eq!(redirect_uri(19876), "http://127.0.0.1:19876/callback");
    assert_eq!(redirect_uri(0), "http://127.0.0.1:0/callback");
    assert_eq!(redirect_uri(65535), "http://127.0.0.1:65535/callback");
}

#[test]
fn authorization_url_encodes_every_value() {
    let url = authorization_url(
        "https://idp/auth",
        "my client",
        "http://127.0.0.1:19876/callback",
        "st-ate_1",
        "chal~lenge",
    );
    assert_eq!(
        url,
        "https://idp/auth?client_id=my%20client&redirect_uri=http%3A%2F%2F127.0.0.1%3A19876%2Fcallback&response_type=code&scope=openid%20email%20profile&state=st-ate_1&code_challenge=chal~lenge&code_challenge_method=S256"
    );
}

#[test]
fn authorization_url_encodes_bytes_beyond_ascii() {
    let url = authorization_url("e", "\u{e9}+", "r", "s", "c");
    assert_eq!(
        url,
        "e?client_id=%C3%A9%2B&redirect_uri=r&response_type=code&scope=openid%20email%20profile&state=s&code_challenge=c&code_challenge_method=S256"
    );
}

#[test]
fn token_form_has_five_fields_in_order() {
    let form = token_request_form("cli", "abc", "http://127.0.0.1:1/callback", "ver");
    assert_eq!(
        form,
        pairs(&[
            ("grant_type", "authorization_code"),
            ("client_id", "cli"),
            ("code", "abc"),
            ("redirect_uri", "http://127.0.0.1:1/callback"),
            ("code_verifier", "ver"),
        ])
    );
}

#[test]
fn discovery_url_drops_trailing_slashes() {
    assert_eq!(discovery_url("https://idp"), "https://idp/.well-known/openid-configuration");
    assert_eq!(discovery_url("https://idp/"), "https://idp/.well-known/openid-configuration");
    assert_eq!(discovery_url("https://idp///"), "https://idp/.well-known/openid-configuration");
    assert_eq!(discovery_url(""), "/.well-known/openid-configuration");
}

#[test]
fn success_is_two_hundred_to_two_ninety_nine() {
    assert!(!status_is_success(199));
    assert!(status_is_success(200));
    assert!(status_is_success(204));
    assert!(status_is_success(299));
    assert!(!status_is_success(300));
    assert!(!status_is_success(404));
}

#[test]
fn discovery_needs_both_endpoints() {
    let config = read_discovery(200, DISCOVERY).unwrap();
    assert_eq!(config.authorization_endpoint, "https://idp/auth");
    assert_eq!(config.token_endpoint, "https://idp/token");

    match read_discovery(200, "{\"token_endpoint\":\"https://idp/token\"}") {
        Err(ResponseFailure::MissingField(name)) => assert_eq!(name, "authorization_endpoint"),
        _ => panic!("unexpected"),
    }
    match read_discovery(200, "{\"authorization_endpoint\":\"https://idp/auth\"}") {
        Err(ResponseFailure::MissingField(name)) => assert_eq!(name, "token_endpoint"),
        _ => panic!("unexpected"),
    }
    match read_discovery(200, "{\"authorization_endpoint\":5,\"token_endpoint\":\"t\"}") {
        Err(ResponseFailure::MissingField(name)) => assert_eq!(name, "authorization_endpoint"),
        _ => panic!("unexpected"),
    }
    assert!(matches!(read_discovery(200, "not json"), Err(ResponseFailure::Json)));
    match read_discovery(503, DISCOVERY) {
        Err(ResponseFailure::HttpStatus { code, body }) => {
            assert_eq!(code, 503);
            assert_eq!(body, DISCOVERY);
        }
        _ => panic!("unexpected"),
    }
    let doc = parse_json("[1,2]").unwrap();
    assert!(matches!(discovery_from_json(&doc), Err(ResponseFailure::MissingField(_))));
}

#[test]
fn json_response_reports_status_before_body() {
    assert!(read_json_response(200, "{}").is_ok());
    assert!(matches!(read_json_response(200, "{"), Err(ResponseFailure::Json)));
    assert!(matches!(
        read_json_response(500, "{"),
        Err(ResponseFailure::HttpStatus { code: 500, .. })
    ));
}

#[test]
fn token_answer_needs_the_id_token() {
    let tokens = read_token_response(
        200,
        "{\"id_token\":\"x.y.z\",\"access_token\":\"at\",\"expires_in\":3600}",
    )
    .unwrap();
    assert_eq!(tokens.id_token, "x.y.z");
    assert_eq!(tokens.access_token.as_deref(), Some("at"));
    assert_eq!(tokens.refresh_token, None);
    assert_eq!(tokens.expires_in, Some(3600));

    match read_token_response(200, "{\"access_token\":\"at\"}") {
        Err(ResponseFailure::MissingField(name)) => assert_eq!(name, "id_token"),
        _ => panic!("unexpected"),
    }
    assert!(matches!(read_token_response(200, "<html>"), Err(ResponseFailure::Json)));
    match read_token_response(400, "{\"error\":\"invalid_grant\"}") {
        Err(ResponseFailure::HttpStatus { code, body }) => {
            assert_eq!(code, 400);
            assert_eq!(body, "{\"error\":\"invalid_grant\"}");
        }
        _ => panic!("unexpected"),
    }
    let doc = parse_json("{\"id_token\":null}").unwrap();
    assert!(token_set_from_json(&doc).is_err());
}

#[test]
fn callback_with_code_and_state_completes() {
    match serve_request("GET /callback?code=abc&state=xyz HTTP/1.1\r\n") {
        Served::Completed { response, code, state } => {
            assert_eq!(code, "abc");
            assert_eq!(state, "xyz");
            assert!(response.starts_with("HTTP/1.1 200 OK\r\nContent-Type: text/html\r\n"));
            assert!(response.contains("Authentication Successful!"));
        }
        _ => panic!("unexpected"),
    }
}

#[test]
fn callback_values_are_decoded() {
    match serve_request("GET /callback?code=a%2Fb+c&state=x%3Dy HTTP/1.1") {
        Served::Completed { code, state, .. } => {
            assert_eq!(code, "a/b c");
            assert_eq!(state, "x=y");
        }
        _ => panic!("unexpected"),
    }
}

#[test]
fn callback_without_code_keeps_listening() {
    match serve_request("GET /favicon.ico HTTP/1.1\r\n") {
        Served::Answered { response } => {
            assert!(response.contains("Authentication Failed"));
            assert!(response.contains("Please try again."));
        }
        _ => panic!("unexpected"),
    }
    match serve_request("GET /callback?state=xyz HTTP/1.1\r\n") {
        Served::Answered { response } => assert!(response.contains("Authentication Failed")),
        _ => panic!("unexpected"),
    }
    match serve_request("GET /callback?error=access_denied&state=xyz HTTP/1.1\r\n") {
        Served::Answered { response } => assert!(response.contains("Authentication Failed")),
        _ => panic!("unexpected"),
    }
}

#[test]
fn callback_with_code_but_no_state_shows_success_and_keeps_listening() {
    match serve_request("GET /callback?code=abc HTTP/1.1\r\n") {
        Served::Answered { response } => {
            assert!(response.contains("Authentication Successful!"));
        }
        _ => panic!("unexpected"),
    }
}

#[test]
fn request_without_target_is_dropped() {
    assert!(matches!(serve_request(""), Served::Dropped));
    assert!(matches!(serve_request("GET"), Served::Dropped));
    assert!(matches!(serve_request("   \r\n"), Served::Dropped));
}

#[test]
fn request_line_is_split_at_any_white_space() {
    assert!(matches!(
        serve_request("  GET\t/callback?code=1&state=2\u{a0}HTTP/1.1"),
        Served::Completed { .. }
    ));
}

#[test]
fn first_of_repeated_parameters_counts() {
    let found = value_of(&pairs(&[("code", "one"), ("state", "s"), ("code", "two")]), "code");
    assert_eq!(found.as_deref(), Some("one"));
    assert_eq!(value_of(&pairs(&[("a", "b")]), "code"), None);
    match serve_pairs(&pairs(&[("state", "s"), ("code", "one"), ("code", "two")])) {
        Served::Completed { code, state, .. } => {
            assert_eq!(code, "one");
            assert_eq!(state, "s");
        }
        _ => panic!("unexpected"),
    }
}

#[test]
fn http_response_counts_bytes() {
    assert_eq!(
        http_response("h\u{e9}"),
        "HTTP/1.1 200 OK\r\nContent-Type: text/html\r\nContent-Length: 3\r\nConnection: close\r\n\r\nh\u{e9}"
    );
    match serve_request("GET /callback?code=abc&state=xyz HTTP/1.1") {
        Served::Completed { response, .. } => {
            assert!(response.contains("Content-Length: 253\r\n"));
            assert!(response.ends_with("</body>\n</html>"));
        }
        _ => panic!("unexpected"),
    }
}

#[test]
fn candidate_ports_end_with_the_system_s_choice() {
    assert_eq!(candidate_port(0), Some(19876));
    assert_eq!(candidate_port(1), Some(19877));
    assert_eq!(candidate_port(2), Some(19878));
    assert_eq!(candidate_port(3), Some(0));
    assert_eq!(candidate_port(4), None);
    assert_eq!(candidate_port(usize::MAX), None);
}

#[test]
fn port_fallback_reaches_the_system_assigned_port() {
    let flow = flow();
    let (state, action) = flow.step(FlowState::Idle, FlowEvent::Start);
    assert!(matches!(action, FlowAction::Bind { attempt: 0, port: 19876 }));
    let (state, action) = flow.step(state, FlowEvent::BindRefused { attempt: 0 });
    assert!(matches!(action, FlowAction::Bind { attempt: 1, port: 19877 }));
    let (state, action) = flow.step(state, FlowEvent::BindRefused { attempt: 1 });
    assert!(matches!(action, FlowAction::Bind { attempt: 2, port: 19878 }));
    let (state, action) = flow.step(state, FlowEvent::BindRefused { attempt: 2 });
    assert!(matches!(action, FlowAction::Bind { attempt: 3, port: 0 }));
    assert!(matches!(state, FlowState::Idle));
    // the system assigned 40123
    let (state, action) = flow.step(state, FlowEvent::Bound { port: 40123 });
    match (&state, &action) {
        (FlowState::PortBound { port }, FlowAction::Discover { url, .. }) => {
            assert_eq!(*port, 40123);
            assert_eq!(url, "https://idp/.well-known/openid-configuration");
        }
        _ => panic!("unexpected"),
    }
    let (state, action) = flow.step(
        state,
        FlowEvent::DiscoveryAnswer { status: 200, body: DISCOVERY.to_string() },
    );
    match (state, action) {
        (FlowState::AuthUrlOpened { session, .. }, FlowAction::OpenBrowser { url }) => {
            assert_eq!(session.redirect_uri(), "http://127.0.0.1:40123/callback");
            assert!(url.contains("&redirect_uri=http%3A%2F%2F127.0.0.1%3A40123%2Fcallback&"));
        }
        _ => panic!("unexpected"),
    }
}

#[test]
fn bind_fails_only_after_the_last_candidate() {
    let flow = flow();
    let (state, action) = flow.step(FlowState::Idle, FlowEvent::BindRefused { attempt: 3 });
    assert!(matches!(action, FlowAction::Abort));
    assert!(matches!(state, FlowState::Failed { reason: AuthFailure::Bind }));
    match state.outcome() {
        Some(Err(Error::Auth(m))) => assert_eq!(m, "Failed to start callback server"),
        _ => panic!("unexpected"),
    }
    let (state, _) = flow.step(FlowState::Idle, FlowEvent::BindRefused { attempt: usize::MAX });
    assert!(matches!(state, FlowState::Failed { reason: AuthFailure::Bind }));
}

#[test]
fn login_runs_end_to_end() {
    let flow = flow();
    let (state, action) = flow.step(FlowState::Idle, FlowEvent::Start);
    let port = match action {
        FlowAction::Bind { port, .. } => port,
        _ => panic!("unexpected"),
    };
    let (state, action) = flow.step(state, FlowEvent::Bound { port });
    match &action {
        FlowAction::Discover { url, .. } => {
            assert_eq!(url, "https://idp/.well-known/openid-configuration")
        }
        _ => panic!("unexpected"),
    }
    assert!(matches!(state, FlowState::PortBound { port: 19876 }));
    let (state, action) = flow.step(
        state,
        FlowEvent::DiscoveryAnswer { status: 200, body: DISCOVERY.to_string() },
    );
    let (challenge, csrf) = match &state {
        FlowState::AuthUrlOpened { session, token_endpoint } => {
            assert_eq!(token_endpoint, "https://idp/token");
            (session.pkce_challenge().to_string(), session.csrf_state().to_string())
        }
        _ => panic!("unexpected"),
    };
    match &action {
        FlowAction::OpenBrowser { url } => {
            assert_eq!(
                url,
                &format!(
                    "https://idp/auth?client_id=cli&redirect_uri=http%3A%2F%2F127.0.0.1%3A19876%2Fcallback&response_type=code&scope=openid%20email%20profile&state={}&code_challenge={}&code_challenge_method=S256",
                    csrf, challenge
                )
            );
        }
        _ => panic!("unexpected"),
    }
    let (state, action) = flow.step(state, FlowEvent::BrowserAttempted { opened: false });
    assert!(matches!(action, FlowAction::Listen { .. }));
    assert!(!state.finished());

    // the browser comes back
    let line = format!("GET /callback?code=abc&state={} HTTP/1.1\r\n", csrf);
    let (code, received) = match serve_request(&line) {
        Served::Completed { code, state, .. } => (code, state),
        _ => panic!("unexpected"),
    };
    assert_eq!(code, "abc");
    let (state, action) = flow.step(state, FlowEvent::Callback { code, state: received });
    assert!(matches!(state, FlowState::CodeReceived));
    // the token endpoint answers only to the verifier that the challenge of
    // the authorization request belongs to
    let answer = match &action {
        FlowAction::ExchangeCode { endpoint, form, .. } => {
            assert_eq!(endpoint, "https://idp/token");
            let sent = value_of(form, "code_verifier");
            assert_eq!(value_of(form, "code").as_deref(), Some("abc"));
            assert_eq!(value_of(form, "grant_type").as_deref(), Some("authorization_code"));
            assert_eq!(
                value_of(form, "redirect_uri").as_deref(),
                Some("http://127.0.0.1:19876/callback")
            );
            if sent.as_deref().map(challenge_for) == Some(challenge.clone()) {
                FlowEvent::TokenAnswer { status: 200, body: "{\"id_token\":\"x.y.z\"}".to_string() }
            } else {
                FlowEvent::TokenAnswer { status: 400, body: "{}".to_string() }
            }
        }
        _ => panic!("unexpected"),
    };
    let (state, action) = flow.step(state, answer);
    assert!(matches!(state, FlowState::CodeExchanged));
    match &action {
        FlowAction::ExchangeToken { url, headers, .. } => {
            assert_eq!(url, "https://logs.example/api/v1/cli/token");
            assert_eq!(
                headers,
                &pairs(&[
                    ("user-agent", "logchef-cli/0.1.0"),
                    ("content-type", "application/json"),
                    ("authorization", "Bearer x.y.z"),
                ])
            );
        }
        _ => panic!("unexpected"),
    }
    let (state, action) = flow.step(
        state,
        FlowEvent::ServiceAnswer {
            status: 200,
            body: "{\"status\":\"success\",\"data\":{\"token\":\"svc-123\",\"user\":{\"id\":1,\"email\":\"a@b.com\"}}}"
                .to_string(),
        },
    );
    assert!(matches!(action, FlowAction::Finish));
    assert!(state.finished());
    // a late callback changes nothing
    let (state, action) = flow.step(
        state,
        FlowEvent::Callback { code: "late".to_string(), state: csrf.clone() },
    );
    assert!(matches!(action, FlowAction::Nothing));
    match state.outcome() {
        Some(Ok(result)) => {
            assert_eq!(result.token, "svc-123");
            assert_eq!(result.user_email.as_deref(), Some("a@b.com"));
            assert_eq!(result.expires_at, None);
        }
        _ => panic!("unexpected"),
    }
}

#[test]
fn mismatched_state_aborts_without_token_request() {
    let flow = flow();
    let state = awaiting(&flow);
    let (state, action) = flow.step(
        state,
        FlowEvent::Callback { code: "abc".to_string(), state: "forged".to_string() },
    );
    assert!(matches!(action, FlowAction::Abort));
    assert!(matches!(state, FlowState::Failed { reason: AuthFailure::CsrfMismatch }));
    // nothing that happens later leads to a token request
    let (state, action) = flow.step(
        state,
        FlowEvent::TokenAnswer { status: 200, body: "{\"id_token\":\"x\"}".to_string() },
    );
    assert!(matches!(action, FlowAction::Nothing));
    match state.outcome() {
        Some(Err(Error::Auth(m))) => assert_eq!(m, "CSRF state mismatch"),
        _ => panic!("unexpected"),
    }
}

#[test]
fn state_must_match_exactly() {
    let flow = flow();
    let state = awaiting(&flow);
    let csrf = match &state {
        FlowState::AwaitingCallback { session, .. } => session.csrf_state().to_string(),
        _ => panic!("unexpected"),
    };
    let (state, _) = flow.step(
        state,
        FlowEvent::Callback { code: "abc".to_string(), state: csrf.to_lowercase() + " " },
    );
    assert!(matches!(state, FlowState::Failed { reason: AuthFailure::CsrfMismatch }));
}

#[test]
fn deadline_yields_timeout() {
    let flow = flow();
    let state = awaiting(&flow);
    let (state, action) = flow.step(state, FlowEvent::DeadlinePassed);
    assert!(matches!(action, FlowAction::Abort));
    assert!(matches!(state, FlowState::TimedOut));
    assert!(state.finished());
    match state.outcome() {
        Some(Err(e)) => {
            assert!(matches!(e, Error::AuthTimeout));
            assert_eq!(e.message(), "Timeout waiting for authentication");
        }
        _ => panic!("unexpected"),
    }
}

#[test]
fn discovery_failures_end_the_login() {
    let flow = flow();
    let (state, _) = flow.step(FlowState::Idle, FlowEvent::Bound { port: 1 });
    let (state, action) = flow.step(
        state,
        FlowEvent::DiscoveryAnswer { status: 404, body: "nope".to_string() },
    );
    assert!(matches!(action, FlowAction::Abort));
    match state.outcome() {
        Some(Err(Error::OAuth(m))) => assert_eq!(m, "OIDC discovery failed with status 404"),
        _ => panic!("unexpected"),
    }

    let (state, _) = flow.step(FlowState::Idle, FlowEvent::Bound { port: 1 });
    let (state, _) = flow.step(
        state,
        FlowEvent::DiscoveryUnreachable { reason: "connection refused".to_string() },
    );
    match state.outcome() {
        Some(Err(Error::OAuth(m))) => {
            assert_eq!(m, "Failed to fetch OIDC configuration: connection refused")
        }
        _ => panic!("unexpected"),
    }

    let (state, _) = flow.step(FlowState::Idle, FlowEvent::Bound { port: 1 });
    let (state, _) =
        flow.step(state, FlowEvent::DiscoveryAnswer { status: 200, body: "{}".to_string() });
    match state.outcome() {
        Some(Err(Error::OAuth(m))) => assert_eq!(
            m,
            "Failed to parse OIDC configuration: missing field authorization_endpoint"
        ),
        _ => panic!("unexpected"),
    }
}

#[test]
fn token_failures_end_the_login() {
    let flow = flow();
    let (state, action) = flow.step(
        FlowState::CodeReceived,
        FlowEvent::TokenAnswer { status: 200, body: "{\"access_token\":\"a\"}".to_string() },
    );
    assert!(matches!(action, FlowAction::Abort));
    assert!(matches!(
        state,
        FlowState::Failed { reason: AuthFailure::CodeExchange(ResponseFailure::MissingField(_)) }
    ));
    match state.outcome() {
        Some(Err(Error::OAuth(m))) => assert_eq!(m, "No ID token in response"),
        _ => panic!("unexpected"),
    }

    let (state, _) = flow.step(
        FlowState::CodeReceived,
        FlowEvent::TokenAnswer { status: 400, body: "bad code".to_string() },
    );
    match state.outcome() {
        Some(Err(Error::OAuth(m))) => assert_eq!(m, "Token exchange failed: bad code"),
        _ => panic!("unexpected"),
    }

    let (state, _) = flow.step(
        FlowState::CodeReceived,
        FlowEvent::TokenUnreachable { reason: "timed out".to_string() },
    );
    match state.outcome() {
        Some(Err(Error::OAuth(m))) => assert_eq!(m, "Token exchange request failed: timed out"),
        _ => panic!("unexpected"),
    }

    let (state, _) = flow.step(
        FlowState::CodeReceived,
        FlowEvent::TokenAnswer { status: 200, body: "<html>".to_string() },
    );
    assert!(matches!(
        state,
        FlowState::Failed { reason: AuthFailure::CodeExchange(ResponseFailure::Json) }
    ));
}

#[test]
fn service_failures_end_the_login() {
    let flow = flow();
    let (state, action) = flow.step(
        FlowState::CodeExchanged,
        FlowEvent::ServiceAnswer {
            status: 401,
            body: "{\"status\":\"error\",\"message\":\"token rejected\"}".to_string(),
        },
    );
    assert!(matches!(action, FlowAction::Abort));
    match state.outcome() {
        Some(Err(Error::Api { status, message })) => {
            assert_eq!(status, Some(401));
            assert_eq!(message, "token rejected");
        }
        _ => panic!("unexpected"),
    }

    let (state, _) = flow.step(
        FlowState::CodeExchanged,
        FlowEvent::ServiceUnreachable { reason: "dns".to_string() },
    );
    match state.outcome() {
        Some(Err(Error::Network(m))) => assert_eq!(m, "dns"),
        _ => panic!("unexpected"),
    }
}

#[test]
fn events_out_of_turn_change_nothing() {
    let flow = flow();
    let (state, action) = flow.step(FlowState::Idle, FlowEvent::DeadlinePassed);
    assert!(matches!(state, FlowState::Idle));
    assert!(matches!(action, FlowAction::Nothing));
    let (state, action) = flow.step(
        FlowState::CodeExchanged,
        FlowEvent::Callback { code: "c".to_string(), state: "s".to_string() },
    );
    assert!(matches!(state, FlowState::CodeExchanged));
    assert!(matches!(action, FlowAction::Nothing));
    assert_eq!(state.outcome().is_none(), true);
}

#[test]
fn every_failure_has_its_report() {
    assert!(matches!(AuthFailure::Entropy.into_error(), Error::Auth(m) if m == "Failed to generate random bytes"));
    assert!(matches!(AuthFailure::Bind.into_error(), Error::Auth(_)));
    assert!(matches!(AuthFailure::CallbackTimeout.into_error(), Error::AuthTimeout));
    assert!(matches!(AuthFailure::CsrfMismatch.into_error(), Error::Auth(_)));
    assert!(matches!(
        AuthFailure::Discovery(ResponseFailure::Json).into_error(),
        Error::OAuth(_)
    ));
    assert!(matches!(
        AuthFailure::CodeExchange(ResponseFailure::Json).into_error(),
        Error::OAuth(m) if m == "Failed to parse token response: not a JSON document"
    ));
    assert!(matches!(
        AuthFailure::ServiceExchange(Error::NotAuthenticated).into_error(),
        Error::NotAuthenticated
    ));
}

#[test]
fn every_call_has_a_time_limit_of_its_own() {
    assert_eq!(CALL_TIMEOUT_SECS, 30);
    assert_eq!(CALLBACK_TIMEOUT_SECS, 300);
    let flow = flow();
    let (state, action) = flow.step(FlowState::Idle, FlowEvent::Bound { port: 1 });
    assert!(matches!(action, FlowAction::Discover { timeout_secs: 30, .. }));
    let (state, _) = flow.step(
        state,
        FlowEvent::DiscoveryAnswer { status: 200, body: DISCOVERY.to_string() },
    );
    let (state, _) = flow.step(state, FlowEvent::BrowserAttempted { opened: true });
    let csrf = match &state {
        FlowState::AwaitingCallback { session, .. } => session.csrf_state().to_string(),
        _ => panic!("unexpected"),
    };
    let (state, action) =
        flow.step(state, FlowEvent::Callback { code: "c".to_string(), state: csrf });
    assert!(matches!(action, FlowAction::ExchangeCode { timeout_secs: 30, .. }));
    let (_, action) = flow.step(
        state,
        FlowEvent::TokenAnswer { status: 200, body: "{\"id_token\":\"t\"}".to_string() },
    );
    assert!(matches!(action, FlowAction::ExchangeToken { timeout_secs: 30, .. }));
}

/// What a listener does with the requests that come in, in order: it goes
/// on until one completes.
fn listen(lines: &[&str]) -> (usize, Option<(String, String)>) {
    let mut answered = 0;
    for line in lines {
        match serve_request(line) {
            Served::Dropped => {}
            Served::Answered { .. } => answered += 1,
            Served::Completed { code, state, .. } => return (answered, Some((code, state))),
        }
    }
    (answered, None)
}

#[test]
fn listener_waits_for_a_request_with_code_and_state() {
    let (answered, found) = listen(&[
        "GET /favicon.ico HTTP/1.1\r\n",
        "\r\n",
        "GET /callback?state=s1 HTTP/1.1\r\n",
        "GET /callback?code=only HTTP/1.1\r\n",
        "GET /callback?code=abc&state=s1 HTTP/1.1\r\n",
        "GET /callback?code=late&state=s1 HTTP/1.1\r\n",
    ]);
    assert_eq!(answered, 3);
    assert_eq!(found, Some(("abc".to_string(), "s1".to_string())));
    let (answered, found) = listen(&["GET / HTTP/1.1", "POST /callback HTTP/1.1"]);
    assert_eq!(answered, 2);
    assert_eq!(found, None);
}

#[test]
fn secrets_of_two_logins_differ() {
    let flow = flow();
    let session = || {
        let answer = FlowEvent::DiscoveryAnswer { status: 200, body: DISCOVERY.to_string() };
        match flow.step(FlowState::PortBound { port: 1 }, answer).0 {
            FlowState::AuthUrlOpened { session, .. } => session,
            _ => panic!("unexpected"),
        }
    };
    let a = session();
    let b = session();
    assert_ne!(a.pkce_challenge(), b.pkce_challenge());
    assert_ne!(a.csrf_state(), b.csrf_state());
    assert_eq!(a.pkce_challenge().len(), 43);
    assert_eq!(a.csrf_state().len(), 22);
    assert_eq!(a.redirect_uri(), b.redirect_uri());
}

#[test]
fn deadline_lies_five_minutes_after_the_session_is_made() {
    assert_eq!(deadline(1_000, 300), 1_300);
    assert_eq!(deadline(0, 0), 0);
    assert_eq!(deadline(u64::MAX - 300, 300), u64::MAX);
    assert_eq!(deadline(u64::MAX - 299, 300), u64::MAX);
    assert_eq!(deadline(u64::MAX - 301, 300), u64::MAX - 1);
    assert_eq!(deadline(5, u64::MAX), u64::MAX);
    assert_eq!(remaining(1_300, 1_000), 300);
    assert_eq!(remaining(1_300, 1_300), 0);
    assert_eq!(remaining(1_300, 2_000), 0);
    assert_eq!(remaining(u64::MAX, 0), u64::MAX);

    let flow = flow();
    let before = logchef::clock::now_secs();
    let (state, _) = flow.step(
        FlowState::PortBound { port: 1 },
        FlowEvent::DiscoveryAnswer { status: 200, body: DISCOVERY.to_string() },
    );
    let after = logchef::clock::now_secs();
    assert!(before > 1_600_000_000);
    let made = match &state {
        FlowState::AuthUrlOpened { session, .. } => session.deadline_secs(),
        _ => panic!("unexpected"),
    };
    assert!(before + CALLBACK_TIMEOUT_SECS <= made && made <= after + CALLBACK_TIMEOUT_SECS);
    let (state, action) = flow.step(state, FlowEvent::BrowserAttempted { opened: true });
    match (state, action) {
        (FlowState::AwaitingCallback { session, .. }, FlowAction::Listen { deadline_secs }) => {
            assert_eq!(deadline_secs, made);
            assert_eq!(session.deadline_secs(), made);
        }
        _ => panic!("unexpected"),
    }
}

#[test]
fn no_secret_is_made_where_the_discovery_failed() {
    let flow = flow();
    let (state, action) = flow.step(
        FlowState::PortBound { port: 1 },
        FlowEvent::DiscoveryAnswer { status: 500, body: "".to_string() },
    );
    assert!(matches!(action, FlowAction::Abort));
    assert!(matches!(
        state,
        FlowState::Failed { reason: AuthFailure::Discovery(ResponseFailure::HttpStatus { .. }) }
    ));
}

#[test]
fn issued_tokens_do_not_get_into_errors() {
    let flow = flow();
    let (state, _) = flow.step(
        FlowState::CodeReceived,
        FlowEvent::TokenAnswer {
            status: 200,
            body: "{\"access_token\":\"very-secret\"}".to_string(),
        },
    );
    match state.outcome() {
        Some(Err(e)) => assert!(!e.message().contains("very-secret")),
        _ => panic!("unexpected"),
    }
    let (state, _) = flow.step(
        FlowState::CodeExchanged,
        FlowEvent::ServiceAnswer {
            status: 200,
            body: "{\"data\":{\"token\":\"very-secret\"}}".to_string(),
        },
    );
    match state.outcome() {
        Some(Err(e)) => {
            assert_eq!(e.message(), "Failed to parse response: missing field status");
        }
        _ => panic!("unexpected"),
    }
    let (state, _) = flow.step(
        FlowState::CodeExchanged,
        FlowEvent::ServiceAnswer { status: 200, body: "very-secret".to_string() },
    );
    match state.outcome() {
        Some(Err(e)) => {
            assert!(matches!(e, Error::Json(_)));
            assert_eq!(e.message(), "JSON error: not a JSON document");
        }
        _ => panic!("unexpected"),
    }
}

#[test]
fn state_from_known_seed() {
    assert_eq!(state_from_seed(&[0xFFu8; 16]), "_____________________w");
    assert_eq!(state_from_seed(&[0u8; 16]), "AAAAAAAAAAAAAAAAAAAAAA");
    assert_eq!(state_from_seed(&[0xFBu8; 16]), "-_v7-_v7-_v7-_v7-_v7-w");
    let counting: Vec<u8> = (0u8..16).collect();
    assert_eq!(state_from_seed(&counting), "AAECAwQFBgcICQoLDA0ODw");
    assert_eq!(state_from_seed(&[]), "");
    assert_eq!(state_from_seed(&[0xFF]), "_w");
    assert_eq!(state_from_seed(&[0xFF, 0xFF]), "__8");
    assert_eq!(state_from_seed(&[0xFF, 0xFF, 0xFF]), "____");
    assert_eq!(state_from_seed(&[0xFFu8; 16]).len(), 22);
    assert!(!state_from_seed(&[0xFFu8; 16]).contains('='));
    assert!(!state_from_seed(&[0xFFu8; 16]).contains('/'));
}

#[test]
fn distinct_seeds_give_distinct_states() {
    let mut states = HashSet::new();
    for i in 0u32..10_000 {
        let mut seed = [0u8; 16];
        seed[..4].copy_from_slice(&i.to_be_bytes());
        seed[12..].copy_from_slice(&i.to_le_bytes());
        assert!(states.insert(state_from_seed(&seed)));
    }
    assert_ne!(state_from_seed(&[0u8; 16]), state_from_seed(&[0u8; 15]));
    let mut last = [0u8; 16];
    last[15] = 1;
    assert_ne!(state_from_seed(&[0u8; 16]), state_from_seed(&last));
    assert_ne!(pkce_from_seed(&[0u8; 32]).0, pkce_from_seed(&[1u8; 32]).0);
}
