//! What holds of every login, proved from the contracts of the state
//! machine and of the listener.

use vstd::prelude::*;
use vstd::utf8::{encode_utf8, is_ascii_chars, is_ascii_chars_encode_utf8};
use crate::address::{pairs_view, url_query_pairs};
use crate::auth::{AuthFlow, FlowAction, FlowEvent, FlowSession, FlowState};
use crate::auth::callback::{
    callback_address, failure_page, http_answer, pair_value, Served, served_for, served_line,
};
use crate::auth::failure::AuthFailure;
use crate::auth::request::{
    authorization_url_text, percent_encoded, percent_encoded_text, scopes, token_form_fields,
    unreserved,
};
use crate::auth::response::is_success;
use crate::auth::secrets::{all_url_safe, url_safe};
use crate::error::Error;
use crate::text::{is_white_space, lemma_second_word, no_white_space};

verus! {

/// A callback whose state is not the session's makes the login fail with a
/// state mismatch, and what is done next is to abort: no request goes to
/// a token endpoint.
pub proof fn lemma_mismatched_state_aborts(
    flow: AuthFlow,
    session: FlowSession,
    token_endpoint: String,
    code: String,
    received: String,
    next: FlowState,
    action: FlowAction,
)
    requires
        received@ != session.kept_state(),
        flow.steps_to(
            FlowState::AwaitingCallback { session, token_endpoint },
            FlowEvent::Callback { code, state: received },
            next,
            action,
        ),
    ensures
        next matches FlowState::Failed { reason } && reason is CsrfMismatch,
        action is Abort,
{
}

/// A request to a token endpoint is only ever made in answer to a callback
/// that carries the session's own state, and it carries that session's
/// verifier.
pub proof fn lemma_code_exchange_needs_own_state(
    flow: AuthFlow,
    state: FlowState,
    event: FlowEvent,
    next: FlowState,
    action: FlowAction,
)
    requires
        flow.steps_to(state, event, next, action),
        action is ExchangeCode,
    ensures
        ({
            &&& state matches FlowState::AwaitingCallback { session, token_endpoint }
            &&& event matches FlowEvent::Callback { code, state: received }
            &&& received@ == session.kept_state()
            &&& action matches FlowAction::ExchangeCode { endpoint, form, timeout_secs }
            &&& endpoint == token_endpoint
            &&& pairs_view(form@) == token_form_fields(
                flow.client(),
                code@,
                session.kept_redirect(),
                session.kept_verifier(),
            )
        }),
{
}

/// A login that failed, timed out or succeeded stays as it is whatever
/// happens, and asks for nothing more.
pub proof fn lemma_final_states_stay(
    flow: AuthFlow,
    state: FlowState,
    event: FlowEvent,
    next: FlowState,
    action: FlowAction,
)
    requires
        state is Failed || state is TimedOut || state is ServiceTokenExchanged,
        flow.steps_to(state, event, next, action),
    ensures
        next == state,
        action is Nothing,
{
}

/// Whenever a login comes to its end, what is done next is to release the
/// listener: with success where the service token is there, with failure
/// else.
pub proof fn lemma_every_end_releases_the_listener(
    flow: AuthFlow,
    state: FlowState,
    event: FlowEvent,
    next: FlowState,
    action: FlowAction,
)
    requires
        !state.is_final(),
        next.is_final(),
        flow.steps_to(state, event, next, action),
    ensures
        next is ServiceTokenExchanged ==> action is Finish,
        !(next is ServiceTokenExchanged) ==> action is Abort,
{
}

/// Every request that a login asks for has a time limit of its own, and
/// the wait for the callback ends at the deadline of the session.
pub proof fn lemma_every_call_has_its_time_limit(
    flow: AuthFlow,
    state: FlowState,
    event: FlowEvent,
    next: FlowState,
    action: FlowAction,
)
    requires
        flow.steps_to(state, event, next, action),
    ensures
        action matches FlowAction::Discover { url, timeout_secs } ==> timeout_secs
            == crate::auth::CALL_TIMEOUT_SECS,
        action matches FlowAction::ExchangeCode { endpoint, form, timeout_secs } ==> timeout_secs
            == crate::auth::CALL_TIMEOUT_SECS,
        action matches FlowAction::ExchangeToken { url, headers, timeout_secs } ==> timeout_secs
            == crate::auth::CALL_TIMEOUT_SECS,
        action matches FlowAction::Listen { deadline_secs } ==> (
        state matches FlowState::AuthUrlOpened { session, token_endpoint } && deadline_secs
            == session.kept_deadline()),
{
}

/// When the time for the callback is over the login times out, the
/// listener is released, and the error reported is the timeout.
pub proof fn lemma_deadline_times_out(
    flow: AuthFlow,
    session: FlowSession,
    token_endpoint: String,
    next: FlowState,
    action: FlowAction,
)
    requires
        flow.steps_to(
            FlowState::AwaitingCallback { session, token_endpoint },
            FlowEvent::DeadlinePassed,
            next,
            action,
        ),
    ensures
        next is TimedOut,
        action is Abort,
        next.failure() == Some(AuthFailure::CallbackTimeout),
        AuthFailure::CallbackTimeout.reported_as(Error::AuthTimeout),
{
}

/// A request without a code is answered with the failure page and does not
/// end the listening.
pub proof fn lemma_request_without_code_goes_on(pairs: Seq<(Seq<char>, Seq<char>)>, r: Served)
    requires
        pair_value(pairs, "code"@) is None,
        served_for(pairs, r),
    ensures
        r matches Served::Answered { response } && response@ == http_answer(failure_page()),
        !(r is Completed),
{
}

/// A request without a state does not end the listening either.
pub proof fn lemma_request_without_state_goes_on(pairs: Seq<(Seq<char>, Seq<char>)>, r: Served)
    requires
        pair_value(pairs, "state"@) is None,
        served_for(pairs, r),
    ensures
        r is Answered,
{
}

proof fn lemma_unreserved_bytes_stay(bytes: Seq<u8>)
    requires
        forall|i: int| 0 <= i < bytes.len() ==> unreserved(#[trigger] bytes[i]),
    ensures
        percent_encoded(bytes) == Seq::new(bytes.len(), |i: int| bytes[i] as char),
    decreases bytes.len(),
{
    if bytes.len() > 0 {
        let front = bytes.drop_last();
        assert forall|i: int| 0 <= i < front.len() implies unreserved(#[trigger] front[i]) by {
            assert(front[i] == bytes[i]);
        }
        lemma_unreserved_bytes_stay(front);
        assert(unreserved(bytes.last()));
        assert(percent_encoded(bytes) =~= Seq::new(bytes.len(), |i: int| bytes[i] as char));
    } else {
        assert(percent_encoded(bytes) =~= Seq::new(bytes.len(), |i: int| bytes[i] as char));
    }
}

proof fn lemma_safe_is_ascii(c: char)
    requires
        url_safe(c),
    ensures
        '\0' <= c <= '\u{7f}',
        unreserved(c as u8),
        (c as u8) as char == c,
{
}

/// A text of characters that may stand in a URL as they are is its own
/// percent-encoding.
pub proof fn lemma_url_safe_text_stays(s: Seq<char>)
    requires
        all_url_safe(s),
    ensures
        percent_encoded_text(s) == s,
{
    assert(is_ascii_chars(s)) by {
        assert forall|i: int| 0 <= i < s.len() implies '\0' <= #[trigger] s[i] <= '\u{7f}' by {
            lemma_safe_is_ascii(s[i]);
        }
    }
    is_ascii_chars_encode_utf8(s);
    let bytes = encode_utf8(s);
    assert forall|i: int| 0 <= i < bytes.len() implies unreserved(#[trigger] bytes[i]) by {
        lemma_safe_is_ascii(s[i]);
        assert(s[i] as u8 == bytes[i]);
    }
    lemma_unreserved_bytes_stay(bytes);
    assert(percent_encoded(bytes) =~= s) by {
        assert forall|i: int| 0 <= i < s.len() implies (bytes[i] as char) == s[i] by {
            lemma_safe_is_ascii(s[i]);
            assert(s[i] as u8 == bytes[i]);
        }
    }
}

/// The state and the challenge that a login generates stand in the
/// authorization URL as they are.
pub proof fn lemma_generated_values_stand_as_they_are(
    endpoint: Seq<char>,
    client_id: Seq<char>,
    redirect_uri: Seq<char>,
    state: Seq<char>,
    challenge: Seq<char>,
)
    requires
        all_url_safe(state),
        all_url_safe(challenge),
    ensures
        authorization_url_text(endpoint, client_id, redirect_uri, state, challenge) == endpoint
            + "?client_id="@ + percent_encoded_text(client_id) + "&redirect_uri="@
            + percent_encoded_text(redirect_uri) + "&response_type=code&scope="@
            + percent_encoded_text(scopes()) + "&state="@ + state + "&code_challenge="@ + challenge
            + "&code_challenge_method=S256"@,
{
    lemma_url_safe_text_stays(state);
    lemma_url_safe_text_stays(challenge);
}

/// Whether two states are the same stage of a login, whatever their
/// sessions hold.
pub open spec fn same_stage(a: FlowState, b: FlowState) -> bool {
    match (a, b) {
        (FlowState::Idle, FlowState::Idle) => true,
        (FlowState::PortBound { .. }, FlowState::PortBound { .. }) => true,
        (FlowState::AuthUrlOpened { .. }, FlowState::AuthUrlOpened { .. }) => true,
        (FlowState::AwaitingCallback { .. }, FlowState::AwaitingCallback { .. }) => true,
        (FlowState::CodeReceived, FlowState::CodeReceived) => true,
        (FlowState::CodeExchanged, FlowState::CodeExchanged) => true,
        _ => false,
    }
}

/// What a failed step reports does not depend on what the session holds:
/// two logins at the same stage, with whatever verifier, challenge and
/// state each, report the same text where the same thing makes both fail.
pub proof fn lemma_failure_text_ignores_the_session(
    flow: AuthFlow,
    one: FlowState,
    other: FlowState,
    event: FlowEvent,
    next_one: FlowState,
    next_other: FlowState,
    action_one: FlowAction,
    action_other: FlowAction,
)
    requires
        same_stage(one, other),
        flow.steps_to(one, event, next_one, action_one),
        flow.steps_to(other, event, next_other, action_other),
        next_one is Failed,
        next_other is Failed,
    ensures
        next_one->reason.text() == next_other->reason.text(),
{
}

/// What an action asks for, as plain values.
pub enum Asked {
    Bind { attempt: usize, port: u16 },
    Discover { url: Seq<char>, timeout_secs: u64 },
    OpenBrowser { url: Seq<char> },
    Listen { deadline_secs: u64 },
    ExchangeCode { endpoint: Seq<char>, form: Seq<(Seq<char>, Seq<char>)>, timeout_secs: u64 },
    ExchangeToken { url: Seq<char>, headers: Seq<(Seq<char>, Seq<char>)>, timeout_secs: u64 },
    Finish,
    Abort,
    Nothing,
}

/// What an action asks for, as plain values.
pub open spec fn asked(action: FlowAction) -> Asked {
    match action {
        FlowAction::Bind { attempt, port } => Asked::Bind { attempt, port },
        FlowAction::Discover { url, timeout_secs } => Asked::Discover { url: url@, timeout_secs },
        FlowAction::OpenBrowser { url } => Asked::OpenBrowser { url: url@ },
        FlowAction::Listen { deadline_secs } => Asked::Listen { deadline_secs },
        FlowAction::ExchangeCode { endpoint, form, timeout_secs } => Asked::ExchangeCode {
            endpoint: endpoint@,
            form: pairs_view(form@),
            timeout_secs,
        },
        FlowAction::ExchangeToken { url, headers, timeout_secs } => Asked::ExchangeToken {
            url: url@,
            headers: pairs_view(headers@),
            timeout_secs,
        },
        FlowAction::Finish => Asked::Finish,
        FlowAction::Abort => Asked::Abort,
        FlowAction::Nothing => Asked::Nothing,
    }
}

/// Whether two states are the same but for the verifier that the session
/// holds.
pub open spec fn same_but_verifier(a: FlowState, b: FlowState) -> bool {
    match (a, b) {
        (
            FlowState::AuthUrlOpened { session: s, token_endpoint: e },
            FlowState::AuthUrlOpened { session: t, token_endpoint: f },
        ) => same_session_but_verifier(s, t) && e@ == f@,
        (
            FlowState::AwaitingCallback { session: s, token_endpoint: e },
            FlowState::AwaitingCallback { session: t, token_endpoint: f },
        ) => same_session_but_verifier(s, t) && e@ == f@,
        _ => a == b,
    }
}

/// Whether two sessions are the same but for the verifier.
pub open spec fn same_session_but_verifier(s: FlowSession, t: FlowSession) -> bool {
    &&& s.kept_redirect() == t.kept_redirect()
    &&& s.kept_challenge() == t.kept_challenge()
    &&& s.kept_state() == t.kept_state()
    &&& s.kept_deadline() == t.kept_deadline()
}

/// The verifier leaves a login in the form that redeems the code, and
/// nowhere else: whatever else a login asks for is the same whatever the
/// verifier is.
pub proof fn lemma_only_the_code_exchange_carries_the_verifier(
    flow: AuthFlow,
    one: FlowState,
    other: FlowState,
    event: FlowEvent,
    next_one: FlowState,
    next_other: FlowState,
    action_one: FlowAction,
    action_other: FlowAction,
)
    requires
        one is AuthUrlOpened || one is AwaitingCallback,
        same_but_verifier(one, other),
        flow.steps_to(one, event, next_one, action_one),
        flow.steps_to(other, event, next_other, action_other),
    ensures
        action_one is ExchangeCode <==> action_other is ExchangeCode,
        !(action_one is ExchangeCode) ==> asked(action_one) == asked(action_other),
{
}

/// The state token is used once: after the first callback that reaches
/// the login, whether its state was the session's or not, a further
/// callback changes nothing and asks for nothing.
pub proof fn lemma_state_is_used_once(
    flow: AuthFlow,
    waiting: FlowState,
    first: FlowEvent,
    after_first: FlowState,
    first_action: FlowAction,
    second: FlowEvent,
    after_second: FlowState,
    second_action: FlowAction,
)
    requires
        waiting is AwaitingCallback,
        first is Callback,
        second is Callback,
        flow.steps_to(waiting, first, after_first, first_action),
        flow.steps_to(after_first, second, after_second, second_action),
    ensures
        after_second == after_first,
        second_action is Nothing,
{
}

/// The texts that a login reports where an answer came with a status of
/// success and was still of no use. None of them holds anything of the
/// answer's body but the name of a member that the body lacks.
pub open spec fn unusable_answer_text(text: Seq<char>) -> bool {
    ||| text == "Failed to parse OIDC configuration: not a JSON document"@
    ||| text == "Failed to parse OIDC configuration: missing field "@ + "authorization_endpoint"@
    ||| text == "Failed to parse OIDC configuration: missing field "@ + "token_endpoint"@
    ||| text == "Failed to generate random bytes"@
    ||| text == "Failed to parse token response: not a JSON document"@
    ||| text == "No ID token in response"@
    ||| text == "JSON error: "@ + "not a JSON document"@
    ||| text == "Failed to parse response: missing field "@ + "status"@
    ||| text == "Failed to parse response: missing field "@ + "data"@
    ||| text == "Failed to parse response: missing field "@ + "token"@
    ||| text == "Failed to parse response: invalid field "@ + "expires_at"@
    ||| text == "Failed to parse response: missing field "@ + "id"@
    ||| text == "Failed to parse response: missing field "@ + "email"@
}

/// The status of an answer that an event brings, where it brings one.
pub open spec fn answered_status(event: FlowEvent) -> Option<u16> {
    match event {
        FlowEvent::DiscoveryAnswer { status, body } => Some(status),
        FlowEvent::TokenAnswer { status, body } => Some(status),
        FlowEvent::ServiceAnswer { status, body } => Some(status),
        _ => None,
    }
}

/// An answer with a status of success is never echoed: where a login
/// fails on such an answer, what it reports is one of a few fixed texts.
/// So a token that was issued does not get into an error.
pub proof fn lemma_successful_answers_are_not_echoed(
    flow: AuthFlow,
    state: FlowState,
    event: FlowEvent,
    next: FlowState,
    action: FlowAction,
)
    requires
        !state.is_final(),
        answered_status(event) matches Some(status) && is_success(status),
        flow.steps_to(state, event, next, action),
        next is Failed,
    ensures
        unusable_answer_text(next->reason.text()),
{
    reveal_strlit("expires_at");
    reveal_strlit("status");
    reveal_strlit("data");
    reveal_strlit("token");
    reveal_strlit("id");
    reveal_strlit("email");
}

/// A request line of the usual shape, a method, a blank, a target and
/// then the rest, is read by its target alone: what the listener does with
/// it is what it does with the query of the address that the target makes.
pub proof fn lemma_request_line_is_read_by_its_target(
    method: Seq<char>,
    target: Seq<char>,
    rest: Seq<char>,
    r: Served,
)
    requires
        method.len() > 0,
        target.len() > 0,
        no_white_space(method),
        no_white_space(target),
        rest.len() > 0 ==> is_white_space(rest[0]),
    ensures
        served_line(method + seq![' '] + target + rest, r) == (match url_query_pairs(
            callback_address(target),
        ) {
            None => r is Dropped,
            Some(pairs) => served_for(pairs, r),
        }),
{
    lemma_second_word(method, target, rest);
}

} // verus!
