//! What a login sends: the redirect address, the authorization URL that the
//! browser is pointed at, and the form that redeems the authorization code.

use vstd::prelude::*;
use vstd::utf8::encode_utf8;
use crate::address::pairs_view;
use crate::text::{decimal, owned, u64_text};

verus! {

/// The scopes that every login asks for.
pub open spec fn scopes() -> Seq<char> {
    "openid email profile"@
}

/// Whether the byte stands for itself in a percent-encoded text: a letter
/// or digit of ASCII or one of `-`, `.`, `_`, `~`.
pub open spec fn unreserved(b: u8) -> bool {
    (48 <= b <= 57) || (65 <= b <= 90) || (97 <= b <= 122) || b == 45 || b == 46 || b == 95 || b
        == 126
}

/// The upper-case hexadecimal digit for `d`, for `d` below sixteen.
pub open spec fn hex_digit(d: int) -> char {
    if d < 10 {
        ((48 + d) as u8) as char
    } else {
        ((55 + d) as u8) as char
    }
}

/// One byte, percent-encoded: itself where it is unreserved, else `%` and
/// its two hexadecimal digits.
pub open spec fn percent_encoded_byte(b: u8) -> Seq<char> {
    if unreserved(b) {
        seq![b as char]
    } else {
        seq!['%', hex_digit(b as int / 16), hex_digit(b as int % 16)]
    }
}

/// The bytes, percent-encoded one by one.
pub open spec fn percent_encoded(bytes: Seq<u8>) -> Seq<char>
    decreases bytes.len(),
{
    if bytes.len() == 0 {
        Seq::empty()
    } else {
        percent_encoded(bytes.drop_last()) + percent_encoded_byte(bytes.last())
    }
}

/// The percent-encoding of a text: that of its UTF-8 bytes.
pub open spec fn percent_encoded_text(s: Seq<char>) -> Seq<char> {
    percent_encoded(encode_utf8(s))
}

/// `urlencoding::encode`: every byte of the text's UTF-8 form is
/// percent-encoded, except the letters and digits of ASCII and `-`, `.`,
/// `_`, `~`.
#[verifier::external_body]
fn url_encode(s: &str) -> (out: String)
    ensures
        out@ == percent_encoded_text(s@),
{
    urlencoding::encode(s).into_owned()
}

/// The address that the identity provider redirects the browser to.
pub open spec fn redirect_uri_text(port: u16) -> Seq<char> {
    "http://127.0.0.1:"@ + decimal(port as nat) + "/callback"@
}

/// The address that the identity provider redirects the browser to, for a
/// listener on `port`.
pub fn redirect_uri(port: u16) -> (uri: String)
    ensures
        uri@ == redirect_uri_text(port),
{
    let digits = u64_text(port as u64);
    let mut uri = owned("http://127.0.0.1:");
    uri.append(digits.as_str());
    uri.append("/callback");
    uri
}

/// The URL that starts a login in the browser.
pub open spec fn authorization_url_text(
    endpoint: Seq<char>,
    client_id: Seq<char>,
    redirect_uri: Seq<char>,
    state: Seq<char>,
    challenge: Seq<char>,
) -> Seq<char> {
    endpoint + "?client_id="@ + percent_encoded_text(client_id) + "&redirect_uri="@
        + percent_encoded_text(redirect_uri) + "&response_type=code&scope="@
        + percent_encoded_text(scopes()) + "&state="@ + percent_encoded_text(state)
        + "&code_challenge="@ + percent_encoded_text(challenge) + "&code_challenge_method=S256"@
}

/// The URL that starts a login in the browser: the provider's authorization
/// endpoint with the client, the redirect address, the response type
/// `code`, the scopes, the state and the challenge with its method `S256`,
/// each value percent-encoded.
pub fn authorization_url(
    endpoint: &str,
    client_id: &str,
    redirect_uri: &str,
    state: &str,
    challenge: &str,
) -> (url: String)
    ensures
        url@ == authorization_url_text(endpoint@, client_id@, redirect_uri@, state@, challenge@),
{
    let client = url_encode(client_id);
    let redirect = url_encode(redirect_uri);
    let scope = url_encode("openid email profile");
    let state_value = url_encode(state);
    let challenge_value = url_encode(challenge);
    let mut url = owned(endpoint);
    url.append("?client_id=");
    url.append(client.as_str());
    url.append("&redirect_uri=");
    url.append(redirect.as_str());
    url.append("&response_type=code&scope=");
    url.append(scope.as_str());
    url.append("&state=");
    url.append(state_value.as_str());
    url.append("&code_challenge=");
    url.append(challenge_value.as_str());
    url.append("&code_challenge_method=S256");
    url
}

/// The fields of the form that redeems an authorization code, in order.
pub open spec fn token_form_fields(
    client_id: Seq<char>,
    code: Seq<char>,
    redirect_uri: Seq<char>,
    verifier: Seq<char>,
) -> Seq<(Seq<char>, Seq<char>)> {
    seq![
        ("grant_type"@, "authorization_code"@),
        ("client_id"@, client_id),
        ("code"@, code),
        ("redirect_uri"@, redirect_uri),
        ("code_verifier"@, verifier),
    ]
}

/// The form that redeems an authorization code at the token endpoint. This
/// is the one place where the verifier leaves the login.
pub fn token_request_form(client_id: &str, code: &str, redirect_uri: &str, verifier: &str) -> (form:
    Vec<(String, String)>)
    ensures
        pairs_view(form@) == token_form_fields(client_id@, code@, redirect_uri@, verifier@),
{
    let mut form: Vec<(String, String)> = Vec::new();
    form.push((owned("grant_type"), owned("authorization_code")));
    form.push((owned("client_id"), owned(client_id)));
    form.push((owned("code"), owned(code)));
    form.push((owned("redirect_uri"), owned(redirect_uri)));
    form.push((owned("code_verifier"), owned(verifier)));
    assert(pairs_view(form@) =~= token_form_fields(client_id@, code@, redirect_uri@, verifier@));
    form
}

} // verus!
