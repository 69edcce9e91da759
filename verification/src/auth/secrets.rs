//! The secrets of one login: the PKCE verifier with its challenge, and the
//! state token that ties the callback to this login.

use vstd::prelude::*;
use vstd::utf8::encode_utf8;
use base64::Engine;
use sha2::Digest;
use crate::auth::failure::AuthFailure;

verus! {

/// How many random bytes make a PKCE verifier.
pub const VERIFIER_BYTES: usize = 32;

/// How many random bytes make a state token.
pub const STATE_BYTES: usize = 16;

/// Whether `c` may stand in a URL as it is: a letter or digit of ASCII or
/// one of `-`, `.`, `_`, `~`.
pub open spec fn url_safe(c: char) -> bool {
    let n = c as u32;
    (48 <= n <= 57) || (65 <= n <= 90) || (97 <= n <= 122) || n == 45 || n == 46 || n == 95 || n
        == 126
}

/// Whether every character of `s` may stand in a URL as it is.
pub open spec fn all_url_safe(s: Seq<char>) -> bool {
    forall|i: int| 0 <= i < s.len() ==> url_safe(#[trigger] s[i])
}

/// The character for the six-bit value `v` in the URL-safe base64 alphabet:
/// `A`..`Z`, `a`..`z`, `0`..`9`, `-`, `_`.
pub open spec fn base64url_digit(v: int) -> char {
    if v < 26 {
        ((65 + v) as u8) as char
    } else if v < 52 {
        ((97 + (v - 26)) as u8) as char
    } else if v < 62 {
        ((48 + (v - 52)) as u8) as char
    } else if v == 62 {
        '-'
    } else {
        '_'
    }
}

/// The URL-safe base64 text of `bytes`, without padding: each group of
/// three bytes gives four characters, a last group of one byte gives two
/// and a last group of two bytes gives three.
pub open spec fn base64url(bytes: Seq<u8>) -> Seq<char>
    decreases bytes.len(),
{
    if bytes.len() == 0 {
        Seq::empty()
    } else if bytes.len() == 1 {
        seq![base64url_digit(bytes[0] as int / 4), base64url_digit((bytes[0] as int % 4) * 16)]
    } else if bytes.len() == 2 {
        seq![
            base64url_digit(bytes[0] as int / 4),
            base64url_digit((bytes[0] as int % 4) * 16 + bytes[1] as int / 16),
            base64url_digit((bytes[1] as int % 16) * 4),
        ]
    } else {
        seq![
            base64url_digit(bytes[0] as int / 4),
            base64url_digit((bytes[0] as int % 4) * 16 + bytes[1] as int / 16),
            base64url_digit((bytes[1] as int % 16) * 4 + bytes[2] as int / 64),
            base64url_digit(bytes[2] as int % 64),
        ] + base64url(bytes.skip(3))
    }
}

/// The SHA-256 digest of `data`, as the `sha2` crate computes it.
pub uninterp spec fn sha256(data: Seq<u8>) -> Seq<u8>;

/// The PKCE challenge that belongs to `verifier` under the method `S256`:
/// the base64url text of the SHA-256 digest of the verifier's bytes.
pub open spec fn challenge_of(verifier: Seq<char>) -> Seq<char> {
    base64url(sha256(encode_utf8(verifier)))
}

/// A base64url text has `ceil(4n/3)` characters for `n` bytes, and each of
/// them may stand in a URL as it is.
pub proof fn lemma_base64url_shape(bytes: Seq<u8>)
    ensures
        base64url(bytes).len() == (4 * bytes.len() + 2) / 3,
        all_url_safe(base64url(bytes)),
    decreases bytes.len(),
{
    assert forall|v: int| 0 <= v < 64 implies url_safe(#[trigger] base64url_digit(v)) by {}
    if bytes.len() >= 3 {
        lemma_base64url_shape(bytes.skip(3));
        let head = seq![
            base64url_digit(bytes[0] as int / 4),
            base64url_digit((bytes[0] as int % 4) * 16 + bytes[1] as int / 16),
            base64url_digit((bytes[1] as int % 16) * 4 + bytes[2] as int / 64),
            base64url_digit(bytes[2] as int % 64),
        ];
        let tail = base64url(bytes.skip(3));
        assert(base64url(bytes) == head + tail);
        assert forall|i: int| 0 <= i < (head + tail).len() implies url_safe(
            #[trigger] (head + tail)[i],
        ) by {
            if i >= 4 {
                assert((head + tail)[i] == tail[i - 4]);
            }
        }
    }
}

/// Two six-bit values with the same character are the same value.
pub proof fn lemma_base64url_digit_one_to_one(v: int, w: int)
    requires
        0 <= v < 64,
        0 <= w < 64,
        base64url_digit(v) == base64url_digit(w),
    ensures
        v == w,
{
    assert(base64url_digit(v) as u32 == base64url_digit(w) as u32);
}

/// Base64url is one to one: two byte strings with the same text are the
/// same bytes. So two different draws give two different verifiers, and two
/// different states.
pub proof fn lemma_base64url_one_to_one(a: Seq<u8>, b: Seq<u8>)
    requires
        base64url(a) == base64url(b),
    ensures
        a == b,
    decreases a.len(),
{
    lemma_base64url_shape(a);
    lemma_base64url_shape(b);
    assert(a.len() == b.len());
    let x = base64url(a);
    let y = base64url(b);
    if a.len() == 0 {
        assert(a =~= b);
    } else if a.len() == 1 {
        assert(x[0] == y[0]);
        assert(x[1] == y[1]);
        lemma_base64url_digit_one_to_one(a[0] as int / 4, b[0] as int / 4);
        lemma_base64url_digit_one_to_one((a[0] as int % 4) * 16, (b[0] as int % 4) * 16);
        assert(a[0] == b[0]);
        assert(a =~= b);
    } else if a.len() == 2 {
        assert(x[0] == y[0]);
        assert(x[1] == y[1]);
        assert(x[2] == y[2]);
        lemma_base64url_digit_one_to_one(a[0] as int / 4, b[0] as int / 4);
        lemma_base64url_digit_one_to_one(
            (a[0] as int % 4) * 16 + a[1] as int / 16,
            (b[0] as int % 4) * 16 + b[1] as int / 16,
        );
        lemma_base64url_digit_one_to_one((a[1] as int % 16) * 4, (b[1] as int % 16) * 4);
        assert(a[0] == b[0]);
        assert(a[1] == b[1]);
        assert(a =~= b);
    } else {
        let head_a = seq![
            base64url_digit(a[0] as int / 4),
            base64url_digit((a[0] as int % 4) * 16 + a[1] as int / 16),
            base64url_digit((a[1] as int % 16) * 4 + a[2] as int / 64),
            base64url_digit(a[2] as int % 64),
        ];
        let head_b = seq![
            base64url_digit(b[0] as int / 4),
            base64url_digit((b[0] as int % 4) * 16 + b[1] as int / 16),
            base64url_digit((b[1] as int % 16) * 4 + b[2] as int / 64),
            base64url_digit(b[2] as int % 64),
        ];
        let tail_a = base64url(a.skip(3));
        let tail_b = base64url(b.skip(3));
        assert(x == head_a + tail_a);
        assert(y == head_b + tail_b);
        assert(x[0] == head_a[0] && x[1] == head_a[1] && x[2] == head_a[2] && x[3] == head_a[3]);
        assert(y[0] == head_b[0] && y[1] == head_b[1] && y[2] == head_b[2] && y[3] == head_b[3]);
        lemma_base64url_digit_one_to_one(a[0] as int / 4, b[0] as int / 4);
        lemma_base64url_digit_one_to_one(
            (a[0] as int % 4) * 16 + a[1] as int / 16,
            (b[0] as int % 4) * 16 + b[1] as int / 16,
        );
        lemma_base64url_digit_one_to_one(
            (a[1] as int % 16) * 4 + a[2] as int / 64,
            (b[1] as int % 16) * 4 + b[2] as int / 64,
        );
        lemma_base64url_digit_one_to_one(a[2] as int % 64, b[2] as int % 64);
        assert(a[0] == b[0]);
        assert(a[1] == b[1]);
        assert(a[2] == b[2]);
        assert(tail_a =~= x.skip(4));
        assert(tail_b =~= y.skip(4));
        lemma_base64url_one_to_one(a.skip(3), b.skip(3));
        assert forall|i: int| 0 <= i < a.len() implies a[i] == b[i] by {
            if i >= 3 {
                assert(a.skip(3)[i - 3] == a[i]);
                assert(b.skip(3)[i - 3] == b[i]);
            }
        }
        assert(a =~= b);
    }
}

/// Draws that differ pairwise give secrets that differ pairwise: among the
/// base64url texts of byte strings of which no two are the same, no two are
/// the same. The text of a draw depends on that draw alone.
pub proof fn lemma_distinct_draws_give_distinct_secrets(draws: Seq<Seq<u8>>)
    requires
        forall|i: int, j: int| 0 <= i < j < draws.len() ==> draws[i] != draws[j],
    ensures
        forall|i: int, j: int|
            0 <= i < j < draws.len() ==> #[trigger] base64url(draws[i]) != #[trigger] base64url(
                draws[j],
            ),
{
    assert forall|i: int, j: int| 0 <= i < j < draws.len() implies #[trigger] base64url(draws[i])
        != #[trigger] base64url(draws[j]) by {
        if base64url(draws[i]) == base64url(draws[j]) {
            lemma_base64url_one_to_one(draws[i], draws[j]);
        }
    }
}

/// `getrandom::getrandom` on a fresh buffer of `n` bytes: the buffer where
/// the platform's random source filled it, nothing where it reported an
/// error. Nothing is said of the bytes themselves.
#[verifier::external_body]
fn random_bytes(n: usize) -> (r: Option<Vec<u8>>)
    ensures
        r matches Some(buf) ==> buf@.len() == n,
{
    let mut buf = vec![0u8; n];
    getrandom::getrandom(&mut buf).ok().map(|_| buf)
}

/// `encode` of `base64`'s engine `URL_SAFE_NO_PAD`: the URL-safe alphabet
/// of RFC 4648 and no padding. It panics where the length of the text
/// overflows, which the bound excludes.
#[verifier::external_body]
fn base64url_encode(bytes: &[u8]) -> (text: String)
    requires
        4 * bytes@.len() + 3 <= usize::MAX,
    ensures
        text@ == base64url(bytes@),
{
    base64::engine::general_purpose::URL_SAFE_NO_PAD.encode(bytes)
}

/// `digest` of `sha2::Sha256`: the 32 bytes of the SHA-256 digest of
/// `data`.
#[verifier::external_body]
fn sha256_digest(data: &[u8]) -> (digest: Vec<u8>)
    ensures
        digest@ == sha256(data@),
        digest@.len() == 32,
{
    sha2::Sha256::digest(data).to_vec()
}

/// The challenge that belongs to `verifier`.
pub fn challenge_for(verifier: &str) -> (challenge: String)
    ensures
        challenge@ == challenge_of(verifier@),
        challenge@.len() == 43,
        all_url_safe(challenge@),
{
    let digest = sha256_digest(verifier.as_bytes());
    proof {
        lemma_base64url_shape(digest@);
    }
    base64url_encode(digest.as_slice())
}

/// The verifier and challenge made from the random bytes `seed`.
pub fn pkce_from_seed(seed: &[u8]) -> (pair: (String, String))
    requires
        4 * seed@.len() + 3 <= usize::MAX,
    ensures
        pair.0@ == base64url(seed@),
        pair.1@ == challenge_of(pair.0@),
        pair.0@.len() == (4 * seed@.len() + 2) / 3,
        pair.1@.len() == 43,
        all_url_safe(pair.0@),
        all_url_safe(pair.1@),
{
    proof {
        lemma_base64url_shape(seed@);
    }
    let verifier = base64url_encode(seed);
    let challenge = challenge_for(verifier.as_str());
    (verifier, challenge)
}

/// The state token made from the random bytes `seed`: their base64url
/// text, and nothing else.
pub fn state_from_seed(seed: &[u8]) -> (state: String)
    requires
        4 * seed@.len() + 3 <= usize::MAX,
    ensures
        state@ == base64url(seed@),
        state@.len() == (4 * seed@.len() + 2) / 3,
        all_url_safe(state@),
{
    proof {
        lemma_base64url_shape(seed@);
    }
    base64url_encode(seed)
}

/// Whether `verifier` and `challenge` are a PKCE pair as a login makes it:
/// the verifier encodes 32 bytes, the challenge belongs to it.
pub open spec fn pkce_pair(verifier: Seq<char>, challenge: Seq<char>) -> bool {
    &&& exists|seed: Seq<u8>| seed.len() == VERIFIER_BYTES && verifier == #[trigger] base64url(seed)
    &&& challenge == challenge_of(verifier)
}

/// Whether `state` is a state token as a login makes it: it encodes 16
/// bytes.
pub open spec fn state_token(state: Seq<char>) -> bool {
    exists|seed: Seq<u8>| seed.len() == STATE_BYTES && state == #[trigger] base64url(seed)
}

/// A fresh PKCE verifier, from 32 bytes of the platform's random source,
/// and its challenge. Fails only where the random source cannot be read.
pub fn generate_pkce() -> (r: Result<(String, String), AuthFailure>)
    ensures
        match r {
            Ok(pair) => {
                &&& pkce_pair(pair.0@, pair.1@)
                &&& pair.0@.len() == 43
                &&& pair.1@.len() == 43
                &&& all_url_safe(pair.0@)
                &&& all_url_safe(pair.1@)
            },
            Err(why) => why is Entropy,
        },
{
    match random_bytes(VERIFIER_BYTES) {
        Some(seed) => Ok(pkce_from_seed(seed.as_slice())),
        None => Err(AuthFailure::Entropy),
    }
}

/// A fresh state token, from 16 bytes of the platform's random source.
/// Fails only where the random source cannot be read.
pub fn generate_state() -> (r: Result<String, AuthFailure>)
    ensures
        match r {
            Ok(state) => state_token(state@) && state@.len() == 22 && all_url_safe(state@),
            Err(why) => why is Entropy,
        },
{
    match random_bytes(STATE_BYTES) {
        Some(seed) => Ok(state_from_seed(seed.as_slice())),
        None => Err(AuthFailure::Entropy),
    }
}

} // verus!
