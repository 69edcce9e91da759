//! The loopback callback: what the local listener makes of one request.

use vstd::prelude::*;
use vstd::utf8::encode_utf8;
use crate::address::{pairs_view, parse_url, query_pairs, url_query_pairs};
use crate::text::{
    decimal, first_index, join2, lemma_first_index, owned, second_word, text_eq, u64_text,
    word_after_first,
};

verus! {

/// The names of a list of pairs, in order.
pub open spec fn pair_names(pairs: Seq<(Seq<char>, Seq<char>)>) -> Seq<Seq<char>> {
    Seq::new(pairs.len(), |i: int| pairs[i].0)
}

/// The value of the first pair named `key`.
pub open spec fn pair_value(pairs: Seq<(Seq<char>, Seq<char>)>, key: Seq<char>) -> Option<
    Seq<char>,
> {
    match first_index(pair_names(pairs), key) {
        Some(i) => Some(pairs[i].1),
        None => None,
    }
}

/// The value of the first pair named `key`.
pub fn value_of(pairs: &Vec<(String, String)>, key: &str) -> (found: Option<String>)
    ensures
        crate::text::opt_view(found) == pair_value(pairs_view(pairs@), key@),
{
    let ghost names = pair_names(pairs_view(pairs@));
    let mut i: usize = 0;
    while i < pairs.len()
        invariant
            i <= pairs.len(),
            names == pair_names(pairs_view(pairs@)),
            forall|j: int| 0 <= j < i ==> #[trigger] names[j] != key@,
        decreases pairs.len() - i,
    {
        if text_eq(pairs[i].0.as_str(), key) {
            proof {
                assert(names[i as int] == key@);
                lemma_first_index(names, key@);
            }
            return Some(pairs[i].1.clone());
        }
        i += 1;
    }
    proof {
        lemma_first_index(names, key@);
    }
    None
}

/// The page shown in the browser once a code arrived.
pub open spec fn success_page() -> Seq<char> {
    "<!DOCTYPE html>\n<html>\n<head><title>LogChef CLI</title></head>\n<body style=\"font-family: system-ui; text-align: center; padding-top: 50px;\">\n<h1>Authentication Successful!</h1>\n<p>You can close this window and return to the terminal.</p>\n</body>\n</html>"@
}

/// The page shown in the browser for a request without a code.
pub open spec fn failure_page() -> Seq<char> {
    "<!DOCTYPE html>\n<html>\n<head><title>LogChef CLI</title></head>\n<body style=\"font-family: system-ui; text-align: center; padding-top: 50px;\">\n<h1>Authentication Failed</h1>\n<p>Please try again.</p>\n</body>\n</html>"@
}

/// The HTTP answer that carries `page`: status 200, the content type
/// `text/html`, the page's length in bytes, and the page.
pub open spec fn http_answer(page: Seq<char>) -> Seq<char> {
    "HTTP/1.1 200 OK\r\nContent-Type: text/html\r\nContent-Length: "@ + decimal(
        encode_utf8(page).len(),
    ) + "\r\nConnection: close\r\n\r\n"@ + page
}

/// The HTTP answer that carries `page`.
pub fn http_response(page: &str) -> (answer: String)
    ensures
        answer@ == http_answer(page@),
{
    let length = u64_text(page.as_bytes().len() as u64);
    let mut answer = owned("HTTP/1.1 200 OK\r\nContent-Type: text/html\r\nContent-Length: ");
    answer.append(length.as_str());
    answer.append("\r\nConnection: close\r\n\r\n");
    answer.append(page);
    answer
}

/// What the listener does with one connection.
#[derive(Debug)]
pub enum Served {
    /// The request cannot be read as one: nothing is sent, the listener
    /// goes on.
    Dropped,
    /// The request lacks the code or the state: the failure or success page
    /// is sent and the listener goes on.
    Answered { response: String },
    /// The request carries both: the success page is sent, the pair is
    /// reported and the listener closes.
    Completed { response: String, code: String, state: String },
}

/// What the listener does with a request whose query holds `pairs`: it
/// answers with the success page exactly where a code is there, and it
/// completes exactly where a code and a state are there.
pub open spec fn served_for(pairs: Seq<(Seq<char>, Seq<char>)>, r: Served) -> bool {
    match (pair_value(pairs, "code"@), pair_value(pairs, "state"@)) {
        (Some(c), Some(s)) => r matches Served::Completed { response, code, state } && response@
            == http_answer(success_page()) && code@ == c && state@ == s,
        (Some(c), None) => r matches Served::Answered { response } && response@ == http_answer(
            success_page(),
        ),
        (None, _) => r matches Served::Answered { response } && response@ == http_answer(
            failure_page(),
        ),
    }
}

/// What the listener does with a request whose query holds `pairs`.
pub fn serve_pairs(pairs: &Vec<(String, String)>) -> (r: Served)
    ensures
        served_for(pairs_view(pairs@), r),
        r is Completed <==> pair_value(pairs_view(pairs@), "code"@) is Some && pair_value(
            pairs_view(pairs@),
            "state"@,
        ) is Some,
{
    let code = value_of(pairs, "code");
    let state = value_of(pairs, "state");
    let page = if code.is_some() {
        "<!DOCTYPE html>\n<html>\n<head><title>LogChef CLI</title></head>\n<body style=\"font-family: system-ui; text-align: center; padding-top: 50px;\">\n<h1>Authentication Successful!</h1>\n<p>You can close this window and return to the terminal.</p>\n</body>\n</html>"
    } else {
        "<!DOCTYPE html>\n<html>\n<head><title>LogChef CLI</title></head>\n<body style=\"font-family: system-ui; text-align: center; padding-top: 50px;\">\n<h1>Authentication Failed</h1>\n<p>Please try again.</p>\n</body>\n</html>"
    };
    let response = http_response(page);
    match (code, state) {
        (Some(code), Some(state)) => Served::Completed { response, code, state },
        _ => Served::Answered { response },
    }
}

/// The address that a request for `target` is read as.
pub open spec fn callback_address(target: Seq<char>) -> Seq<char> {
    "http://127.0.0.1"@ + target
}

/// What the listener does with a request that starts with `line`, given
/// how the address is read.
pub open spec fn served_line(line: Seq<char>, r: Served) -> bool {
    match second_word(line) {
        None => r is Dropped,
        Some(target) => match url_query_pairs(callback_address(target)) {
            None => r is Dropped,
            Some(pairs) => served_for(pairs, r),
        },
    }
}

/// What the listener does with a connection whose request starts with
/// `line`. Only the request line is read: its second word is the target,
/// which is read as a URL on this host. A line without a target, or with
/// one that is no URL, is dropped.
pub fn serve_request(line: &str) -> (r: Served)
    ensures
        served_line(line@, r),
{
    let target = match word_after_first(line) {
        Some(t) => t,
        None => {
            return Served::Dropped;
        },
    };
    let address = join2("http://127.0.0.1", target.as_str());
    match parse_url(address.as_str()) {
        Some(url) => {
            let pairs = query_pairs(&url);
            serve_pairs(&pairs)
        },
        None => Served::Dropped,
    }
}

} // verus!
