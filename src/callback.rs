//! The provider's redirect, as the local listener receives it: the request
//! line, the authorization code in its query, and the listener's states.

use vstd::prelude::*;
use vstd::string::*;
use crate::error::AuthError;

verus! {

/// The origin that a request target of the callback is resolved against.
pub const CALLBACK_ORIGIN: &'static str = "http://localhost";

/// Characters with the Unicode `White_Space` property.
pub open spec fn is_ws(c: char) -> bool {
    let u = c as u32;
    ||| 0x09 <= u <= 0x0D
    ||| u == 0x20
    ||| u == 0x85
    ||| u == 0xA0
    ||| u == 0x1680
    ||| 0x2000 <= u <= 0x200A
    ||| u == 0x2028
    ||| u == 0x2029
    ||| u == 0x202F
    ||| u == 0x205F
    ||| u == 0x3000
}

/// Whether `c` is white space.
pub fn is_whitespace(c: char) -> (r: bool)
    ensures
        r == is_ws(c),
{
    let u = c as u32;
    (0x09 <= u && u <= 0x0D) || u == 0x20 || u == 0x85 || u == 0xA0 || u == 0x1680 || (0x2000 <= u
        && u <= 0x200A) || u == 0x2028 || u == 0x2029 || u == 0x202F || u == 0x205F || u == 0x3000
}

/// The first index from `i` on whose character is white space exactly when
/// `ws` is false; the length of `s` if there is none.
pub open spec fn skip_run(s: Seq<char>, i: int, ws: bool) -> int
    decreases s.len() - i,
{
    if i < 0 || i >= s.len() {
        s.len() as int
    } else if is_ws(s[i]) == ws {
        skip_run(s, i + 1, ws)
    } else {
        i
    }
}

/// The second word of a line, words being separated by white space: the
/// request target of an HTTP request line `METHOD TARGET VERSION`.
pub open spec fn request_target_of(line: Seq<char>) -> Option<Seq<char>> {
    let a = skip_run(line, 0, true);
    let b = skip_run(line, a, false);
    let c = skip_run(line, b, true);
    let d = skip_run(line, c, false);
    if c < d {
        Some(line.subrange(c, d))
    } else {
        None
    }
}

fn skip_run_from(s: &str, n: usize, i: usize, ws: bool) -> (j: usize)
    requires
        n == s@.len(),
        i <= n,
    ensures
        j == skip_run(s@, i as int, ws),
        i <= j <= n,
{
    let mut j = i;
    while j < n && is_whitespace(s.get_char(j)) == ws
        invariant
            n == s@.len(),
            i <= j <= n,
            skip_run(s@, j as int, ws) == skip_run(s@, i as int, ws),
        decreases n - j,
    {
        j = j + 1;
    }
    j
}

/// The request target of an HTTP request line: its second word.
pub fn request_target(line: &str) -> (r: Option<String>)
    ensures
        match r {
            Some(t) => request_target_of(line@) == Some(t@),
            None => request_target_of(line@).is_none(),
        },
{
    let n = line.unicode_len();
    let a = skip_run_from(line, n, 0, true);
    let b = skip_run_from(line, n, a, false);
    let c = skip_run_from(line, n, b, true);
    let d = skip_run_from(line, n, c, false);
    if c < d {
        Some(String::from_str(line.substring_char(c, d)))
    } else {
        None
    }
}

/// What `url::Url` makes of `url`: the port it names or its scheme implies,
/// and the decoded `(key, value)` pairs of its query; `None` when `url` is
/// not an absolute URL.
pub uninterp spec fn parsed_url(url: Seq<char>) -> Option<(Option<u16>, Seq<(Seq<char>, Seq<char>)>)>;

/// The views of a list of string pairs.
pub open spec fn pairs_view(pairs: Seq<(String, String)>) -> Seq<(Seq<char>, Seq<char>)> {
    pairs.map_values(|p: (String, String)| (p.0@, p.1@))
}

/// The parts of a parsed URL that the flow reads.
pub struct UrlParts {
    pub port: Option<u16>,
    pub query_pairs: Vec<(String, String)>,
}

/// Relies on url::Url::parse, which accepts or refuses `url`, and on the
/// parsed URL's port_or_known_default and query_pairs; all of it depends on
/// the text of `url` alone.
#[verifier::external_body]
fn parse_url(url: &str) -> (r: Option<UrlParts>)
    ensures
        match r {
            Some(p) => parsed_url(url@) == Some((p.port, pairs_view(p.query_pairs@))),
            None => parsed_url(url@).is_none(),
        },
{
    match url::Url::parse(url) {
        Ok(u) => Some(
            UrlParts {
                port: u.port_or_known_default(),
                query_pairs: u.query_pairs().map(|(k, v)| (k.into_owned(), v.into_owned())).collect(),
            },
        ),
        Err(_) => None,
    }
}

/// The loopback port to listen on: the one the redirect URI names or its
/// scheme implies, or `PortUnavailable` when there is none.
pub fn callback_port(redirect_uri: &str) -> (r: Result<u16, AuthError>)
    ensures
        match parsed_url(redirect_uri@) {
            Some((Some(p), _)) => r == Ok::<u16, AuthError>(p),
            _ => r == Err::<u16, AuthError>(AuthError::PortUnavailable),
        },
{
    match parse_url(redirect_uri) {
        Some(parts) => match parts.port {
            Some(p) => Ok(p),
            None => Err(AuthError::PortUnavailable),
        },
        None => Err(AuthError::PortUnavailable),
    }
}

/// The value of the first pair whose key is `key`.
pub open spec fn first_value(pairs: Seq<(Seq<char>, Seq<char>)>, key: Seq<char>) -> Option<Seq<char>>
    decreases pairs.len(),
{
    if pairs.len() == 0 {
        None
    } else if pairs[0].0 == key {
        Some(pairs[0].1)
    } else {
        first_value(pairs.drop_first(), key)
    }
}

/// The value of the first `code` pair among decoded query pairs.
pub fn find_code(pairs: &Vec<(String, String)>) -> (r: Option<String>)
    ensures
        match r {
            Some(c) => first_value(pairs_view(pairs@), "code"@) == Some(c@),
            None => first_value(pairs_view(pairs@), "code"@).is_none(),
        },
{
    let key = String::from_str("code");
    let ghost pv = pairs_view(pairs@);
    let mut i: usize = 0;
    assert(pv.skip(0) =~= pv);
    while i < pairs.len()
        invariant
            i <= pairs.len(),
            key@ == "code"@,
            pv == pairs_view(pairs@),
            first_value(pv, key@) == first_value(pv.skip(i as int), key@),
        decreases pairs.len() - i,
    {
        assert(pv.skip(i as int)[0] == pv[i as int]);
        if pairs[i].0 == key {
            return Some(pairs[i].1.clone());
        }
        assert(pv.skip(i as int).drop_first() =~= pv.skip(i + 1));
        i = i + 1;
    }
    assert(pv.skip(i as int) =~= Seq::<(Seq<char>, Seq<char>)>::empty());
    None
}

/// The authorization code that a callback request line carries: the first
/// `code` parameter of its request target, resolved against the callback
/// origin.
pub open spec fn code_in_request_line(line: Seq<char>) -> Option<Seq<char>> {
    match request_target_of(line) {
        None => None,
        Some(target) => match parsed_url(CALLBACK_ORIGIN@ + target) {
            None => None,
            Some((_, pairs)) => first_value(pairs, "code"@),
        },
    }
}

/// The authorization code in a callback's request line, if it has one.
pub fn extract_code(request_line: &str) -> (r: Option<String>)
    ensures
        match r {
            Some(c) => code_in_request_line(request_line@) == Some(c@),
            None => code_in_request_line(request_line@).is_none(),
        },
{
    match request_target(request_line) {
        None => None,
        Some(target) => {
            let mut url = String::from_str(CALLBACK_ORIGIN);
            url.append(target.as_str());
            match parse_url(url.as_str()) {
                None => None,
                Some(parts) => find_code(&parts.query_pairs),
            }
        },
    }
}

/// What a callback means for the flow: its code, or `CallbackDenied` when it
/// carries none (the provider sent an `error` parameter, or the request is
/// malformed).
pub fn callback_outcome(request_line: &str) -> (r: Result<String, AuthError>)
    ensures
        match code_in_request_line(request_line@) {
            Some(c) => r is Ok && r->Ok_0@ == c,
            None => r == Err::<String, AuthError>(AuthError::CallbackDenied),
        },
{
    match extract_code(request_line) {
        Some(code) => Ok(code),
        None => Err(AuthError::CallbackDenied),
    }
}

} // verus!
