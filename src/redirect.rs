//! The redirect listener's request handling: the request line that the
//! browser sends to the local redirect endpoint is reduced to the
//! authorization code and state it carries, and the listener answers with a
//! fixed acknowledgment page.

use vstd::prelude::*;

use crate::text::{chars_of, string_of};

verus! {

/// What the identity provider hands back through the redirect.
#[derive(Debug)]
pub struct RedirectParams {
    pub code: String,
    pub state: String,
}

/// Why no authorization code came back through the redirect.
#[derive(Debug, Clone, Copy, PartialEq, Eq, Structural)]
pub enum RedirectError {
    /// The listener could not accept or read the connection.
    Failure,
    /// The request line did not parse, or lacked `code` or `state`.
    Malformed,
}

/// Characters that `str::split_whitespace` splits on (Unicode White_Space).
pub open spec fn is_space(c: char) -> bool {
    let n = c as u32;
    (0x9 <= n <= 0xD) || n == 0x20 || n == 0x85 || n == 0xA0 || n == 0x1680
        || (0x2000 <= n <= 0x200A) || n == 0x2028 || n == 0x2029 || n == 0x202F
        || n == 0x205F || n == 0x3000
}

/// First position at or after `i` that holds no whitespace (or the end).
pub open spec fn skip_spaces(s: Seq<char>, i: nat) -> nat
    decreases s.len() - i,
{
    if i < s.len() && is_space(s[i as int]) {
        skip_spaces(s, i + 1)
    } else {
        i
    }
}

/// First position at or after `i` that holds whitespace (or the end).
pub open spec fn word_end(s: Seq<char>, i: nat) -> nat
    decreases s.len() - i,
{
    if i < s.len() && !is_space(s[i as int]) {
        word_end(s, i + 1)
    } else {
        i
    }
}

/// The second whitespace-separated word of a request line
/// (`METHOD PATH_AND_QUERY PROTOCOL`), if it has one.
pub open spec fn request_target_of(line: Seq<char>) -> Option<Seq<char>> {
    let first = skip_spaces(line, 0);
    let second = skip_spaces(line, word_end(line, first));
    if second < line.len() {
        Some(line.subrange(second as int, word_end(line, second) as int))
    } else {
        None
    }
}

/// Name/value pairs as plain character sequences.
pub open spec fn pairs_view(ps: Seq<(String, String)>) -> Seq<(Seq<char>, Seq<char>)> {
    ps.map_values(|p: (String, String)| (p.0@, p.1@))
}

pub open spec fn opt_pairs_view(q: Option<Vec<(String, String)>>) -> Option<
    Seq<(Seq<char>, Seq<char>)>,
> {
    match q {
        Some(v) => Some(pairs_view(v@)),
        None => None,
    }
}

/// Value of the first pair named `key`.
pub open spec fn first_value(ps: Seq<(Seq<char>, Seq<char>)>, key: Seq<char>) -> Option<Seq<char>>
    decreases ps.len(),
{
    if ps.len() == 0 {
        None
    } else if ps[0].0 == key {
        Some(ps[0].1)
    } else {
        first_value(ps.drop_first(), key)
    }
}

/// Decoded query pairs of a URL; `None` where the text does not parse as a URL.
pub uninterp spec fn query_pairs_of(url: Seq<char>) -> Option<Seq<(Seq<char>, Seq<char>)>>;

/// Relies on `url::Url::parse` (re-exported by reqwest) and `Url::query_pairs`:
/// `None` where the text is no URL, else the percent-decoded name/value pairs
/// of its query, in order.
#[verifier::external_body]
fn query_pairs(url: &str) -> (r: Option<Vec<(String, String)>>)
    ensures
        opt_pairs_view(r) == query_pairs_of(url@),
{
    match reqwest::Url::parse(url) {
        Ok(u) => Some(u.query_pairs().map(|(k, v)| (k.into_owned(), v.into_owned())).collect()),
        Err(_) => None,
    }
}

/// `(code, state)` held by a parsed query, where both are present.
pub open spec fn code_and_state_of(q: Option<Seq<(Seq<char>, Seq<char>)>>) -> Option<
    (Seq<char>, Seq<char>),
> {
    match q {
        None => None,
        Some(ps) => match (first_value(ps, "code"@), first_value(ps, "state"@)) {
            (Some(c), Some(s)) => Some((c, s)),
            _ => None,
        },
    }
}

/// The origin that a request target is resolved against.
pub open spec fn local_origin() -> Seq<char> {
    "http://localhost"@
}

/// `(code, state)` carried by a request line, if it parses and holds both.
pub open spec fn redirect_of_line(line: Seq<char>) -> Option<(Seq<char>, Seq<char>)> {
    match request_target_of(line) {
        None => None,
        Some(t) => code_and_state_of(query_pairs_of(local_origin() + t)),
    }
}

/// The result that a parse with the given outcome spec returns.
pub open spec fn redirect_result_matches(
    r: Result<RedirectParams, RedirectError>,
    expected: Option<(Seq<char>, Seq<char>)>,
) -> bool {
    match expected {
        Some((c, s)) => r is Ok && r->Ok_0.code@ == c && r->Ok_0.state@ == s,
        None => r == Err::<RedirectParams, RedirectError>(RedirectError::Malformed),
    }
}

fn is_space_char(c: char) -> (r: bool)
    ensures
        r == is_space(c),
{
    let n = c as u32;
    (0x9 <= n && n <= 0xD) || n == 0x20 || n == 0x85 || n == 0xA0 || n == 0x1680 || (0x2000 <= n
        && n <= 0x200A) || n == 0x2028 || n == 0x2029 || n == 0x202F || n == 0x205F || n == 0x3000
}

fn skip_spaces_from(s: &Vec<char>, start: usize) -> (r: usize)
    requires
        start <= s@.len(),
    ensures
        r == skip_spaces(s@, start as nat),
        start <= r <= s@.len(),
{
    let mut i = start;
    while i < s.len() && is_space_char(s[i])
        invariant
            start <= i <= s@.len(),
            skip_spaces(s@, i as nat) == skip_spaces(s@, start as nat),
        decreases s@.len() - i,
    {
        i = i + 1;
    }
    i
}

fn word_end_from(s: &Vec<char>, start: usize) -> (r: usize)
    requires
        start <= s@.len(),
    ensures
        r == word_end(s@, start as nat),
        start <= r <= s@.len(),
{
    let mut i = start;
    while i < s.len() && !is_space_char(s[i])
        invariant
            start <= i <= s@.len(),
            word_end(s@, i as nat) == word_end(s@, start as nat),
        decreases s@.len() - i,
    {
        i = i + 1;
    }
    i
}

/// The path and query of a request line: its second whitespace-separated word.
pub fn request_target(line: &str) -> (r: Option<String>)
    ensures
        match request_target_of(line@) {
            Some(t) => r is Some && r->Some_0@ == t,
            None => r is None,
        },
{
    let cs = chars_of(line);
    let first = skip_spaces_from(&cs, 0);
    let first_end = word_end_from(&cs, first);
    let second = skip_spaces_from(&cs, first_end);
    if second < cs.len() {
        let second_end = word_end_from(&cs, second);
        let mut word: Vec<char> = Vec::new();
        let mut i = second;
        while i < second_end
            invariant
                second <= i <= second_end <= cs@.len(),
                word@ == cs@.subrange(second as int, i as int),
            decreases second_end - i,
        {
            word.push(cs[i]);
            i = i + 1;
        }
        Some(string_of(word.as_slice()))
    } else {
        None
    }
}

/// Value of the first pair named `key`.
pub fn find_query_value(pairs: &Vec<(String, String)>, key: &str) -> (r: Option<String>)
    ensures
        match first_value(pairs_view(pairs@), key@) {
            Some(v) => r is Some && r->Some_0@ == v,
            None => r is None,
        },
{
    let ghost ps = pairs_view(pairs@);
    let wanted = key.to_owned();
    let mut i: usize = 0;
    assert(ps.subrange(0, ps.len() as int) =~= ps);
    while i < pairs.len()
        invariant
            0 <= i <= pairs@.len(),
            ps == pairs_view(pairs@),
            wanted@ == key@,
            first_value(ps, key@) == first_value(ps.subrange(i as int, ps.len() as int), key@),
        decreases pairs@.len() - i,
    {
        assert(ps.subrange(i as int, ps.len() as int).drop_first() =~= ps.subrange(
            i as int + 1,
            ps.len() as int,
        ));
        if pairs[i].0 == wanted {
            return Some(pairs[i].1.clone());
        }
        i = i + 1;
    }
    assert(ps.subrange(i as int, ps.len() as int) =~= Seq::<(Seq<char>, Seq<char>)>::empty());
    None
}

/// Takes the decoded query of a redirect (or `None` where its URL did not
/// parse) to the code and state it carries.
pub fn params_from_query(query: Option<Vec<(String, String)>>) -> (r: Result<
    RedirectParams,
    RedirectError,
>)
    ensures
        redirect_result_matches(r, code_and_state_of(opt_pairs_view(query))),
{
    match query {
        None => Err(RedirectError::Malformed),
        Some(pairs) => {
            let code = find_query_value(&pairs, "code");
            let state = find_query_value(&pairs, "state");
            match (code, state) {
                (Some(code), Some(state)) => Ok(RedirectParams { code, state }),
                _ => Err(RedirectError::Malformed),
            }
        },
    }
}

/// Body of the page shown in the browser once the redirect arrived.
pub const ACK_MESSAGE: &'static str = "Go back to your terminal :)";

/// The listener's whole answer: status 200, the length of the body, the body.
pub fn redirect_response() -> (r: String)
    ensures
        r@ == "HTTP/1.1 200 OK\r\ncontent-length: 27\r\n\r\n"@ + ACK_MESSAGE@,
        ACK_MESSAGE@.len() == 27,
{
    proof {
        reveal_strlit("Go back to your terminal :)");
    }
    let mut r = "HTTP/1.1 200 OK\r\ncontent-length: 27\r\n\r\n".to_owned();
    r.append(ACK_MESSAGE);
    r
}

/// Reads the authorization code and state out of the request line that the
/// browser sent to the redirect endpoint.
pub fn parse_request_line(line: &str) -> (r: Result<RedirectParams, RedirectError>)
    ensures
        redirect_result_matches(r, redirect_of_line(line@)),
{
    match request_target(line) {
        None => Err(RedirectError::Malformed),
        Some(target) => {
            let mut url = "http://localhost".to_owned();
            url.append(target.as_str());
            params_from_query(query_pairs(url.as_str()))
        },
    }
}

} // verus!
