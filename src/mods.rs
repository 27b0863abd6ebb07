//! Mod search against the Modrinth API: the shapes of its answers, and the
//! request URLs for a search and for a project's versions.

use vstd::prelude::*;
use vstd::utf8::encode_utf8;

verus! {

#[derive(Debug, Clone, Copy, PartialEq, Eq, Structural)]
pub enum SupportedPlatforms {
    Required,
    Optional,
    Unsupported,
    Unknown,
}

#[derive(Debug, Clone, Copy, PartialEq, Eq, Structural)]
pub enum ProjectType {
    Mod,
    Modpack,
    Resourcepack,
    Shader,
}

#[derive(Debug, Clone, PartialEq, Eq)]
pub struct SearchResult {
    pub hits: Vec<Mod>,
    pub offset: i64,
    pub limit: i64,
    pub total_hits: i64,
}

#[derive(Debug, Clone, PartialEq, Eq)]
pub struct Mod {
    pub slug: String,
    pub title: String,
    pub description: String,
    pub categories: Vec<String>,
    pub client_side: SupportedPlatforms,
    pub server_side: SupportedPlatforms,
    pub project_type: ProjectType,
    pub downloads: i64,
    pub icon_url: String,
    pub color: i64,
    pub project_id: String,
    pub author: String,
    pub display_categories: Vec<String>,
    pub versions: Vec<String>,
    pub follows: i64,
    pub date_modified: String,
    pub latest_version: String,
    pub license: String,
}

#[derive(Debug, Clone, PartialEq, Eq)]
pub struct ModVersion {
    pub name: String,
    pub version_number: String,
    pub changelog: String,
    pub files: Vec<ModVersionFile>,
}

#[derive(Debug, Clone, PartialEq, Eq)]
pub struct ModVersionFile {
    pub url: String,
    pub filename: String,
}

/// Base of the Modrinth API.
pub const MODRINTH_API: &'static str = "https://api.modrinth.com/v2/";

/// Bytes that percent-encoding leaves alone: ASCII letters, digits, `-._~`.
pub open spec fn is_unreserved(b: u8) -> bool {
    (0x30 <= b <= 0x39) || (0x41 <= b <= 0x5A) || (0x61 <= b <= 0x7A) || b == 0x2D || b == 0x2E
        || b == 0x5F || b == 0x7E
}

/// Upper-case hex digit of a value below 16.
pub open spec fn hex_digit(d: int) -> char {
    seq!['0', '1', '2', '3', '4', '5', '6', '7', '8', '9', 'A', 'B', 'C', 'D', 'E', 'F'][d]
}

/// Each unreserved byte as itself, every other byte as `%XX`.
pub open spec fn percent_encode_bytes(bs: Seq<u8>) -> Seq<char>
    decreases bs.len(),
{
    if bs.len() == 0 {
        seq![]
    } else {
        let b = bs[0];
        let head = if is_unreserved(b) {
            seq![b as char]
        } else {
            seq!['%', hex_digit(b as int / 16), hex_digit(b as int % 16)]
        };
        head + percent_encode_bytes(bs.drop_first())
    }
}

/// Percent-encoding of the UTF-8 bytes of a string.
pub open spec fn url_encoded(s: Seq<char>) -> Seq<char> {
    percent_encode_bytes(encode_utf8(s))
}

/// Relies on `urlencoding::encode`: percent-encodes every UTF-8 byte but
/// ASCII alphanumerics and `-._~`, with upper-case hex digits.
#[verifier::external_body]
fn url_encode(s: &str) -> (r: String)
    ensures
        r@ == url_encoded(s@),
{
    urlencoding::encode(s).into_owned()
}

/// Decimal digits of a natural number.
pub open spec fn digits_of(n: nat) -> Seq<char>
    decreases n,
{
    if n < 10 {
        seq![hex_digit(n as int)]
    } else {
        digits_of(n / 10).push(hex_digit((n % 10) as int))
    }
}

/// Decimal text of an integer, with a leading `-` where it is negative.
pub open spec fn decimal_of(n: int) -> Seq<char> {
    if n < 0 {
        seq!['-'] + digits_of((-n) as nat)
    } else {
        digits_of(n as nat)
    }
}

fn digit_char(d: u64) -> (c: char)
    requires
        d < 10,
    ensures
        c == hex_digit(d as int),
{
    match d {
        0 => '0',
        1 => '1',
        2 => '2',
        3 => '3',
        4 => '4',
        5 => '5',
        6 => '6',
        7 => '7',
        8 => '8',
        _ => '9',
    }
}

/// Decimal text of `n`.
pub fn decimal(n: i64) -> (r: String)
    ensures
        r@ == decimal_of(n as int),
{
    let m: u64 = if n < 0 {
        (-(n as i128)) as u64
    } else {
        n as u64
    };
    let mut rest: u64 = m;
    let mut digits: Vec<char> = Vec::new();
    while rest >= 10
        invariant
            digits_of(m as nat) == digits_of(rest as nat) + digits@,
        decreases rest,
    {
        let d = digit_char(rest % 10);
        let ghost before = digits@;
        assert(digits_of(rest as nat) == digits_of((rest / 10) as nat).push(d));
        digits.insert(0, d);
        assert(digits@ =~= seq![d] + before);
        assert(digits_of((rest / 10) as nat).push(d) + before =~= digits_of((rest / 10) as nat) + digits@);
        rest = rest / 10;
    }
    let d = digit_char(rest);
    let ghost before = digits@;
    digits.insert(0, d);
    assert(digits@ =~= seq![d] + before);
    assert(digits_of(rest as nat) == seq![d]);
    assert(digits@ =~= digits_of(m as nat));
    if n < 0 {
        let ghost before = digits@;
        digits.insert(0, '-');
        assert(digits@ =~= seq!['-'] + before);
    }
    crate::text::string_of(digits.as_slice())
}

/// JSON text of a list of string lists.
pub uninterp spec fn json_of_string_lists(v: Seq<Seq<Seq<char>>>) -> Seq<char>;

/// Relies on `serde_json::to_string` on a `Vec<Vec<String>>`: its JSON text.
/// It cannot fail here: it writes into a `Vec<u8>`, whose writes never fail,
/// and strings and sequences of them always serialise.
#[verifier::external_body]
fn string_lists_json(v: &Vec<Vec<String>>) -> (r: Option<String>)
    ensures
        r is Some && r->Some_0@ == json_of_string_lists(v.deep_view()),
{
    serde_json::to_string(v).ok()
}

/// JSON text of a string (a quoted, escaped literal).
pub uninterp spec fn json_of_string(s: Seq<char>) -> Seq<char>;

/// Relies on `serde_json::to_string` on a `String`: the JSON string literal.
/// It cannot fail here: it writes into a `Vec<u8>`, whose writes never fail.
#[verifier::external_body]
fn string_json(s: &String) -> (r: Option<String>)
    ensures
        r is Some && r->Some_0@ == json_of_string(s@),
{
    serde_json::to_string(s).ok()
}

/// The search URL, given the JSON text of the facets.
pub open spec fn search_url_of(
    query: Seq<char>,
    facets_json: Seq<char>,
    index: Seq<char>,
    offset: int,
    limit: int,
) -> Seq<char> {
    MODRINTH_API@ + "search?query="@ + query + "&facets="@ + url_encoded(facets_json) + "&index="@
        + index + "&offset="@ + decimal_of(offset) + "&limit="@ + decimal_of(limit)
}

/// The versions URL, given the JSON text of the game versions and loaders.
pub open spec fn versions_url_of(id: Seq<char>, versions_json: Seq<char>, loaders_json: Seq<char>) -> Seq<char> {
    MODRINTH_API@ + id + "/version?game_versions="@ + url_encoded(versions_json) + "&loaders="@
        + url_encoded(loaders_json)
}

/// URL of a search: the query and index as given, the facets as encoded
/// JSON, offset and limit in decimal.
pub fn mod_search_url(query: &str, facets: &Vec<Vec<String>>, index: &str, offset: i64, limit: i64) -> (r: String)
    ensures
        r@ == search_url_of(query@, json_of_string_lists(facets.deep_view()), index@, offset as int, limit as int),
{
    let json = string_lists_json(facets).unwrap();
    let encoded = url_encode(json.as_str());
    let off = decimal(offset);
    let lim = decimal(limit);
    let mut url = MODRINTH_API.to_owned();
    url.append("search?query=");
    url.append(query);
    url.append("&facets=");
    url.append(encoded.as_str());
    url.append("&index=");
    url.append(index);
    url.append("&offset=");
    url.append(off.as_str());
    url.append("&limit=");
    url.append(lim.as_str());
    url
}

/// URL of a project's versions, filtered by game versions and loaders (each
/// sent as an encoded JSON string).
pub fn mod_versions_url(id: &str, game_versions: &String, loaders: &String) -> (r: String)
    ensures
        r@ == versions_url_of(id@, json_of_string(game_versions@), json_of_string(loaders@)),
{
    let versions_json = string_json(game_versions).unwrap();
    let loaders_json = string_json(loaders).unwrap();
    let encoded_versions = url_encode(versions_json.as_str());
    let encoded_loaders = url_encode(loaders_json.as_str());
    let mut url = MODRINTH_API.to_owned();
    url.append(id);
    url.append("/version?game_versions=");
    url.append(encoded_versions.as_str());
    url.append("&loaders=");
    url.append(encoded_loaders.as_str());
    url
}

} // verus!
