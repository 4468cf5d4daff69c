//! URL handling through the `url` and `urlencoding` crates.
use vstd::prelude::*;
use vstd::utf8::encode_utf8;

verus! {

/// The normalized serialization of `s` as an absolute URL, or `None` when it
/// does not parse.
pub uninterp spec fn url_serialization(s: Seq<char>) -> Option<Seq<char>>;

/// The host of `s`, or `None` when it does not parse or has no host.
pub uninterp spec fn url_host(s: Seq<char>) -> Option<Seq<char>>;

/// The absolute URL that `href` names relative to `base`, or `None` when
/// `base` does not parse or `href` cannot be resolved against it.
pub uninterp spec fn joined_url(base: Seq<char>, href: Seq<char>) -> Option<Seq<char>>;

/// Names of the query parameters of `s`, in order; empty when it does not parse.
pub uninterp spec fn query_keys(s: Seq<char>) -> Seq<Seq<char>>;

/// Relies on `url::Url::parse` and `Url::as_str`: parses `s` and returns its
/// normalized serialization, or the parse error's message.
#[verifier::external_body]
pub fn normalize_url(s: &str) -> (r: Result<String, String>)
    ensures
        r is Ok <==> url_serialization(s@) is Some,
        r is Ok ==> url_serialization(s@) == Some(r->Ok_0@),
{
    match url::Url::parse(s) {
        Ok(u) => Ok(u.as_str().to_string()),
        Err(e) => Err(e.to_string()),
    }
}

/// Relies on `url::Url::parse` and `Url::host_str`: the host of a URL.
#[verifier::external_body]
pub fn host_of(s: &str) -> (r: Option<String>)
    ensures
        match r {
            Some(h) => url_host(s@) == Some(h@),
            None => url_host(s@) is None,
        },
{
    url::Url::parse(s).ok().and_then(|u| u.host_str().map(|h| h.to_string()))
}

/// Relies on `url::Url::join`: resolves `href` against the absolute URL `base`.
#[verifier::external_body]
pub fn join_url(base: &str, href: &str) -> (r: Option<String>)
    ensures
        match r {
            Some(u) => joined_url(base@, href@) == Some(u@),
            None => joined_url(base@, href@) is None,
        },
{
    url::Url::parse(base).ok().and_then(|b| b.join(href).ok()).map(|u| u.to_string())
}

/// Relies on `url::Url::query_pairs`: the names of the query parameters.
#[verifier::external_body]
pub fn query_param_names(s: &str) -> (r: Vec<String>)
    ensures
        r@.map_values(|k: String| k@) == query_keys(s@),
{
    match url::Url::parse(s) {
        Ok(u) => u.query_pairs().map(|(k, _)| k.into_owned()).collect(),
        Err(_) => Vec::new(),
    }
}

/// Bytes that percent-encoding leaves as they are.
pub open spec fn is_unreserved(b: u8) -> bool {
    (48 <= b <= 57) || (65 <= b <= 90) || (97 <= b <= 122) || b == 45 || b == 46 || b == 95
        || b == 126
}

pub open spec fn upper_hex_digit(d: u8) -> char {
    seq!['0', '1', '2', '3', '4', '5', '6', '7', '8', '9', 'A', 'B', 'C', 'D', 'E', 'F'][d as int]
}

/// Percent-encoding of one byte.
pub open spec fn encode_byte(b: u8) -> Seq<char> {
    if is_unreserved(b) {
        seq![b as char]
    } else {
        seq!['%', upper_hex_digit(b / 16), upper_hex_digit(b % 16)]
    }
}

/// Percent-encoding of a byte sequence.
pub open spec fn percent_encode(bs: Seq<u8>) -> Seq<char>
    decreases bs.len(),
{
    if bs.len() == 0 {
        Seq::empty()
    } else {
        percent_encode(bs.drop_last()) + encode_byte(bs.last())
    }
}

/// Relies on `urlencoding::encode`: every UTF-8 byte but ASCII letters,
/// digits and `-._~` becomes `%` and two upper-case hex digits.
#[verifier::external_body]
pub fn url_encode(s: &str) -> (r: String)
    ensures
        r@ == percent_encode(encode_utf8(s@)),
{
    urlencoding::encode(s).into_owned()
}

} // verus!
