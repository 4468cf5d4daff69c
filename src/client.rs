//! The response of the HTTP collaborator, as plain values.
use vstd::prelude::*;
use crate::text::{opt_chars, seq_contains, str_contains, str_eq};

verus! {

/// A header list as character sequences.
pub type HeadersView = Seq<(Seq<char>, Seq<char>)>;

/// Value of the first header named `name`.
pub open spec fn header_lookup(hs: HeadersView, name: Seq<char>) -> Option<Seq<char>>
    decreases hs.len(),
{
    if hs.len() == 0 {
        None
    } else if hs[0].0 == name {
        Some(hs[0].1)
    } else {
        header_lookup(hs.drop_first(), name)
    }
}

pub open spec fn headers_view(hs: Seq<(String, String)>) -> HeadersView {
    hs.map_values(|p: (String, String)| (p.0@, p.1@))
}

/// One response: status code, headers with lower-case names, body text and
/// the time it took in milliseconds.
#[derive(Debug, Clone)]
pub struct HttpResponse {
    pub status: u16,
    pub headers: Vec<(String, String)>,
    pub body: String,
    pub response_time_ms: u64,
}

/// Looks up the first header named `name` in `hs`.
pub fn find_header(hs: &Vec<(String, String)>, name: &str) -> (r: Option<String>)
    ensures
        opt_chars(r) == header_lookup(headers_view(hs@), name@),
{
    let ghost hv = headers_view(hs@);
    let mut i: usize = 0;
    assert(hv.subrange(0, hv.len() as int) =~= hv);
    while i < hs.len()
        invariant
            0 <= i <= hs.len(),
            hv == headers_view(hs@),
            header_lookup(hv, name@) == header_lookup(hv.subrange(i as int, hv.len() as int), name@),
        decreases hs.len() - i,
    {
        let ghost rest = hv.subrange(i as int, hv.len() as int);
        assert(rest.drop_first() =~= hv.subrange(i + 1, hv.len() as int));
        assert(rest[0] == hv[i as int]);
        assert(hv[i as int].0 == hs@[i as int].0@);
        if str_eq(hs[i].0.as_str(), name) {
            return Some(hs[i].1.clone());
        }
        i += 1;
    }
    None
}

pub open spec fn content_type_of(r: HttpResponse) -> Option<Seq<char>> {
    header_lookup(headers_view(r.headers@), "content-type"@)
}

pub open spec fn is_html_response(r: HttpResponse) -> bool {
    content_type_of(r) is Some && seq_contains(content_type_of(r)->Some_0, "text/html"@)
}

impl HttpResponse {
    pub fn is_success(&self) -> (r: bool)
        ensures
            r == (200 <= self.status < 300),
    {
        200 <= self.status && self.status < 300
    }

    pub fn is_redirect(&self) -> (r: bool)
        ensures
            r == (300 <= self.status < 400),
    {
        300 <= self.status && self.status < 400
    }

    pub fn is_client_error(&self) -> (r: bool)
        ensures
            r == (400 <= self.status < 500),
    {
        400 <= self.status && self.status < 500
    }

    pub fn is_server_error(&self) -> (r: bool)
        ensures
            r == (500 <= self.status < 600),
    {
        500 <= self.status && self.status < 600
    }

    /// Value of the header named `name` (names are lower case).
    pub fn header(&self, name: &str) -> (r: Option<String>)
        ensures
            opt_chars(r) == header_lookup(headers_view(self.headers@), name@),
    {
        find_header(&self.headers, name)
    }

    pub fn content_type(&self) -> (r: Option<String>)
        ensures
            opt_chars(r) == content_type_of(*self),
    {
        find_header(&self.headers, "content-type")
    }

    pub fn is_html(&self) -> (r: bool)
        ensures
            r == is_html_response(*self),
    {
        match self.content_type() {
            Some(ct) => str_contains(ct.as_str(), "text/html"),
            None => false,
        }
    }

    pub fn is_json(&self) -> (r: bool)
        ensures
            r == (content_type_of(*self) is Some && seq_contains(
                content_type_of(*self)->Some_0,
                "application/json"@,
            )),
    {
        match self.content_type() {
            Some(ct) => str_contains(ct.as_str(), "application/json"),
            None => false,
        }
    }
}

} // verus!
