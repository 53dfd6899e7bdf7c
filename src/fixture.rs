//! The request and response records exchanged with a guest, and the golden
//! values every strategy is driven with and checked against.
use vstd::prelude::*;
use vstd::string::*;

verus! {

/// Request method of the structured request record.
#[derive(PartialEq, Eq, Structural, Clone, Copy, Debug)]
pub enum Method {
    Get,
    Post,
    Put,
    Delete,
    Patch,
    Head,
    Options,
}

/// A request as handed to a guest's `handle-request` export.
pub struct Request {
    pub method: Method,
    pub uri: String,
    pub headers: Vec<(String, String)>,
    pub params: Vec<(String, String)>,
    pub body: Option<Vec<u8>>,
}

/// A response as returned from a guest's `handle-request` export.
pub struct Response {
    pub status: u16,
    pub headers: Option<Vec<(String, String)>>,
    pub body: Option<Vec<u8>>,
}

pub struct RequestView {
    pub method: Method,
    pub uri: Seq<char>,
    pub headers: Seq<(Seq<char>, Seq<char>)>,
    pub params: Seq<(Seq<char>, Seq<char>)>,
    pub body: Option<Seq<u8>>,
}

pub struct ResponseView {
    pub status: u16,
    pub headers: Option<Seq<(Seq<char>, Seq<char>)>>,
    pub body: Option<Seq<u8>>,
}

/// The character contents of a list of name/value pairs.
pub open spec fn pairs_view(s: Seq<(String, String)>) -> Seq<(Seq<char>, Seq<char>)> {
    s.map_values(|p: (String, String)| (p.0@, p.1@))
}

pub open spec fn opt_bytes_view(b: Option<Vec<u8>>) -> Option<Seq<u8>> {
    match b {
        Some(v) => Some(v@),
        None => None,
    }
}

impl View for Request {
    type V = RequestView;

    open spec fn view(&self) -> RequestView {
        RequestView {
            method: self.method,
            uri: self.uri@,
            headers: pairs_view(self.headers@),
            params: pairs_view(self.params@),
            body: opt_bytes_view(self.body),
        }
    }
}

impl View for Response {
    type V = ResponseView;

    open spec fn view(&self) -> ResponseView {
        ResponseView {
            status: self.status,
            headers: match self.headers {
                Some(h) => Some(pairs_view(h@)),
                None => None,
            },
            body: opt_bytes_view(self.body),
        }
    }
}

/// The bytes of a text made of ASCII characters, one byte per character.
pub open spec fn ascii_bytes(s: Seq<char>) -> Seq<u8> {
    Seq::new(s.len(), |i: int| s[i] as u8)
}

/// The bytes of an ASCII string literal.
pub fn literal_bytes(s: &str) -> (r: Vec<u8>)
    requires
        is_ascii(s),
    ensures
        r@ == ascii_bytes(s@),
{
    broadcast use is_ascii_spec_bytes;
    let b = s.as_bytes();
    vstd::slice::slice_to_vec(b)
}

pub open spec fn golden_request_view() -> RequestView {
    RequestView {
        method: Method::Post,
        uri: "/foo?a=b"@,
        headers: seq![("what"@, "up"@)],
        params: seq![],
        body: Some(ascii_bytes("hello, world!"@)),
    }
}

/// The one request every strategy is driven with.
pub fn golden_request() -> (r: Request)
    ensures
        r@ == golden_request_view(),
{
    proof {
        reveal_strlit("hello, world!");
    }
    let headers = vec![("what".to_owned(), "up".to_owned())];
    let r = Request {
        method: Method::Post,
        uri: "/foo?a=b".to_owned(),
        headers,
        params: Vec::new(),
        body: Some(literal_bytes("hello, world!")),
    };
    assert(pairs_view(r.headers@) =~= seq![("what"@, "up"@)]);
    assert(pairs_view(r.params@) =~= seq![]);
    r
}


pub open spec fn golden_headers_view() -> Seq<(Seq<char>, Seq<char>)> {
    seq![("content-type"@, "text/plain"@)]
}

pub open spec fn golden_response_view() -> ResponseView {
    ResponseView {
        status: 200,
        headers: Some(golden_headers_view()),
        body: Some(ascii_bytes("hola, mundo!"@)),
    }
}

/// The one response every strategy must produce for the golden request.
pub fn golden_response() -> (r: Response)
    ensures
        r@ == golden_response_view(),
{
    proof {
        reveal_strlit("hola, mundo!");
    }
    let headers = vec![("content-type".to_owned(), "text/plain".to_owned())];
    let r = Response {
        status: 200,
        headers: Some(headers),
        body: Some(literal_bytes("hola, mundo!")),
    };
    assert(pairs_view(headers@) =~= golden_headers_view());
    r
}

/// Whether two lists of name/value pairs hold the same texts in the same order.
pub fn pairs_eq(a: &Vec<(String, String)>, b: &Vec<(String, String)>) -> (r: bool)
    ensures
        r == (pairs_view(a@) == pairs_view(b@)),
{
    if a.len() != b.len() {
        assert(pairs_view(a@).len() != pairs_view(b@).len());
        return false;
    }
    let mut i: usize = 0;
    while i < a.len()
        invariant
            a.len() == b.len(),
            i <= a.len(),
            forall|j: int| 0 <= j < i ==> pairs_view(a@)[j] == pairs_view(b@)[j],
        decreases a.len() - i,
    {
        if !(a[i].0 == b[i].0 && a[i].1 == b[i].1) {
            assert(pairs_view(a@)[i as int] != pairs_view(b@)[i as int]);
            return false;
        }
        i = i + 1;
    }
    assert(pairs_view(a@) =~= pairs_view(b@));
    true
}

/// Whether two byte sequences are equal.
pub fn bytes_eq(a: &[u8], b: &[u8]) -> (r: bool)
    ensures
        r == (a@ == b@),
{
    if a.len() != b.len() {
        return false;
    }
    let mut i: usize = 0;
    while i < a.len()
        invariant
            a.len() == b.len(),
            i <= a.len(),
            forall|j: int| 0 <= j < i ==> a@[j] == b@[j],
        decreases a.len() - i,
    {
        if a[i] != b[i] {
            return false;
        }
        i = i + 1;
    }
    assert(a@ =~= b@);
    true
}

/// Whether two optional bodies are both absent, or both present and equal.
pub fn opt_bytes_eq(a: &Option<Vec<u8>>, b: &Option<Vec<u8>>) -> (r: bool)
    ensures
        r == (opt_bytes_view(*a) == opt_bytes_view(*b)),
{
    match (a, b) {
        (Some(x), Some(y)) => bytes_eq(x.as_slice(), y.as_slice()),
        (None, None) => true,
        _ => false,
    }
}

} // verus!
