//! The fixed request handlers under test: each accepts only the golden request
//! and answers with the golden response, under its own invocation convention.
use vstd::prelude::*;
use crate::fixture::{
    ascii_bytes, bytes_eq, golden_headers_view, golden_request, golden_request_view, golden_response,
    golden_response_view, literal_bytes, opt_bytes_eq, pairs_eq, pairs_view, Request, RequestView,
    Response, ResponseView,
};

verus! {

/// Why a guest refused its input; inside an engine this is a trap.
#[derive(PartialEq, Eq, Structural, Clone, Copy, Debug)]
pub enum GuestError {
    UnexpectedUri,
    UnexpectedHeaders,
    UnexpectedBody,
    UnexpectedArgs,
    UnexpectedEnv,
    UnexpectedStdin,
}

/// What a structured guest checks of a request, in the order it checks it.
pub open spec fn request_verdict(r: RequestView) -> Result<(), GuestError> {
    let g = golden_request_view();
    if r.uri != g.uri {
        Err(GuestError::UnexpectedUri)
    } else if r.headers != g.headers {
        Err(GuestError::UnexpectedHeaders)
    } else if r.body != g.body {
        Err(GuestError::UnexpectedBody)
    } else {
        Ok(())
    }
}

/// What a call of a structured guest's export yields inside an engine: the
/// golden response, or a trap naming the first check the request failed.
pub open spec fn guest_answer(r: RequestView) -> Result<ResponseView, GuestError> {
    match request_verdict(r) {
        Ok(()) => Ok(golden_response_view()),
        Err(e) => Err(e),
    }
}

/// Checks uri, headers and body of a request against the golden request.
pub fn check_request(req: &Request) -> (r: Result<(), GuestError>)
    ensures
        r == request_verdict(req@),
{
    let g = golden_request();
    if !(req.uri == g.uri) {
        return Err(GuestError::UnexpectedUri);
    }
    if !pairs_eq(&req.headers, &g.headers) {
        return Err(GuestError::UnexpectedHeaders);
    }
    if !opt_bytes_eq(&req.body, &g.body) {
        return Err(GuestError::UnexpectedBody);
    }
    Ok(())
}

/// The raw-bindings guest: answers the golden request with the golden
/// response. It asserts on any other request, so such requests are left out;
/// callers test them first with `check_request`.
pub fn handle_request(req: &Request) -> (resp: Response)
    requires
        request_verdict(req@) is Ok,
    ensures
        resp@ == golden_response_view(),
        guest_answer(req@) == Ok::<ResponseView, GuestError>(resp@),
{
    golden_response()
}

/// The guest written against the request/response SDK layer: on the golden
/// request, a response built as status 200 with one header and a text body.
/// It asserts on any other request, so such requests are left out; callers
/// test them first with `check_request`.
pub fn handle_foo(req: &Request) -> (resp: Response)
    requires
        request_verdict(req@) is Ok,
    ensures
        resp@ == golden_response_view(),
        guest_answer(req@) == Ok::<ResponseView, GuestError>(resp@),
{
    proof {
        reveal_strlit("hola, mundo!");
    }
    let headers = vec![("content-type".to_owned(), "text/plain".to_owned())];
    let resp = Response {
        status: 200,
        headers: Some(headers),
        body: Some(literal_bytes("hola, mundo!")),
    };
    assert(pairs_view(headers@) =~= golden_headers_view());
    resp
}

/// A request as a POSIX-style program receives it: positional arguments,
/// environment variables and standard input.
pub struct PosixInvocation {
    pub args: Vec<String>,
    pub env: Vec<(String, String)>,
    pub stdin: Vec<u8>,
}

pub struct PosixInvocationView {
    pub args: Seq<Seq<char>>,
    pub env: Seq<(Seq<char>, Seq<char>)>,
    pub stdin: Seq<u8>,
}

pub open spec fn strings_view(s: Seq<String>) -> Seq<Seq<char>> {
    s.map_values(|x: String| x@)
}

impl View for PosixInvocation {
    type V = PosixInvocationView;

    open spec fn view(&self) -> PosixInvocationView {
        PosixInvocationView {
            args: strings_view(self.args@),
            env: pairs_view(self.env@),
            stdin: self.stdin@,
        }
    }
}

/// The golden request in the POSIX convention: the path and the query string
/// as two arguments, each header as a variable, the body on standard input.
pub open spec fn golden_invocation_view() -> PosixInvocationView {
    PosixInvocationView {
        args: seq!["/foo"@, "a=b"@],
        env: seq![("what"@, "up"@)],
        stdin: ascii_bytes("hello, world!"@),
    }
}

pub fn golden_invocation() -> (r: PosixInvocation)
    ensures
        r@ == golden_invocation_view(),
{
    proof {
        reveal_strlit("hello, world!");
    }
    let args = vec!["/foo".to_owned(), "a=b".to_owned()];
    let env = vec![("what".to_owned(), "up".to_owned())];
    let r = PosixInvocation { args, env, stdin: literal_bytes("hello, world!") };
    assert(strings_view(args@) =~= seq!["/foo"@, "a=b"@]);
    assert(pairs_view(env@) =~= seq![("what"@, "up"@)]);
    r
}

/// The golden response as a POSIX-style program writes it: header lines, a
/// blank line, then the body.
pub open spec fn golden_posix_output() -> Seq<u8> {
    ascii_bytes("content-type: text/plain\n\nhola, mundo!\n"@)
}

pub fn golden_output() -> (r: Vec<u8>)
    ensures
        r@ == golden_posix_output(),
{
    proof {
        reveal_strlit("content-type: text/plain\n\nhola, mundo!\n");
    }
    literal_bytes("content-type: text/plain\n\nhola, mundo!\n")
}

/// What the POSIX-style guest checks of its input, in the order it checks it.
pub open spec fn posix_verdict(inv: PosixInvocationView) -> Result<(), GuestError> {
    let g = golden_invocation_view();
    if inv.args != g.args {
        Err(GuestError::UnexpectedArgs)
    } else if inv.env != g.env {
        Err(GuestError::UnexpectedEnv)
    } else if inv.stdin != g.stdin {
        Err(GuestError::UnexpectedStdin)
    } else {
        Ok(())
    }
}

/// What a run of the POSIX-style guest yields inside an engine: the golden
/// output, or a trap naming the first check the invocation failed.
pub open spec fn posix_answer(inv: PosixInvocationView) -> Result<Seq<u8>, GuestError> {
    match posix_verdict(inv) {
        Ok(()) => Ok(golden_posix_output()),
        Err(e) => Err(e),
    }
}

/// Whether two lists of texts are equal.
pub fn strings_eq(a: &Vec<String>, b: &Vec<String>) -> (r: bool)
    ensures
        r == (strings_view(a@) == strings_view(b@)),
{
    if a.len() != b.len() {
        assert(strings_view(a@).len() != strings_view(b@).len());
        return false;
    }
    let mut i: usize = 0;
    while i < a.len()
        invariant
            a.len() == b.len(),
            i <= a.len(),
            forall|j: int| 0 <= j < i ==> strings_view(a@)[j] == strings_view(b@)[j],
        decreases a.len() - i,
    {
        if !(a[i] == b[i]) {
            assert(strings_view(a@)[i as int] != strings_view(b@)[i as int]);
            return false;
        }
        i = i + 1;
    }
    assert(strings_view(a@) =~= strings_view(b@));
    true
}

/// Checks arguments, environment and standard input of an invocation against
/// the golden invocation, in the order the POSIX-style guest checks them.
pub fn check_posix(inv: &PosixInvocation) -> (r: Result<(), GuestError>)
    ensures
        r == posix_verdict(inv@),
{
    let g = golden_invocation();
    if !strings_eq(&inv.args, &g.args) {
        return Err(GuestError::UnexpectedArgs);
    }
    if !pairs_eq(&inv.env, &g.env) {
        return Err(GuestError::UnexpectedEnv);
    }
    if !bytes_eq(inv.stdin.as_slice(), g.stdin.as_slice()) {
        return Err(GuestError::UnexpectedStdin);
    }
    Ok(())
}

/// The POSIX-style guest: the bytes it writes to standard output for the
/// golden invocation. It asserts on any other invocation, so such invocations
/// are left out; callers test them first with `check_posix`.
pub fn handle_posix(inv: &PosixInvocation) -> (out: Vec<u8>)
    requires
        posix_verdict(inv@) is Ok,
    ensures
        out@ == golden_posix_output(),
        posix_answer(inv@) == Ok::<Seq<u8>, GuestError>(out@),
{
    golden_output()
}

} // verus!
