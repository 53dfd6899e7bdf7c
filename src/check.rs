//! Validation of what a strategy produced against the golden response.
use vstd::prelude::*;
use crate::fixture::{
    bytes_eq, golden_response, golden_response_view, opt_bytes_eq, pairs_eq, Response,
    ResponseView,
};
use crate::guest::{golden_output, golden_posix_output};

verus! {

/// Which part of a produced response differs from the golden one.
#[derive(PartialEq, Eq, Structural, Clone, Copy, Debug)]
pub enum Mismatch {
    Status,
    Headers,
    Body,
    Output,
}

/// The verdict on a structured response, by the first part that differs.
pub open spec fn response_verdict(r: ResponseView) -> Result<(), Mismatch> {
    let g = golden_response_view();
    if r.status != g.status {
        Err(Mismatch::Status)
    } else if r.headers != g.headers {
        Err(Mismatch::Headers)
    } else if r.body != g.body {
        Err(Mismatch::Body)
    } else {
        Ok(())
    }
}

/// Accepts exactly the golden response: status, the one header and the body.
pub fn check_response(resp: &Response) -> (r: Result<(), Mismatch>)
    ensures
        r == response_verdict(resp@),
        r is Ok <==> resp@ == golden_response_view(),
{
    let g = golden_response();
    if resp.status != g.status {
        return Err(Mismatch::Status);
    }
    let headers_ok = match (&resp.headers, &g.headers) {
        (Some(a), Some(b)) => pairs_eq(a, b),
        (None, None) => true,
        _ => false,
    };
    if !headers_ok {
        return Err(Mismatch::Headers);
    }
    if !opt_bytes_eq(&resp.body, &g.body) {
        return Err(Mismatch::Body);
    }
    Ok(())
}

/// Accepts exactly the golden standard output of the POSIX-style guest.
pub fn check_posix_output(out: &Vec<u8>) -> (r: Result<(), Mismatch>)
    ensures
        r is Ok <==> out@ == golden_posix_output(),
        r is Err ==> r == Err::<(), Mismatch>(Mismatch::Output),
{
    let g = golden_output();
    if bytes_eq(out.as_slice(), g.as_slice()) {
        Ok(())
    } else {
        Err(Mismatch::Output)
    }
}

/// Checks every response of a run, in order; on failure, the index of the
/// first response that is not the golden one and how it differs.
pub fn check_iterations(responses: &Vec<Response>) -> (r: Result<(), (usize, Mismatch)>)
    ensures
        r is Ok <==> forall|i: int| 0 <= i < responses@.len() ==> #[trigger] responses@[i]@ == golden_response_view(),
        match r {
            Ok(()) => true,
            Err((i, m)) => i < responses@.len()
                && response_verdict(responses@[i as int]@) == Err::<(), Mismatch>(m)
                && forall|j: int| 0 <= j < i ==> #[trigger] responses@[j]@ == golden_response_view(),
        },
{
    let mut i: usize = 0;
    while i < responses.len()
        invariant
            i <= responses@.len(),
            forall|j: int| 0 <= j < i ==> #[trigger] responses@[j]@ == golden_response_view(),
        decreases responses.len() - i,
    {
        match check_response(&responses[i]) {
            Err(m) => {
                return Err((i, m));
            },
            Ok(()) => {},
        }
        i = i + 1;
    }
    Ok(())
}

} // verus!
