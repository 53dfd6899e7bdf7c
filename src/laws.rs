//! Properties every strategy of the harness shares.
use vstd::prelude::*;
use crate::capability::{capability_spec, dispatch_spec, is_live, HostCall};
use crate::check::{response_verdict, Mismatch};
use crate::fixture::{golden_request_view, golden_response_view, ResponseView};
use crate::guest::{golden_invocation_view, guest_answer, posix_verdict};
use crate::harness::{
    call_verdict, host_call_verdict, iteration_spec, plan_spec, strategy_verdict, HarnessError,
    Step, Strategy,
};
use crate::isolation::{child_verdict, exit_code_of, exit_of, term_bits, ChildExit, IsolationError};

verus! {

/// Given the golden request, each structured guest answers with the golden
/// response and that answer passes the check; the POSIX-style guest, given the
/// golden request in its own convention, accepts it and its output is the
/// golden output. These are guest-level verdicts: for every strategy, the
/// guest it drives passes on the golden request.
pub proof fn lemma_golden_round_trip()
    ensures
        guest_answer(golden_request_view()) == Ok::<ResponseView, crate::guest::GuestError>(golden_response_view()),
        call_verdict(guest_answer(golden_request_view())) == Ok::<(), HarnessError>(()),
        response_verdict(golden_response_view()) == Ok::<(), Mismatch>(()),
        posix_verdict(golden_invocation_view()) is Ok,
        forall|s: Strategy| #[trigger] strategy_verdict(s) == Ok::<(), HarnessError>(()),
{
}

/// Reading, converting, compiling, linking and pre-instantiating are never
/// part of a strategy's timed iteration, except that the variant without
/// pre-instantiation compiles per iteration; with pre-instantiation an
/// iteration only instantiates from the template.
pub proof fn lemma_setup_outside_iterations(s: Strategy)
    ensures
        !iteration_spec(plan_spec(s)).contains(Step::ReadArtifact),
        !iteration_spec(plan_spec(s)).contains(Step::Componentize),
        !iteration_spec(plan_spec(s)).contains(Step::CreateEngine),
        !iteration_spec(plan_spec(s)).contains(Step::Link),
        !iteration_spec(plan_spec(s)).contains(Step::Precompile),
        !iteration_spec(plan_spec(s)).contains(Step::PreInstantiate),
        plan_spec(s).pre_instantiate ==> !iteration_spec(plan_spec(s)).contains(Step::Compile),
{
    let it = iteration_spec(plan_spec(s));
    assert forall|x: Step|
        x == Step::ReadArtifact || x == Step::Componentize || x == Step::CreateEngine || x
            == Step::Link || x == Step::Precompile || x == Step::PreInstantiate || (
        plan_spec(s).pre_instantiate && x == Step::Compile) implies !it.contains(x) by {
        if it.contains(x) {
            let i = choose|i: int| 0 <= i < it.len() && it[i] == x;
            assert(it[i] == x);
        }
    }
}


/// The parent's verdict on a forked child rests on the child's wait status
/// alone: it succeeds exactly when the child exited with code zero, and every
/// other ending is one failure that carries the exit code or the signal.
pub proof fn lemma_fork_outcome(status: i32)
    ensures
        child_verdict(status) is Ok <==> (term_bits(status) == 0 && exit_code_of(status) == 0),
        exit_of(status) matches ChildExit::Exited(c) && c != 0 ==> child_verdict(status)
            == Err::<(), IsolationError>(IsolationError::ExitStatus(exit_code_of(status))),
        exit_of(status) matches ChildExit::Signaled(sig) ==> child_verdict(status)
            == Err::<(), IsolationError>(IsolationError::Signal(term_bits(status) as u8)),
{
}

/// Every structured-component variant is judged by the same check, so any two
/// responses that pass it are the same response.
pub proof fn lemma_accepted_responses_agree(a: ResponseView, b: ResponseView)
    requires
        response_verdict(a) is Ok,
        response_verdict(b) is Ok,
    ensures
        a == b,
        a == golden_response_view(),
{
}

/// A call that reaches a refused capability always stops the run, and as a
/// failure of its own kind: never taken for a wrong response or a guest trap.
pub proof fn lemma_refused_call_is_distinct(c: HostCall)
    requires
        !is_live(capability_spec(c)),
    ensures
        host_call_verdict(c) is Err,
        forall|m: Mismatch| host_call_verdict(c) != Err::<(), HarnessError>(HarnessError::Mismatch(m)),
        forall|g: crate::guest::GuestError| host_call_verdict(c) != Err::<(), HarnessError>(HarnessError::Guest(g)),
        host_call_verdict(c) == Err::<(), HarnessError>(HarnessError::Unsupported(dispatch_spec(c)->Err_0)),
{
}

} // verus!
