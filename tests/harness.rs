use guest_bench::capability::{capability_of, dispatch, Capability, HostCall, Unsupported};
use guest_bench::check::{check_iterations, check_posix_output, check_response, Mismatch};
use guest_bench::fixture::{golden_request, golden_response, Method, Request, Response};
use guest_bench::guest::{
    check_posix, check_request, golden_invocation, handle_foo, handle_posix, handle_request,
    GuestError,
};
use guest_bench::harness::{
    artifact_path, host_call, iteration_steps, judge_call, judge_posix, native_round, plan,
    posix_round, resolve_export, setup_steps, Guest, HarnessError, Step, Strategy,
};
use guest_bench::isolation::{
    decode_wait_status, fork_role, wait_outcome, ChildExit, ForkRole, IsolationError,
};
use guest_bench::once::{BuildGuard, BuildState, BuildStep};

fn pair(a: &str, b: &str) -> (String, String) {
    (a.to_owned(), b.to_owned())
}

fn request() -> Request {
    Request {
        method: Method::Post,
        uri: "/foo?a=b".to_owned(),
        headers: vec![pair("what", "up")],
        params: Vec::new(),
        body: Some(b"hello, world!".to_vec()),
    }
}

fn assert_golden(response: &Response) {
    assert_eq!(200, response.status);
    let headers = response.headers.as_ref().unwrap();
    assert_eq!(1, headers.len());
    assert_eq!("content-type", headers[0].0);
    assert_eq!("text/plain", headers[0].1);
    assert_eq!(Some(b"hola, mundo!" as &[_]), response.body.as_deref());
}

#[test]
fn golden_request_fields() {
    let r = golden_request();
    assert_eq!(Method::Post, r.method);
    assert_eq!("/foo?a=b", r.uri);
    assert_eq!(vec![pair("what", "up")], r.headers);
    assert!(r.params.is_empty());
    assert_eq!(Some(b"hello, world!".to_vec()), r.body);
}

#[test]
fn golden_response_fields() {
    assert_golden(&golden_response());
}

#[test]
fn raw_guest_answers_golden_request() {
    assert_golden(&handle_request(&request()));
}

#[test]
fn sdk_guest_answers_golden_request() {
    assert_golden(&handle_foo(&request()));
}

#[test]
fn guests_refuse_other_uri() {
    let mut r = request();
    r.uri = "/foo".to_owned();
    assert_eq!(Err(GuestError::UnexpectedUri), check_request(&r));
}

#[test]
fn guests_refuse_other_headers() {
    let mut r = request();
    r.headers.push(pair("x", "y"));
    assert_eq!(Err(GuestError::UnexpectedHeaders), check_request(&r));
    r.headers = vec![pair("what", "down")];
    assert_eq!(Err(GuestError::UnexpectedHeaders), check_request(&r));
    r.headers.clear();
    assert_eq!(Err(GuestError::UnexpectedHeaders), check_request(&r));
}

#[test]
fn guests_refuse_other_body() {
    let mut r = request();
    r.body = None;
    assert_eq!(Err(GuestError::UnexpectedBody), check_request(&r));
    r.body = Some(b"hello, world?".to_vec());
    assert_eq!(Err(GuestError::UnexpectedBody), check_request(&r));
}

#[test]
fn guests_ignore_method_and_params() {
    let mut r = request();
    r.method = Method::Get;
    r.params = vec![pair("a", "b")];
    assert_eq!(Ok(()), check_request(&r));
    assert_golden(&handle_request(&r));
}

#[test]
fn posix_guest_writes_golden_output() {
    let inv = golden_invocation();
    assert_eq!(vec!["/foo".to_owned(), "a=b".to_owned()], inv.args);
    assert_eq!(vec![pair("what", "up")], inv.env);
    assert_eq!(Ok(()), check_posix(&inv));
    assert_eq!(b"hello, world!".to_vec(), inv.stdin);
    assert_eq!(
        b"content-type: text/plain\n\nhola, mundo!\n" as &[_],
        &handle_posix(&inv)[..]
    );
}

#[test]
fn posix_guest_refuses_other_input() {
    let mut inv = golden_invocation();
    inv.args = vec!["/foo a=b".to_owned()];
    assert_eq!(Err(GuestError::UnexpectedArgs), check_posix(&inv));
    let mut inv = golden_invocation();
    inv.env.clear();
    assert_eq!(Err(GuestError::UnexpectedEnv), check_posix(&inv));
    let mut inv = golden_invocation();
    inv.stdin.push(b'\n');
    assert_eq!(Err(GuestError::UnexpectedStdin), check_posix(&inv));
}

#[test]
fn check_accepts_only_golden() {
    assert_eq!(Ok(()), check_response(&golden_response()));
    let mut r = golden_response();
    r.status = 404;
    assert_eq!(Err(Mismatch::Status), check_response(&r));
    let mut r = golden_response();
    r.headers = None;
    assert_eq!(Err(Mismatch::Headers), check_response(&r));
    let mut r = golden_response();
    r.headers = Some(vec![pair("content-type", "text/html")]);
    assert_eq!(Err(Mismatch::Headers), check_response(&r));
    let mut r = golden_response();
    r.body = Some(b"hola, mundo".to_vec());
    assert_eq!(Err(Mismatch::Body), check_response(&r));
}

#[test]
fn posix_output_check() {
    assert_eq!(
        Ok(()),
        check_posix_output(&b"content-type: text/plain\n\nhola, mundo!\n".to_vec())
    );
    assert_eq!(
        Err(Mismatch::Output),
        check_posix_output(&b"content-type: text/plain\nhola, mundo!\n".to_vec())
    );
    assert_eq!(Err(Mismatch::Output), check_posix_output(&Vec::new()));
}

#[test]
fn every_iteration_is_checked() {
    let all: Vec<Response> = (0..5).map(|_| golden_response()).collect();
    assert_eq!(Ok(()), check_iterations(&all));
    assert_eq!(Ok(()), check_iterations(&Vec::new()));
    let mut later_bad: Vec<Response> = (0..5).map(|_| golden_response()).collect();
    later_bad[3].body = None;
    later_bad[4].status = 500;
    assert_eq!(Err((3, Mismatch::Body)), check_iterations(&later_bad));
}

#[test]
fn judging_calls() {
    assert_eq!(Ok(()), judge_call(&Ok(golden_response())));
    assert_eq!(
        Err(HarnessError::Guest(GuestError::UnexpectedUri)),
        judge_call(&Err(GuestError::UnexpectedUri))
    );
    let mut r = golden_response();
    r.status = 201;
    assert_eq!(Err(HarnessError::Mismatch(Mismatch::Status)), judge_call(&Ok(r)));
    let out = b"content-type: text/plain\n\nhola, mundo!\n".to_vec();
    assert_eq!(Ok(()), judge_posix(&Ok(()), &out));
    assert_eq!(
        Err(HarnessError::Guest(GuestError::UnexpectedStdin)),
        judge_posix(&Err(GuestError::UnexpectedStdin), &out)
    );
    assert_eq!(
        Err(HarnessError::Mismatch(Mismatch::Output)),
        judge_posix(&Ok(()), &b"hola".to_vec())
    );
}

#[test]
fn in_process_rounds_pass_repeatedly() {
    for _ in 0..10 {
        assert_eq!(Ok(()), native_round());
        assert_eq!(Ok(()), posix_round());
    }
}

#[test]
fn wait_status_decoding() {
    assert_eq!(ChildExit::Exited(0), decode_wait_status(0));
    assert_eq!(ChildExit::Exited(1), decode_wait_status(0x100));
    assert_eq!(ChildExit::Exited(255), decode_wait_status(0xff00));
    assert_eq!(ChildExit::Signaled(9), decode_wait_status(9));
    assert_eq!(ChildExit::Signaled(6), decode_wait_status(0x86));
    assert_eq!(ChildExit::Other, decode_wait_status(0x137f));
}

#[test]
fn parent_outcome_of_child() {
    assert_eq!(Ok(()), wait_outcome(42, 0, 0));
    assert_eq!(Err(IsolationError::ExitStatus(3)), wait_outcome(42, 0x300, 0));
    assert_eq!(Err(IsolationError::Signal(11)), wait_outcome(42, 11, 0));
    assert_eq!(Err(IsolationError::Abnormal), wait_outcome(42, 0x137f, 0));
    assert_eq!(Err(IsolationError::WaitFailed(10)), wait_outcome(-1, 0, 10));
}

#[test]
fn fork_roles() {
    assert_eq!(ForkRole::Child, fork_role(0));
    assert_eq!(ForkRole::Parent(1234), fork_role(1234));
    assert_eq!(ForkRole::Failed, fork_role(-1));
}

#[test]
fn build_runs_once() {
    let mut g = BuildGuard::new();
    assert_eq!(BuildStep::Build, g.begin());
    assert_eq!(BuildStep::Wait, g.begin());
    g.finish(true);
    assert_eq!(BuildState::Built, g.state);
    for _ in 0..3 {
        assert_eq!(BuildStep::Ready, g.begin());
    }
}

#[test]
fn build_failure_is_reported_to_every_caller() {
    let mut g = BuildGuard::new();
    assert_eq!(BuildStep::Build, g.begin());
    g.finish(false);
    assert_eq!(BuildStep::Fail, g.begin());
    assert_eq!(BuildStep::Fail, g.begin());
}

#[test]
fn stub_capabilities_refuse() {
    assert_eq!(Ok(()), dispatch(HostCall::Environment));
    assert_eq!(
        Err(Unsupported { capability: Capability::KeyValue, call: HostCall::KeyValueGet }),
        dispatch(HostCall::KeyValueGet)
    );
    assert_eq!(Capability::PubSub, capability_of(HostCall::PubSubExecute));
    assert_eq!(Capability::Config, capability_of(HostCall::ConfigGet));
    let e = host_call(HostCall::HttpSend).unwrap_err();
    assert_eq!(
        HarnessError::Unsupported(Unsupported {
            capability: Capability::OutboundHttp,
            call: HostCall::HttpSend
        }),
        e
    );
    assert!(!matches!(e, HarnessError::Mismatch(_)));
}

#[test]
fn artifact_paths() {
    assert_eq!("/wasm32-wasi/release/wagi-guest.wasm", artifact_path(Guest::Posix));
    assert_eq!("/wasm32-wasi/release/spin_guest.wasm", artifact_path(Guest::Raw));
    assert_eq!("/wasm32-wasi/release/spin_sdk_guest.wasm", artifact_path(Guest::Sdk));
    assert_eq!("/python-spin-guest.wasm", artifact_path(Guest::Python));
}

#[test]
fn strategy_plans() {
    let p = plan(Strategy::PythonComponent);
    assert_eq!(Some(Guest::Python), p.guest);
    assert!(p.pooled && p.component && p.pre_instantiate && !p.precompile);
    let p = plan(Strategy::NativeFork);
    assert!(p.fork && p.guest.is_none());
    assert_eq!(vec![Step::Fork, Step::Call, Step::Check, Step::Wait], iteration_steps(p));
    assert!(setup_steps(p).is_empty());
}

#[test]
fn setup_is_outside_timed_iterations() {
    let p = plan(Strategy::ComponentDefault);
    assert_eq!(
        vec![
            Step::ReadArtifact,
            Step::Componentize,
            Step::CreateEngine,
            Step::Link,
            Step::Compile,
            Step::PreInstantiate
        ],
        setup_steps(p)
    );
    assert_eq!(
        vec![Step::NewStore, Step::Instantiate, Step::ResolveExport, Step::Call, Step::Check],
        iteration_steps(p)
    );
    let p = plan(Strategy::ComponentPrecompiled);
    assert!(setup_steps(p).contains(&Step::Precompile));
    assert_eq!(
        vec![
            Step::NewStore,
            Step::Deserialize,
            Step::Instantiate,
            Step::ResolveExport,
            Step::Call,
            Step::Check
        ],
        iteration_steps(p)
    );
    let p = plan(Strategy::ComponentNoPreInstantiation);
    assert!(iteration_steps(p).contains(&Step::Compile));
    let p = plan(Strategy::PosixModule);
    assert_eq!(Some(Guest::Posix), p.guest);
    assert!(iteration_steps(p).contains(&Step::SeedEnvironment));
}

#[test]
fn structured_guests_agree() {
    let raw = handle_request(&request());
    let sdk = handle_foo(&request());
    assert_eq!(Ok(()), check_response(&raw));
    assert_eq!(Ok(()), check_response(&sdk));
    assert_eq!(raw.status, sdk.status);
    assert_eq!(raw.headers, sdk.headers);
    assert_eq!(raw.body, sdk.body);
}

#[test]
fn export_lookup() {
    let names = |v: &[&str]| v.iter().map(|s| s.to_string()).collect::<Vec<_>>();
    let exports = vec![
        ("wasi:cli/run".to_owned(), names(&["run"])),
        ("inbound-http".to_owned(), names(&["other", "handle-request"])),
    ];
    assert_eq!(Ok(1), resolve_export(&exports));
    let no_function = vec![("inbound-http".to_owned(), names(&["handle"]))];
    assert_eq!(Err(HarnessError::Link), resolve_export(&no_function));
    let no_interface = vec![("inbound_http".to_owned(), names(&["handle-request"]))];
    assert_eq!(Err(HarnessError::Link), resolve_export(&no_interface));
    assert_eq!(Err(HarnessError::Link), resolve_export(&Vec::new()));
}
