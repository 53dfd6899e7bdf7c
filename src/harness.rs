//! The strategies under comparison: which guest each drives, what each sets
//! up once outside the timed region, what each repeats per iteration, and how
//! the outcome of one iteration is judged.
use vstd::prelude::*;
use crate::capability::{dispatch, dispatch_spec, HostCall, Unsupported};
use crate::check::{check_posix_output, check_response, response_verdict, Mismatch};
use crate::fixture::{
    golden_request, golden_request_view, golden_response_view, Response, ResponseView,
};
use crate::guest::{
    golden_invocation, golden_invocation_view, golden_posix_output,
    guest_answer, handle_posix, handle_request, posix_answer, GuestError,
};
use crate::isolation::IsolationError;

verus! {

/// A guest fixture with a compiled artifact.
#[derive(PartialEq, Eq, Structural, Clone, Copy, Debug)]
pub enum Guest {
    /// The POSIX-convention program.
    Posix,
    /// The component written against the raw generated bindings.
    Raw,
    /// The component written against the SDK layer.
    Sdk,
    /// The component converted from a program in another language.
    Python,
}

pub open spec fn guest_path(g: Guest) -> Seq<char> {
    match g {
        Guest::Posix => "/wasm32-wasi/release/wagi-guest.wasm"@,
        Guest::Raw => "/wasm32-wasi/release/spin_guest.wasm"@,
        Guest::Sdk => "/wasm32-wasi/release/spin_sdk_guest.wasm"@,
        Guest::Python => "/python-spin-guest.wasm"@,
    }
}

/// Where a guest's artifact lies, relative to the build output directory.
pub fn artifact_path(g: Guest) -> (r: &'static str)
    ensures
        r@ == guest_path(g),
{
    match g {
        Guest::Posix => "/wasm32-wasi/release/wagi-guest.wasm",
        Guest::Raw => "/wasm32-wasi/release/spin_guest.wasm",
        Guest::Sdk => "/wasm32-wasi/release/spin_sdk_guest.wasm",
        Guest::Python => "/python-spin-guest.wasm",
    }
}

/// One benchmark entry point.
#[derive(PartialEq, Eq, Structural, Clone, Copy, Debug)]
pub enum Strategy {
    NativeDirect,
    NativeFork,
    PosixModule,
    ComponentDefault,
    ComponentPooled,
    ComponentNoPreInstantiation,
    ComponentPrecompiled,
    SdkComponent,
    PythonComponent,
}

/// How a strategy runs its guest.
#[derive(PartialEq, Eq, Structural, Clone, Copy, Debug)]
pub struct Plan {
    /// The artifact it loads; `None` for the guest linked into the harness.
    pub guest: Option<Guest>,
    /// Each iteration runs in a forked child.
    pub fork: bool,
    /// The artifact is a structured component made from a module.
    pub component: bool,
    /// The engine recycles instance memory and tables.
    pub pooled: bool,
    /// An instantiation template is built once, before timing.
    pub pre_instantiate: bool,
    /// The component is compiled once, before timing, and loaded per iteration.
    pub precompile: bool,
}

pub open spec fn is_component(s: Strategy) -> bool {
    match s {
        Strategy::ComponentDefault | Strategy::ComponentPooled
        | Strategy::ComponentNoPreInstantiation | Strategy::ComponentPrecompiled
        | Strategy::SdkComponent | Strategy::PythonComponent => true,
        _ => false,
    }
}

pub open spec fn plan_spec(s: Strategy) -> Plan {
    let native = Plan {
        guest: None,
        fork: false,
        component: false,
        pooled: false,
        pre_instantiate: false,
        precompile: false,
    };
    let comp = Plan {
        guest: Some(Guest::Raw),
        fork: false,
        component: true,
        pooled: false,
        pre_instantiate: true,
        precompile: false,
    };
    match s {
        Strategy::NativeDirect => native,
        Strategy::NativeFork => Plan { fork: true, ..native },
        Strategy::PosixModule => Plan {
            guest: Some(Guest::Posix),
            pre_instantiate: true,
            ..native
        },
        Strategy::ComponentDefault => comp,
        Strategy::ComponentPooled => Plan { pooled: true, ..comp },
        Strategy::ComponentNoPreInstantiation => Plan { pre_instantiate: false, ..comp },
        Strategy::ComponentPrecompiled => Plan {
            pre_instantiate: false,
            precompile: true,
            ..comp
        },
        Strategy::SdkComponent => Plan { guest: Some(Guest::Sdk), ..comp },
        Strategy::PythonComponent => Plan { guest: Some(Guest::Python), pooled: true, ..comp },
    }
}

pub fn plan(s: Strategy) -> (r: Plan)
    ensures
        r == plan_spec(s),
{
    let native = Plan {
        guest: None,
        fork: false,
        component: false,
        pooled: false,
        pre_instantiate: false,
        precompile: false,
    };
    let comp = Plan {
        guest: Some(Guest::Raw),
        fork: false,
        component: true,
        pooled: false,
        pre_instantiate: true,
        precompile: false,
    };
    match s {
        Strategy::NativeDirect => native,
        Strategy::NativeFork => Plan { fork: true, ..native },
        Strategy::PosixModule => Plan { guest: Some(Guest::Posix), pre_instantiate: true, ..native },
        Strategy::ComponentDefault => comp,
        Strategy::ComponentPooled => Plan { pooled: true, ..comp },
        Strategy::ComponentNoPreInstantiation => Plan { pre_instantiate: false, ..comp },
        Strategy::ComponentPrecompiled => Plan { pre_instantiate: false, precompile: true, ..comp },
        Strategy::SdkComponent => Plan { guest: Some(Guest::Sdk), ..comp },
        Strategy::PythonComponent => Plan { guest: Some(Guest::Python), pooled: true, ..comp },
    }
}


/// One piece of work a strategy performs.
#[derive(PartialEq, Eq, Structural, Clone, Copy, Debug)]
pub enum Step {
    ReadArtifact,
    Componentize,
    CreateEngine,
    Link,
    Compile,
    Precompile,
    PreInstantiate,
    Fork,
    Wait,
    NewStore,
    SeedEnvironment,
    Deserialize,
    Instantiate,
    ResolveExport,
    Call,
    Check,
}

/// The work done once, before the timed iterations.
pub open spec fn setup_spec(p: Plan) -> Seq<Step> {
    if p.guest is None {
        seq![]
    } else {
        seq![Step::ReadArtifact] + (if p.component {
            seq![Step::Componentize]
        } else {
            seq![]
        }) + seq![Step::CreateEngine, Step::Link] + (if p.precompile {
            seq![Step::Precompile]
        } else {
            seq![]
        }) + (if p.pre_instantiate {
            seq![Step::Compile, Step::PreInstantiate]
        } else {
            seq![]
        })
    }
}

/// The work repeated in every timed iteration.
pub open spec fn iteration_spec(p: Plan) -> Seq<Step> {
    if p.guest is None {
        if p.fork {
            seq![Step::Fork, Step::Call, Step::Check, Step::Wait]
        } else {
            seq![Step::Call, Step::Check]
        }
    } else {
        seq![Step::NewStore] + (if p.component {
            seq![]
        } else {
            seq![Step::SeedEnvironment]
        }) + (if p.pre_instantiate {
            seq![Step::Instantiate]
        } else if p.precompile {
            seq![Step::Deserialize, Step::Instantiate]
        } else {
            seq![Step::Compile, Step::Instantiate]
        }) + seq![Step::ResolveExport, Step::Call, Step::Check]
    }
}

pub fn setup_steps(p: Plan) -> (r: Vec<Step>)
    ensures
        r@ == setup_spec(p),
{
    let mut r: Vec<Step> = Vec::new();
    if p.guest.is_some() {
        r.push(Step::ReadArtifact);
        if p.component {
            r.push(Step::Componentize);
        }
        r.push(Step::CreateEngine);
        r.push(Step::Link);
        if p.precompile {
            r.push(Step::Precompile);
        }
        if p.pre_instantiate {
            r.push(Step::Compile);
            r.push(Step::PreInstantiate);
        }
    }
    assert(r@ =~= setup_spec(p));
    r
}

pub fn iteration_steps(p: Plan) -> (r: Vec<Step>)
    ensures
        r@ == iteration_spec(p),
{
    let mut r: Vec<Step> = Vec::new();
    if p.guest.is_none() {
        if p.fork {
            r.push(Step::Fork);
        }
        r.push(Step::Call);
        r.push(Step::Check);
        if p.fork {
            r.push(Step::Wait);
        }
    } else {
        r.push(Step::NewStore);
        if !p.component {
            r.push(Step::SeedEnvironment);
        }
        if p.pre_instantiate {
            r.push(Step::Instantiate);
        } else if p.precompile {
            r.push(Step::Deserialize);
            r.push(Step::Instantiate);
        } else {
            r.push(Step::Compile);
            r.push(Step::Instantiate);
        }
        r.push(Step::ResolveExport);
        r.push(Step::Call);
        r.push(Step::Check);
    }
    assert(r@ =~= iteration_spec(p));
    r
}

/// Why a benchmark entry point stopped; each kind is told apart.
#[derive(PartialEq, Eq, Structural, Clone, Copy, Debug)]
pub enum HarnessError {
    /// Building the guest artifacts failed.
    Build,
    /// An artifact did not load or link, or an export is missing.
    Link,
    /// The guest reached a capability this harness refuses.
    Unsupported(Unsupported),
    /// The guest refused its input, or trapped.
    Guest(GuestError),
    /// The forked child did not exit cleanly.
    Isolation(IsolationError),
    /// The guest answered, but not with the golden response.
    Mismatch(Mismatch),
}

/// The verdict on one structured call, given what the call returned.
pub open spec fn call_verdict(r: Result<ResponseView, GuestError>) -> Result<(), HarnessError> {
    match r {
        Err(e) => Err(HarnessError::Guest(e)),
        Ok(v) => match response_verdict(v) {
            Ok(()) => Ok(()),
            Err(m) => Err(HarnessError::Mismatch(m)),
        },
    }
}

pub open spec fn call_view(r: Result<Response, GuestError>) -> Result<ResponseView, GuestError> {
    match r {
        Ok(v) => Ok(v@),
        Err(e) => Err(e),
    }
}

/// Judges what one call of a guest's `handle-request` returned.
pub fn judge_call(r: &Result<Response, GuestError>) -> (out: Result<(), HarnessError>)
    ensures
        out == call_verdict(call_view(*r)),
        out is Ok <==> (r is Ok && r->Ok_0@ == golden_response_view()),
{
    match r {
        Err(e) => Err(HarnessError::Guest(*e)),
        Ok(v) => match check_response(v) {
            Ok(()) => Ok(()),
            Err(m) => Err(HarnessError::Mismatch(m)),
        },
    }
}

/// The verdict on one run of the POSIX-style guest, given how it ended and
/// what it wrote.
pub open spec fn posix_run_verdict(r: Result<Seq<u8>, GuestError>) -> Result<(), HarnessError> {
    match r {
        Err(e) => Err(HarnessError::Guest(e)),
        Ok(out) => if out == golden_posix_output() {
            Ok(())
        } else {
            Err(HarnessError::Mismatch(Mismatch::Output))
        },
    }
}

/// The guest-level verdict for a strategy: the judgement of what the guest it
/// drives answers to the golden request, in that guest's own convention. It
/// speaks of the guests' fixed behaviour, not of an engine run; every
/// structured strategy shares it by definition.
pub open spec fn strategy_verdict(s: Strategy) -> Result<(), HarnessError> {
    if plan_spec(s).guest == Some(Guest::Posix) {
        posix_run_verdict(posix_answer(golden_invocation_view()))
    } else {
        call_verdict(guest_answer(golden_request_view()))
    }
}

/// Judges one run of the POSIX-style guest: how its entry point returned and
/// what it wrote to standard output.
pub fn judge_posix(r: &Result<(), GuestError>, stdout: &Vec<u8>) -> (out: Result<(), HarnessError>)
    ensures
        out is Ok <==> (r is Ok && stdout@ == golden_posix_output()),
        r is Err ==> out == Err::<(), HarnessError>(HarnessError::Guest(r->Err_0)),
        r is Ok && stdout@ != golden_posix_output() ==> out == Err::<(), HarnessError>(
            HarnessError::Mismatch(Mismatch::Output),
        ),
{
    match r {
        Err(e) => Err(HarnessError::Guest(*e)),
        Ok(()) => match check_posix_output(stdout) {
            Ok(()) => Ok(()),
            Err(m) => Err(HarnessError::Mismatch(m)),
        },
    }
}

/// One iteration of the native strategy: the guest linked into the harness,
/// called in-process with the golden request, always answers correctly.
pub fn native_round() -> (r: Result<(), HarnessError>)
    ensures
        r is Ok,
{
    let req = golden_request();
    let resp = handle_request(&req);
    judge_call(&Ok(resp))
}

/// One iteration of the POSIX-convention guest, run in-process on the
/// golden invocation: its output is always the golden output.
pub fn posix_round() -> (r: Result<(), HarnessError>)
    ensures
        r is Ok,
{
    let inv = golden_invocation();
    let out = handle_posix(&inv);
    judge_posix(&Ok(()), &out)
}


pub open spec fn host_call_verdict(c: HostCall) -> Result<(), HarnessError> {
    match dispatch_spec(c) {
        Ok(()) => Ok(()),
        Err(u) => Err(HarnessError::Unsupported(u)),
    }
}

/// What the harness makes of a guest's host call: served, or a refusal that
/// stops the entry point as its own kind of failure.
pub fn host_call(c: HostCall) -> (r: Result<(), HarnessError>)
    ensures
        r == host_call_verdict(c),
{
    match dispatch(c) {
        Ok(()) => Ok(()),
        Err(u) => Err(HarnessError::Unsupported(u)),
    }
}


/// The interface a structured guest exports its handler in.
pub open spec fn export_interface_spec() -> Seq<char> {
    "inbound-http"@
}

/// The name of the exported handler within that interface.
pub open spec fn export_function_spec() -> Seq<char> {
    "handle-request"@
}

/// What a component instance exports: interfaces, each with its functions.
pub open spec fn exports_handler(exports: Seq<(String, Vec<String>)>, i: int) -> bool {
    0 <= i < exports.len() && exports[i].0@ == export_interface_spec()
        && exists|k: int| 0 <= k < exports[i].1@.len() && #[trigger] exports[i].1@[k]@
            == export_function_spec()
}

/// Whether a list of function names holds `name`.
fn holds_name(names: &Vec<String>, name: &String) -> (r: bool)
    ensures
        r == exists|k: int| 0 <= k < names@.len() && #[trigger] names@[k]@ == name@,
{
    let mut i: usize = 0;
    while i < names.len()
        invariant
            i <= names@.len(),
            forall|k: int| 0 <= k < i ==> #[trigger] names@[k]@ != name@,
        decreases names.len() - i,
    {
        if names[i] == *name {
            return true;
        }
        i = i + 1;
    }
    false
}

/// Finds the handler among an instance's exports: the index of the
/// `inbound-http` interface that holds `handle-request`, or a link failure
/// when no exported interface does.
pub fn resolve_export(exports: &Vec<(String, Vec<String>)>) -> (r: Result<usize, HarnessError>)
    ensures
        match r {
            Ok(i) => exports_handler(exports@, i as int),
            Err(e) => e == HarnessError::Link && forall|i: int| !#[trigger] exports_handler(exports@, i),
        },
{
    let iface = "inbound-http".to_owned();
    let func = "handle-request".to_owned();
    let mut i: usize = 0;
    while i < exports.len()
        invariant
            i <= exports@.len(),
            iface@ == export_interface_spec(),
            func@ == export_function_spec(),
            forall|j: int| 0 <= j < i ==> !#[trigger] exports_handler(exports@, j),
        decreases exports.len() - i,
    {
        if exports[i].0 == iface && holds_name(&exports[i].1, &func) {
            return Ok(i);
        }
        i = i + 1;
    }
    Err(HarnessError::Link)
}

} // verus!
