//! The host capabilities a structured guest's world declares, and which of
//! them this harness serves: only system-environment access is live; every
//! other handler exists to satisfy linking and refuses every call.
use vstd::prelude::*;

verus! {

#[derive(PartialEq, Eq, Structural, Clone, Copy, Debug)]
pub enum Capability {
    Config,
    KeyValue,
    PubSub,
    OutboundHttp,
    SystemEnvironment,
}

/// One host function of the world, named by capability and operation.
#[derive(PartialEq, Eq, Structural, Clone, Copy, Debug)]
pub enum HostCall {
    ConfigGet,
    KeyValueOpen,
    KeyValueGet,
    KeyValueSet,
    KeyValueDelete,
    KeyValueExists,
    KeyValueGetKeys,
    KeyValueClose,
    PubSubPublish,
    PubSubGet,
    PubSubSet,
    PubSubIncr,
    PubSubDel,
    PubSubSetAdd,
    PubSubSetMembers,
    PubSubSetRemove,
    PubSubExecute,
    HttpSend,
    /// Arguments, environment variables and standard streams.
    Environment,
}

pub open spec fn capability_spec(c: HostCall) -> Capability {
    match c {
        HostCall::ConfigGet => Capability::Config,
        HostCall::KeyValueOpen | HostCall::KeyValueGet | HostCall::KeyValueSet
        | HostCall::KeyValueDelete | HostCall::KeyValueExists | HostCall::KeyValueGetKeys
        | HostCall::KeyValueClose => Capability::KeyValue,
        HostCall::PubSubPublish | HostCall::PubSubGet | HostCall::PubSubSet
        | HostCall::PubSubIncr | HostCall::PubSubDel | HostCall::PubSubSetAdd
        | HostCall::PubSubSetMembers | HostCall::PubSubSetRemove
        | HostCall::PubSubExecute => Capability::PubSub,
        HostCall::HttpSend => Capability::OutboundHttp,
        HostCall::Environment => Capability::SystemEnvironment,
    }
}

pub fn capability_of(c: HostCall) -> (r: Capability)
    ensures
        r == capability_spec(c),
{
    match c {
        HostCall::ConfigGet => Capability::Config,
        HostCall::KeyValueOpen | HostCall::KeyValueGet | HostCall::KeyValueSet
        | HostCall::KeyValueDelete | HostCall::KeyValueExists | HostCall::KeyValueGetKeys
        | HostCall::KeyValueClose => Capability::KeyValue,
        HostCall::PubSubPublish | HostCall::PubSubGet | HostCall::PubSubSet
        | HostCall::PubSubIncr | HostCall::PubSubDel | HostCall::PubSubSetAdd
        | HostCall::PubSubSetMembers | HostCall::PubSubSetRemove
        | HostCall::PubSubExecute => Capability::PubSub,
        HostCall::HttpSend => Capability::OutboundHttp,
        HostCall::Environment => Capability::SystemEnvironment,
    }
}

/// Whether this harness serves a capability rather than refusing it.
pub open spec fn is_live(c: Capability) -> bool {
    c == Capability::SystemEnvironment
}

/// A handler the guest should never have reached.
#[derive(PartialEq, Eq, Structural, Clone, Copy, Debug)]
pub struct Unsupported {
    pub capability: Capability,
    pub call: HostCall,
}

pub open spec fn dispatch_spec(c: HostCall) -> Result<(), Unsupported> {
    if is_live(capability_spec(c)) {
        Ok(())
    } else {
        Err(Unsupported { capability: capability_spec(c), call: c })
    }
}

/// Routes a host call: the environment is served; any other call is refused,
/// naming the capability and the operation.
pub fn dispatch(c: HostCall) -> (r: Result<(), Unsupported>)
    ensures
        r == dispatch_spec(c),
        r is Ok <==> is_live(capability_spec(c)),
        r is Err ==> r == Err::<(), Unsupported>(
            Unsupported { capability: capability_spec(c), call: c },
        ),
{
    let cap = capability_of(c);
    match cap {
        Capability::SystemEnvironment => Ok(()),
        _ => Err(Unsupported { capability: cap, call: c }),
    }
}

} // verus!
