//! The guard that lets the guest artifacts be built at most once per process,
//! however many benchmark entry points ask for them.
use vstd::prelude::*;

verus! {

#[derive(PartialEq, Eq, Structural, Clone, Copy, Debug)]
pub enum BuildState {
    /// Nobody has asked for the artifacts yet.
    Pending,
    /// One caller is building them.
    Running,
    /// They were built; they are only read from now on.
    Built,
    /// Building failed; the failure is reported to every later caller.
    Failed,
}

/// What a caller of `ensure_built` is told to do.
#[derive(PartialEq, Eq, Structural, Clone, Copy, Debug)]
pub enum BuildStep {
    /// Build the artifacts, then report the result with `finish`.
    Build,
    /// Another caller is building: wait for it, then ask again.
    Wait,
    /// The artifacts are there.
    Ready,
    /// Building failed earlier: fail the same way.
    Fail,
}

/// An event seen by the guard.
#[derive(PartialEq, Eq, Structural, Clone, Copy, Debug)]
pub enum BuildEvent {
    Begin,
    Finish(bool),
}

pub open spec fn begin_step(s: BuildState) -> (BuildState, BuildStep) {
    match s {
        BuildState::Pending => (BuildState::Running, BuildStep::Build),
        BuildState::Running => (BuildState::Running, BuildStep::Wait),
        BuildState::Built => (BuildState::Built, BuildStep::Ready),
        BuildState::Failed => (BuildState::Failed, BuildStep::Fail),
    }
}

pub open spec fn finish_state(s: BuildState, ok: bool) -> BuildState {
    match s {
        BuildState::Running => if ok {
            BuildState::Built
        } else {
            BuildState::Failed
        },
        _ => s,
    }
}

pub open spec fn apply(s: BuildState, e: BuildEvent) -> BuildState {
    match e {
        BuildEvent::Begin => begin_step(s).0,
        BuildEvent::Finish(ok) => finish_state(s, ok),
    }
}

/// How many times a run of events starting in `s` tells a caller to build.
pub open spec fn builds(s: BuildState, events: Seq<BuildEvent>) -> nat
    decreases events.len(),
{
    if events.len() == 0 {
        0
    } else {
        let here: nat = if events[0] == BuildEvent::Begin && begin_step(s).1 == BuildStep::Build {
            1
        } else {
            0
        };
        here + builds(apply(s, events[0]), events.drop_first())
    }
}

/// The one-shot build guard.
pub struct BuildGuard {
    pub state: BuildState,
}

impl BuildGuard {
    pub fn new() -> (r: BuildGuard)
        ensures
            r.state == BuildState::Pending,
    {
        BuildGuard { state: BuildState::Pending }
    }

    /// A caller asks for the artifacts.
    pub fn begin(&mut self) -> (r: BuildStep)
        ensures
            (final(self).state, r) == begin_step(old(self).state),
    {
        match self.state {
            BuildState::Pending => {
                self.state = BuildState::Running;
                BuildStep::Build
            },
            BuildState::Running => BuildStep::Wait,
            BuildState::Built => BuildStep::Ready,
            BuildState::Failed => BuildStep::Fail,
        }
    }

    /// The caller told to build reports whether it succeeded.
    pub fn finish(&mut self, ok: bool)
        requires
            old(self).state == BuildState::Running,
        ensures
            final(self).state == finish_state(old(self).state, ok),
    {
        self.state = if ok {
            BuildState::Built
        } else {
            BuildState::Failed
        };
    }
}

/// Once the guard has left `Pending`, no run of events tells anyone to build.
pub proof fn lemma_no_build_after_start(s: BuildState, events: Seq<BuildEvent>)
    requires
        s != BuildState::Pending,
    ensures
        builds(s, events) == 0,
    decreases events.len(),
{
    if events.len() > 0 {
        lemma_no_build_after_start(apply(s, events[0]), events.drop_first());
    }
}

/// The artifacts are built at most once: from a fresh guard, any run of
/// `begin` and `finish` events tells at most one caller to build, and every
/// later `begin` is answered without building.
pub proof fn lemma_build_at_most_once(events: Seq<BuildEvent>)
    ensures
        builds(BuildState::Pending, events) <= 1,
    decreases events.len(),
{
    if events.len() > 0 {
        let next = apply(BuildState::Pending, events[0]);
        if next == BuildState::Pending {
            lemma_build_at_most_once(events.drop_first());
        } else {
            lemma_no_build_after_start(next, events.drop_first());
        }
    }
}

} // verus!
