//! The hosting context's life: it is built on the first call, at most once,
//! and every later call either uses it or, when building it failed, aborts.

use vstd::prelude::*;

verus! {

/// Where the process-wide hosting context stands.
#[derive(Debug, Clone, Copy, PartialEq, Eq, Structural)]
pub enum HostPhase {
    /// No call has reached the bridge yet.
    Unloaded,
    /// The context was built and serves every call.
    Ready,
    /// Building the context failed; the bridge stays unusable.
    Failed,
}

/// What a call must do before, or instead of, invoking the managed side.
#[derive(Debug, Clone, Copy, PartialEq, Eq, Structural)]
pub enum CallStep {
    /// Build the hosting context, then report the outcome.
    Initialize,
    /// Use the context that exists.
    Invoke,
    /// Give up: the context can never be built.
    Abort,
}

pub open spec fn call_step_spec(phase: HostPhase) -> CallStep {
    match phase {
        HostPhase::Unloaded => CallStep::Initialize,
        HostPhase::Ready => CallStep::Invoke,
        HostPhase::Failed => CallStep::Abort,
    }
}

pub open spec fn phase_after_init_spec(succeeded: bool) -> HostPhase {
    if succeeded {
        HostPhase::Ready
    } else {
        HostPhase::Failed
    }
}

/// The phase after one call, where `succeeded` is the outcome of building the
/// context if that call builds it.
pub open spec fn phase_after_call(phase: HostPhase, succeeded: bool) -> HostPhase {
    if call_step_spec(phase) == CallStep::Initialize {
        phase_after_init_spec(succeeded)
    } else {
        phase
    }
}

/// How many of a run of calls build the context, starting from `phase`;
/// `outcomes[i]` is what building it would give at the `i`-th call.
pub open spec fn inits_in_run(phase: HostPhase, outcomes: Seq<bool>) -> nat
    decreases outcomes.len(),
{
    if outcomes.len() == 0 {
        0
    } else {
        let here: nat = if call_step_spec(phase) == CallStep::Initialize { 1 } else { 0 };
        here + inits_in_run(phase_after_call(phase, outcomes[0]), outcomes.drop_first())
    }
}

/// The step a call takes in `phase`.
pub fn call_step(phase: HostPhase) -> (r: CallStep)
    ensures
        r == call_step_spec(phase),
{
    match phase {
        HostPhase::Unloaded => CallStep::Initialize,
        HostPhase::Ready => CallStep::Invoke,
        HostPhase::Failed => CallStep::Abort,
    }
}

/// The phase once building the context has ended with `succeeded`.
pub fn phase_after_init(phase: HostPhase, succeeded: bool) -> (r: HostPhase)
    requires
        phase == HostPhase::Unloaded,
    ensures
        r == phase_after_init_spec(succeeded),
{
    if succeeded {
        HostPhase::Ready
    } else {
        HostPhase::Failed
    }
}

/// Once the context has been built, or has failed to build, no later call
/// builds it again.
pub proof fn lemma_no_init_after_first(phase: HostPhase, outcomes: Seq<bool>)
    requires
        phase != HostPhase::Unloaded,
    ensures
        inits_in_run(phase, outcomes) == 0,
    decreases outcomes.len(),
{
    if outcomes.len() > 0 {
        lemma_no_init_after_first(phase, outcomes.drop_first());
    }
}

/// Over any run of calls from a fresh process, whatever each attempt to
/// build the context would give, the context is built exactly once when
/// there is a call at all, and never more than once.
pub proof fn lemma_initialized_at_most_once(outcomes: Seq<bool>)
    ensures
        inits_in_run(HostPhase::Unloaded, outcomes) <= 1,
        outcomes.len() > 0 ==> inits_in_run(HostPhase::Unloaded, outcomes) == 1,
{
    if outcomes.len() > 0 {
        lemma_no_init_after_first(phase_after_init_spec(outcomes[0]), outcomes.drop_first());
    }
}

} // verus!
