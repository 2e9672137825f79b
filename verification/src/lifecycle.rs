//! The engine's lifecycle: a controller is created, runs its accept loop
//! once, drains in-flight work after a stop, and stops. The transitions are a
//! small state machine; the race between the two stop reasons is a tagged
//! choice whose losing side is ignored, and a handle's one permission to run
//! is spent by the first `run` call.

use vstd::prelude::*;

verus! {

/// Where a controller stands in its life.
#[derive(Clone, Copy, PartialEq, Eq, Structural, Debug)]
pub enum Phase {
    Created,
    Running,
    Draining,
    Stopped,
}

/// What can happen to a running controller. `AcceptorStopped` and
/// `SignalReceived` are the two named outcomes whose race ends the running
/// phase; `GraceElapsed` marks the end of the shutdown grace period.
#[derive(Clone, Copy, PartialEq, Eq, Structural, Debug)]
pub enum LifecycleEvent {
    Started,
    AcceptorStopped,
    SignalReceived,
    GraceElapsed,
}

/// The lifecycle transitions: `Created → Running → Draining → Stopped`.
/// Either stop reason moves a running controller to `Draining`; whichever of
/// the two fires second is ignored, so the transition into `Draining` is
/// idempotent. Every event is ignored once the controller has stopped.
pub open spec fn spec_lifecycle_step(p: Phase, e: LifecycleEvent) -> Phase {
    match (p, e) {
        (Phase::Created, LifecycleEvent::Started) => Phase::Running,
        (Phase::Running, LifecycleEvent::AcceptorStopped) => Phase::Draining,
        (Phase::Running, LifecycleEvent::SignalReceived) => Phase::Draining,
        (Phase::Draining, LifecycleEvent::GraceElapsed) => Phase::Stopped,
        _ => p,
    }
}

/// Apply one lifecycle event.
pub fn lifecycle_step(p: Phase, e: LifecycleEvent) -> (r: Phase)
    ensures
        r == spec_lifecycle_step(p, e),
{
    match (p, e) {
        (Phase::Created, LifecycleEvent::Started) => Phase::Running,
        (Phase::Running, LifecycleEvent::AcceptorStopped) => Phase::Draining,
        (Phase::Running, LifecycleEvent::SignalReceived) => Phase::Draining,
        (Phase::Draining, LifecycleEvent::GraceElapsed) => Phase::Stopped,
        _ => p,
    }
}

/// Whether an event is one of the two stop reasons racing to end the running
/// phase.
pub open spec fn is_stop_reason(e: LifecycleEvent) -> bool {
    e == LifecycleEvent::AcceptorStopped || e == LifecycleEvent::SignalReceived
}

/// The stop race is settled by its first finisher: either stop reason takes a
/// running controller to `Draining`, and the losing reason, arriving after,
/// changes nothing.
pub proof fn lemma_stop_race_idempotent(first: LifecycleEvent, second: LifecycleEvent)
    requires
        is_stop_reason(first),
        is_stop_reason(second),
    ensures
        spec_lifecycle_step(Phase::Running, first) == Phase::Draining,
        spec_lifecycle_step(spec_lifecycle_step(Phase::Running, first), second)
            == Phase::Draining,
{
}

/// Once stopped, a controller stays stopped, whatever else happens.
pub proof fn lemma_stopped_is_terminal(e: LifecycleEvent)
    ensures
        spec_lifecycle_step(Phase::Stopped, e) == Phase::Stopped,
{
}

/// The error a second `run` call on the same handle reports. It is surfaced
/// immediately, never silently ignored.
#[derive(Clone, Copy, PartialEq, Eq, Structural, Debug)]
pub enum RunError {
    AlreadyRun,
}

} // verus!
