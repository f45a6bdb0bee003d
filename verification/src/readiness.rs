//! The readiness signal: a single boolean meaning "the configured model is
//! confirmed loaded and serving".
//!
//! Readiness starts at `false` and is raised by exactly three things: a
//! successful preload pull at startup, a successful on-demand pull, or —
//! when preloading is disabled — immediately at startup. It is never reset
//! automatically: readiness is monotonic until an explicit re-pull, not a
//! live health indicator.

use vstd::prelude::*;

verus! {

/// An occurrence that may change the readiness signal.
#[derive(Clone, Copy, PartialEq, Eq, Structural, Debug)]
pub enum ReadinessEvent {
    /// Preloading is disabled, so readiness is granted at startup without a pull.
    PreloadDisabled,
    /// A pull of the configured model completed with a success status.
    PullSucceeded,
    /// A pull attempt failed (transport error or non-success status).
    PullFailed,
}

/// The readiness value after `event` is applied to a signal currently at `ready`.
pub open spec fn next_ready(ready: bool, event: ReadinessEvent) -> bool {
    match event {
        ReadinessEvent::PreloadDisabled => true,
        ReadinessEvent::PullSucceeded => true,
        ReadinessEvent::PullFailed => ready,
    }
}

/// The readiness value after a whole sequence of events, applied in order.
pub open spec fn run_events(ready: bool, events: Seq<ReadinessEvent>) -> bool
    decreases events.len(),
{
    if events.len() == 0 {
        ready
    } else {
        run_events(next_ready(ready, events.first()), events.drop_first())
    }
}

/// Seconds the startup preload task waits before its first pull attempt,
/// giving a freshly spawned backend time to initialize.
pub const PRELOAD_GRACE_SECS: u64 = 5;

/// What the startup preload task must do.
#[derive(Clone, Copy, PartialEq, Eq, Structural, Debug)]
pub enum PreloadPlan {
    /// Preloading is enabled: wait the grace period, pull the configured
    /// model, and raise readiness only if the pull succeeds.
    PullAfterGrace,
    /// Preloading is disabled: raise readiness at once; no pull is issued.
    SetReadyImmediately,
}

/// Decide the startup preload task's course from the preload flag.
pub fn startup_preload_plan(preload: bool) -> (plan: PreloadPlan)
    ensures
        plan is PullAfterGrace <==> preload,
{
    if preload {
        PreloadPlan::PullAfterGrace
    } else {
        PreloadPlan::SetReadyImmediately
    }
}

/// Apply one event to the readiness signal.
pub fn step(ready: bool, event: &ReadinessEvent) -> (new_ready: bool)
    ensures
        new_ready == next_ready(ready, *event),
{
    match event {
        ReadinessEvent::PreloadDisabled => true,
        ReadinessEvent::PullSucceeded => true,
        ReadinessEvent::PullFailed => ready,
    }
}

/// Once the signal is `true`, no event sequence ever lowers it again:
/// readiness is monotonic for the lifetime of the process.
pub proof fn lemma_ready_monotonic(ready: bool, events: Seq<ReadinessEvent>)
    requires
        ready,
    ensures
        run_events(ready, events),
    decreases events.len(),
{
    if events.len() > 0 {
        lemma_ready_monotonic(next_ready(ready, events.first()), events.drop_first());
    }
}

/// The converse guarantee: starting from `false`, the signal stays `false`
/// as long as nothing but failed pulls happen — only a disabled preload or
/// a successful pull can raise it.
pub proof fn lemma_not_ready_without_cause(events: Seq<ReadinessEvent>)
    requires
        forall|i: int| 0 <= i < events.len() ==> events[i] is PullFailed,
    ensures
        !run_events(false, events),
    decreases events.len(),
{
    if events.len() > 0 {
        assert(events.first() is PullFailed);
        assert(forall|i: int|
            0 <= i < events.drop_first().len() ==> #[trigger] events.drop_first()[i] == events[
                i + 1
            ]);
        lemma_not_ready_without_cause(events.drop_first());
    }
}

/// With preloading disabled, startup alone makes the signal `true`; no pull
/// event is involved.
pub proof fn lemma_preload_disabled_sets_ready()
    ensures
        next_ready(false, ReadinessEvent::PreloadDisabled),
{
}

/// A successful pull raises the signal whatever it was before, and repeating
/// it changes nothing further: pulling is idempotent in outcome.
pub proof fn lemma_pull_success_idempotent(ready: bool)
    ensures
        next_ready(ready, ReadinessEvent::PullSucceeded),
        next_ready(
            next_ready(ready, ReadinessEvent::PullSucceeded),
            ReadinessEvent::PullSucceeded,
        ) == next_ready(ready, ReadinessEvent::PullSucceeded),
{
}

/// A failed pull leaves the signal exactly as it was.
pub proof fn lemma_pull_failure_preserves(ready: bool)
    ensures
        next_ready(ready, ReadinessEvent::PullFailed) == ready,
{
}

} // verus!
