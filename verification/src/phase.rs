use vstd::prelude::*;

verus! {

/// The orchestrator's lifecycle. A run is spawned, signalled to stop, drained
/// and only then reported: no path reaches `Done` without passing `Stopping`.
#[derive(Clone, Copy, Debug, PartialEq, Eq, Structural)]
pub enum RunPhase {
    /// Nothing spawned yet.
    Idle,
    /// Worker pool and aggregator are running.
    Running,
    /// The cancellation signal has been set.
    Stopping,
    /// Workers joined; the channel is closing and the aggregator drains it.
    Draining,
    /// Aggregator joined and the summary emitted.
    Done,
}

/// The one transition each phase allows; `Done` is terminal.
pub open spec fn next_phase(phase: RunPhase) -> RunPhase {
    match phase {
        RunPhase::Idle => RunPhase::Running,
        RunPhase::Running => RunPhase::Stopping,
        RunPhase::Stopping => RunPhase::Draining,
        RunPhase::Draining => RunPhase::Done,
        RunPhase::Done => RunPhase::Done,
    }
}

/// Steps the lifecycle along its only allowed transition.
pub fn advance(phase: RunPhase) -> (next: RunPhase)
    ensures
        next == next_phase(phase),
{
    match phase {
        RunPhase::Idle => RunPhase::Running,
        RunPhase::Running => RunPhase::Stopping,
        RunPhase::Stopping => RunPhase::Draining,
        RunPhase::Draining => RunPhase::Done,
        RunPhase::Done => RunPhase::Done,
    }
}

/// The phase a run started at `Idle` has reached after `steps` transitions.
spec fn phase_after(steps: int) -> RunPhase {
    if steps <= 0 {
        RunPhase::Idle
    } else if steps == 1 {
        RunPhase::Running
    } else if steps == 2 {
        RunPhase::Stopping
    } else if steps == 3 {
        RunPhase::Draining
    } else {
        RunPhase::Done
    }
}

/// Along a chain of allowed transitions out of `Idle`, the phase at each index
/// is fixed.
proof fn lemma_phase_chain(phases: Seq<RunPhase>, k: int)
    requires
        phases.len() > 0,
        phases[0] is Idle,
        forall|i: int| 0 <= i < phases.len() - 1 ==> phases[i + 1] == next_phase(phases[i]),
        0 <= k < phases.len(),
    ensures
        phases[k] == phase_after(k),
    decreases k,
{
    if k > 0 {
        lemma_phase_chain(phases, k - 1);
        assert(phases[(k - 1) + 1] == next_phase(phases[k - 1]));
    }
}

/// No transition bypasses `Stopping` before `Done`: every run that starts
/// `Idle`, moves only along the allowed transitions and ends `Done` has set
/// the cancellation signal at some point on the way.
pub proof fn lemma_stopping_before_done(phases: Seq<RunPhase>)
    requires
        phases.len() > 0,
        phases[0] is Idle,
        forall|i: int| 0 <= i < phases.len() - 1 ==> phases[i + 1] == next_phase(phases[i]),
        phases.last() is Done,
    ensures
        exists|i: int| 0 <= i < phases.len() && phases[i] is Stopping,
{
    lemma_phase_chain(phases, phases.len() - 1);
    assert(phases.len() > 4);
    lemma_phase_chain(phases, 2);
    assert(phases[2] is Stopping);
}

} // verus!
