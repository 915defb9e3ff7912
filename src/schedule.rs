use vstd::prelude::*;

verus! {

/// Where the block-on loop stands.
#[derive(Clone, Copy, Debug, PartialEq, Eq, Structural)]
pub enum Phase {
    /// Poll the root future.
    PollRoot,
    /// Run every spawned task that is queued.
    RunTasks,
    /// Flush pending submissions, wait for at least one completion, reap them all.
    SubmitAndWait,
    /// The root future resolved; its output is returned.
    Done,
    /// The root future was polled and stayed pending, and then no task ran
    /// and no operation is in flight: no completion will ever arrive, so
    /// waiting on the ring would never return.
    Stalled,
    /// Flushing the ring failed; the ring is unusable.
    Failed,
}

/// What the loop observed while carrying out its current phase.
#[derive(Clone, Copy, Debug, PartialEq, Eq, Structural)]
pub enum Report {
    /// The root future returned `Ready`.
    RootReady,
    /// The root future returned `Pending`.
    RootPending,
    /// `ran` queued tasks were run; afterwards `in_flight` operations await
    /// completion.
    TasksRun { in_flight: usize, ran: usize },
    /// The ring was flushed (`flush_ok` tells whether the kernel accepted it)
    /// and the ready completions were reaped.
    Reaped { flush_ok: bool },
}

/// The loop's transition function. A report that does not belong to the
/// current phase leaves it unchanged; `Done`, `Stalled` and `Failed` are final.
pub open spec fn next_phase(phase: Phase, report: Report) -> Phase {
    match (phase, report) {
        (Phase::PollRoot, Report::RootReady) => Phase::Done,
        (Phase::PollRoot, Report::RootPending) => Phase::RunTasks,
        (Phase::RunTasks, Report::TasksRun { in_flight, ran }) => if in_flight > 0 {
            Phase::SubmitAndWait
        } else if ran > 0 {
            Phase::PollRoot
        } else {
            Phase::Stalled
        },
        (Phase::SubmitAndWait, Report::Reaped { flush_ok }) => if flush_ok {
            Phase::PollRoot
        } else {
            Phase::Failed
        },
        _ => phase,
    }
}

/// Whether the loop has stopped.
pub open spec fn is_final(phase: Phase) -> bool {
    phase == Phase::Done || phase == Phase::Stalled || phase == Phase::Failed
}

/// The phase the block-on loop starts in.
pub fn start() -> (p: Phase)
    ensures
        p == Phase::PollRoot,
{
    Phase::PollRoot
}

/// Decides the loop's next phase from what the current one observed.
///
/// Waiting on the ring is chosen only while an operation is in flight, so the
/// wait always has a completion to return with. With nothing in flight, the
/// root is polled again whenever tasks ran, since they may have finished what
/// it awaits; the loop stalls only when no task ran either.
pub fn step(phase: Phase, report: Report) -> (r: Phase)
    ensures
        r == next_phase(phase, report),
        r == Phase::SubmitAndWait ==> (report matches Report::TasksRun { in_flight, .. } && in_flight
            > 0) || phase == Phase::SubmitAndWait,
        r == Phase::Done ==> (phase == Phase::PollRoot && report == Report::RootReady) || phase
            == Phase::Done,
        r == Phase::Stalled ==> (report matches Report::TasksRun { in_flight, ran } && in_flight
            == 0 && ran == 0) || phase == Phase::Stalled,
        (phase == Phase::RunTasks && (report matches Report::TasksRun { in_flight, ran } && in_flight
            == 0 && ran > 0)) ==> r == Phase::PollRoot,
{
    match (phase, report) {
        (Phase::PollRoot, Report::RootReady) => Phase::Done,
        (Phase::PollRoot, Report::RootPending) => Phase::RunTasks,
        (Phase::RunTasks, Report::TasksRun { in_flight, ran }) => {
            if in_flight > 0 {
                Phase::SubmitAndWait
            } else if ran > 0 {
                Phase::PollRoot
            } else {
                Phase::Stalled
            }
        },
        (Phase::SubmitAndWait, Report::Reaped { flush_ok }) => {
            if flush_ok {
                Phase::PollRoot
            } else {
                Phase::Failed
            }
        },
        _ => phase,
    }
}

/// Whether the loop has stopped.
pub fn finished(phase: Phase) -> (r: bool)
    ensures
        r == is_final(phase),
{
    match phase {
        Phase::Done | Phase::Stalled | Phase::Failed => true,
        _ => false,
    }
}

} // verus!
