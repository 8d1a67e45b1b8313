use vstd::prelude::*;

verus! {

/// The status a remote run reports when polled. The recognized
/// non-terminal statuses are `Queued` and `InProgress`; `Completed` is
/// the successful terminal status; every other status arrives as
/// `Other` with its raw name and is treated as a failure.
pub enum RunStatus {
    Queued,
    InProgress,
    Completed,
    Other(String),
}

impl Clone for RunStatus {
    fn clone(&self) -> (r: Self)
        ensures
            r == self,
    {
        match self {
            RunStatus::Queued => RunStatus::Queued,
            RunStatus::InProgress => RunStatus::InProgress,
            RunStatus::Completed => RunStatus::Completed,
            RunStatus::Other(s) => RunStatus::Other(s.clone()),
        }
    }
}

/// A status on which polling stops.
pub open spec fn is_terminal(st: RunStatus) -> bool {
    !(st is Queued || st is InProgress)
}

/// No status before position `i` of the trace is terminal.
pub open spec fn no_terminal_before(trace: Seq<RunStatus>, i: int) -> bool {
    forall|j: int| 0 <= j < i ==> !is_terminal(trace[j])
}

/// What the poller does after observing one status.
pub enum PollDecision {
    /// The run is still pending and budget remains: sleep the fixed
    /// interval and poll again.
    Sleep,
    /// The run completed: fetch the latest thread message exactly once.
    FetchReply,
    /// The run reached an unrecognized terminal status; carries its raw
    /// name for the error report.
    Fail(String),
    /// The run is still pending but the polling budget is exhausted.
    TimedOut,
}

/// Decides one step of the polling loop from the observed status and
/// the number of polls already performed against the poll budget.
pub fn poll_decide(status: &RunStatus, polls_done: u64, max_polls: u64) -> (r: PollDecision)
    ensures
        (r is FetchReply <==> status is Completed),
        (r is Fail <==> status is Other),
        (status matches RunStatus::Other(raw) ==> r matches PollDecision::Fail(msg) ==> msg@
            == raw@),
        (r is Sleep <==> !is_terminal(*status) && polls_done + 1 < max_polls),
        (r is TimedOut <==> !is_terminal(*status) && polls_done + 1 >= max_polls),
{
    match status {
        RunStatus::Completed => PollDecision::FetchReply,
        RunStatus::Other(raw) => PollDecision::Fail(raw.clone()),
        _ => {
            let budget_left = max_polls > polls_done && max_polls - polls_done > 1;
            if budget_left {
                PollDecision::Sleep
            } else {
                PollDecision::TimedOut
            }
        },
    }
}

/// How a polling loop ended; `polls` is the number of status
/// retrievals that were performed.
pub enum PollOutcome {
    /// The run completed; the reply is fetched exactly once, after the
    /// final poll.
    ReplyReady { polls: usize },
    /// The run reached an unrecognized terminal status.
    RunFailed { polls: usize, status: String },
    /// Every observed status was pending; the poll budget ran out.
    TimedOut { polls: usize },
}

/// Drives the polling state machine over a trace of observed statuses:
/// the poller stops at the first terminal status and never polls past
/// it; a run whose first terminal status is `Completed` yields a reply,
/// any other terminal status fails with that status, and a trace with
/// no terminal status exhausts the budget.
pub fn poll_trace(trace: &Vec<RunStatus>) -> (r: PollOutcome)
    ensures
        (r is TimedOut <==> no_terminal_before(trace@, trace@.len() as int)),
        (r matches PollOutcome::TimedOut { polls } ==> polls == trace@.len()),
        (r matches PollOutcome::ReplyReady { polls } ==> 0 < polls <= trace@.len()
            && trace@[polls - 1] is Completed && no_terminal_before(trace@, polls - 1)),
        (r matches PollOutcome::RunFailed { polls, status } ==> 0 < polls <= trace@.len()
            && trace@[polls - 1] is Other && no_terminal_before(trace@, polls - 1)),
        (r matches PollOutcome::RunFailed { polls, status } ==> trace@[polls - 1] matches
            RunStatus::Other(raw) ==> status@ == raw@),
{
    let mut i: usize = 0;
    while i < trace.len()
        invariant
            i <= trace@.len(),
            no_terminal_before(trace@, i as int),
        decreases trace@.len() - i,
    {
        match &trace[i] {
            RunStatus::Completed => {
                return PollOutcome::ReplyReady { polls: i + 1 };
            },
            RunStatus::Other(raw) => {
                return PollOutcome::RunFailed { polls: i + 1, status: raw.clone() };
            },
            _ => {},
        }
        i = i + 1;
    }
    PollOutcome::TimedOut { polls: trace.len() }
}

} // verus!
