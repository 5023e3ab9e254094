//! Which tasks the scheduler hands out, how storage retries are bounded, and
//! the laws that follow for the ledger.

use crate::download::DownloadRequest;
use crate::error::Error;
use crate::ledger::{outcome_model, upserted_state};
use crate::model::{merge_state, StateModel, Task, TaskState, Timestamp};
use vstd::prelude::*;

verus! {

/// How many failed attempts a task may collect before it is left alone.
pub const DEFAULT_ATTEMPT_CAP: usize = 3;

/// Whether a task in `state` still needs work: it was never stored or never
/// started, it is left running by a process that stopped (`stale`), or it has
/// failed fewer than `cap` times.
pub open spec fn needs_work(state: Option<StateModel>, stale: bool, cap: nat) -> bool {
    match state {
        None => true,
        Some(StateModel::NotStarted) => true,
        Some(StateModel::InProgress(_)) => stale,
        Some(StateModel::Complete) => false,
        Some(StateModel::AttemptsWithFailure(h)) => h.len() < cap,
    }
}

/// Whether the scheduler hands out the task stored as `task` again. A task
/// stored as running before `process_start` was left behind by an earlier
/// process.
pub fn needs_download(task: Option<&Task>, process_start: Timestamp, attempt_cap: usize) -> (r:
    bool)
    ensures
        r == match task {
            None => needs_work(None, false, attempt_cap as nat),
            Some(t) => needs_work(
                Some(t.state@),
                t.stored_at.millis < process_start.millis,
                attempt_cap as nat,
            ),
        },
{
    match task {
        None => true,
        Some(t) => match &t.state {
            TaskState::NotStarted => true,
            TaskState::InProgress(_) => t.stored_at.millis < process_start.millis,
            TaskState::Complete => false,
            TaskState::AttemptsWithFailure(h) => {
                assert(crate::model::texts(h@).len() == h@.len());
                h.len() < attempt_cap
            },
        },
    }
}

/// The kind of file that is downloaded for each crate version.
pub const CRATE_KIND: &'static str = "crate";

/// Where the archive of a crate version is downloaded from.
pub open spec fn crate_url(crate_name: Seq<char>, crate_version: Seq<char>) -> Seq<char> {
    "https://crates.io/api/v1/crates/"@ + crate_name + "/"@ + crate_version + "/download"@
}

/// The scheduler's step for one crate version whose download task is stored as
/// `task`: the request to hand out, where the task needs work.
pub fn download_request_for(
    crate_name: &str,
    crate_version: &str,
    task: Option<&Task>,
    process_start: Timestamp,
    attempt_cap: usize,
) -> (r: Option<DownloadRequest>)
    ensures
        r is Some == match task {
            None => needs_work(None, false, attempt_cap as nat),
            Some(t) => needs_work(
                Some(t.state@),
                t.stored_at.millis < process_start.millis,
                attempt_cap as nat,
            ),
        },
        r matches Some(q) ==> q.crate_name@ == crate_name@ && q.crate_version@ == crate_version@
            && q.kind@ == CRATE_KIND@ && q.url@ == crate_url(crate_name@, crate_version@),
{
    if needs_download(task, process_start, attempt_cap) {
        proof {
            reveal_strlit("https://crates.io/api/v1/crates/");
            reveal_strlit("/");
            reveal_strlit("/download");
        }
        let url = String::from_str("https://crates.io/api/v1/crates/").concat(crate_name).concat(
            "/",
        ).concat(crate_version).concat("/download");
        Some(
            DownloadRequest {
                crate_name: String::from_str(crate_name),
                crate_version: String::from_str(crate_version),
                kind: CRATE_KIND,
                url,
            },
        )
    } else {
        None
    }
}

/// One run of a task by a worker: marked as running, then stored with the
/// state that the attempt's outcome gives.
pub open spec fn worker_round(s: StateModel, outcome: Result<(), (Error, String)>) -> StateModel {
    merge_state(merge_state(s, StateModel::InProgress(None)), outcome_model(outcome))
}

/// The state of a task after the scheduler handed it out whenever it needed
/// work, each run ending with the next of `outcomes`.
pub open spec fn scheduled_runs(
    s: Option<StateModel>,
    stale: bool,
    cap: nat,
    outcomes: Seq<Result<(), (Error, String)>>,
) -> Option<StateModel>
    decreases outcomes.len(),
{
    if outcomes.len() == 0 || !needs_work(s, stale, cap) {
        s
    } else {
        let start = match s {
            Some(x) => x,
            None => StateModel::NotStarted,
        };
        scheduled_runs(Some(worker_round(start, outcomes[0])), false, cap, outcomes.drop_first())
    }
}

/// The failed attempts a state records.
pub open spec fn failures(s: Option<StateModel>) -> nat {
    match s {
        Some(StateModel::AttemptsWithFailure(h)) => h.len(),
        _ => 0,
    }
}

/// A state the scheduler can start from: anything but a task running in this
/// process, or one with more failures than the cap.
pub open spec fn schedulable(s: Option<StateModel>, stale: bool, cap: nat) -> bool {
    match s {
        Some(StateModel::InProgress(_)) => stale,
        Some(StateModel::AttemptsWithFailure(h)) => h.len() <= cap,
        _ => true,
    }
}

/// Once the scheduler has handed a task out as often as it needed, the task is
/// `Complete`, or it has failed exactly `cap` times; a task left running by a
/// crashed process is taken up again like one never started.
pub proof fn lemma_scheduler_converges(
    s: Option<StateModel>,
    stale: bool,
    cap: nat,
    outcomes: Seq<Result<(), (Error, String)>>,
)
    requires
        cap >= 1,
        schedulable(s, stale, cap),
        outcomes.len() >= cap - failures(s),
    ensures
        ({
            let f = scheduled_runs(s, stale, cap, outcomes);
            f == Some(StateModel::Complete) || (f matches Some(StateModel::AttemptsWithFailure(h))
                && h.len() == cap)
        }),
    decreases outcomes.len(),
{
    if outcomes.len() == 0 || !needs_work(s, stale, cap) {
    } else {
        let start = match s {
            Some(x) => x,
            None => StateModel::NotStarted,
        };
        let next = worker_round(start, outcomes[0]);
        match outcomes[0] {
            Ok(()) => {
                assert(next == StateModel::Complete);
                assert(scheduled_runs(Some(next), false, cap, outcomes.drop_first()) == Some(next));
            },
            Err((e, context)) => {
                let m = crate::ledger::failure_text(e, context@);
                match start {
                    StateModel::AttemptsWithFailure(h) => {
                        assert(next == StateModel::AttemptsWithFailure(h + seq![m]));
                    },
                    _ => {
                        assert(next == StateModel::AttemptsWithFailure(seq![m]));
                    },
                }
                lemma_scheduler_converges(Some(next), false, cap, outcomes.drop_first());
            },
        }
    }
}

/// A completed task stays completed when it is submitted again: the scheduler
/// does not hand it out, writing it again keeps it completed, and so does a
/// worker that runs it again with success.
pub proof fn lemma_resubmit_complete(stale: bool, cap: nat)
    ensures
        !needs_work(Some(StateModel::Complete), stale, cap),
        upserted_state(Some(StateModel::Complete), StateModel::Complete) == StateModel::Complete,
        worker_round(StateModel::Complete, Ok(())) == StateModel::Complete,
{
}

/// The merge rule folded over states written in turn, the first kept as it is.
pub open spec fn merge_fold(states: Seq<StateModel>) -> StateModel
    recommends
        states.len() >= 1,
    decreases states.len(),
{
    if states.len() <= 1 {
        states[0]
    } else {
        merge_state(merge_fold(states.drop_last()), states.last())
    }
}

/// The state of a task row after tasks in `states` were written to it in turn.
pub open spec fn upserts(existing: Option<StateModel>, states: Seq<StateModel>) -> Option<
    StateModel,
>
    decreases states.len(),
{
    if states.len() == 0 {
        existing
    } else {
        Some(upserted_state(upserts(existing, states.drop_last()), states.last()))
    }
}

/// After any sequence of writes to a new task row, its state is the merge rule
/// folded over the written states.
pub proof fn lemma_upserts_fold(states: Seq<StateModel>)
    requires
        states.len() >= 1,
    ensures
        upserts(None, states) == Some(merge_fold(states)),
    decreases states.len(),
{
    let p = states.drop_last();
    if states.len() > 1 {
        lemma_upserts_fold(p);
    } else {
        assert(p =~= Seq::<StateModel>::empty());
        assert(upserts(None, p) == None::<StateModel>);
    }
}

/// After any sequence of writes to a stored task row, its state is the merge
/// rule folded over the stored state and then the written ones.
pub proof fn lemma_upserts_fold_existing(existing: StateModel, states: Seq<StateModel>)
    ensures
        upserts(Some(existing), states) == Some(merge_fold(seq![existing] + states)),
    decreases states.len(),
{
    let all = seq![existing] + states;
    if states.len() == 0 {
        assert(all =~= seq![existing]);
    } else {
        let p = states.drop_last();
        lemma_upserts_fold_existing(existing, p);
        assert(all.drop_last() =~= seq![existing] + p);
        assert(all.last() == states.last());
    }
}

/// The most attempts a storage operation makes while the store is busy.
pub const MAX_BUSY_ATTEMPTS: u32 = 1000;

/// How an attempt at a storage operation ended.
#[derive(Debug, Clone, Copy, PartialEq, Eq, Structural)]
pub enum AttemptOutcome {
    Succeeded,
    /// The store was locked by another writer.
    Busy,
    /// Any other failure.
    Failed,
}

/// What follows an attempt.
#[derive(Debug, Clone, Copy, PartialEq, Eq, Structural)]
pub enum RetryStep {
    /// Hand back what the attempt gave.
    Finish,
    /// Wait a moment and run the whole operation again.
    Retry,
}

/// What follows attempt number `attempt`, counted from 1: only a busy store is
/// retried, and only below the ceiling.
pub open spec fn retry_spec(attempt: nat, outcome: AttemptOutcome) -> RetryStep {
    if outcome == AttemptOutcome::Busy && attempt < MAX_BUSY_ATTEMPTS {
        RetryStep::Retry
    } else {
        RetryStep::Finish
    }
}

/// What follows attempt number `attempt` of a storage operation.
pub fn retry_step(attempt: u32, outcome: AttemptOutcome) -> (r: RetryStep)
    requires
        1 <= attempt <= MAX_BUSY_ATTEMPTS,
    ensures
        r == retry_spec(attempt as nat, outcome),
{
    if outcome == AttemptOutcome::Busy && attempt < MAX_BUSY_ATTEMPTS {
        RetryStep::Retry
    } else {
        RetryStep::Finish
    }
}

/// The attempts made when the attempts end as `outcomes` say.
pub open spec fn attempts_made(outcomes: Seq<AttemptOutcome>, attempt: nat) -> nat
    decreases outcomes.len(),
{
    if outcomes.len() == 0 || retry_spec(attempt, outcomes[0]) == RetryStep::Finish {
        1
    } else {
        1 + attempts_made(outcomes.drop_first(), attempt + 1)
    }
}

/// However the store answers, an operation ends within the ceiling of attempts.
pub proof fn lemma_busy_retry_bounded(outcomes: Seq<AttemptOutcome>, attempt: nat)
    requires
        1 <= attempt <= MAX_BUSY_ATTEMPTS,
    ensures
        attempt + attempts_made(outcomes, attempt) <= MAX_BUSY_ATTEMPTS + 1,
    decreases outcomes.len(),
{
    if outcomes.len() > 0 && retry_spec(attempt, outcomes[0]) == RetryStep::Retry {
        lemma_busy_retry_bounded(outcomes.drop_first(), attempt + 1);
    }
}

} // verus!
