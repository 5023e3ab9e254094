//! The policies of the ledger's tables: how a stored row changes when a new
//! value is written to its key, and what a worker stores as it runs a task.

use crate::error::{error_text, Error};
use crate::model::{
    context_sum, context_sum_fits, copy_state, merge_allowed, merge_state, Context, Crate,
    CrateVersion, StateModel, Task, TaskState,
};
use crate::order::with_version;
use crate::timing::now;
use vstd::prelude::*;

verus! {

/// The value a read-modify-write stores: `f` applied to the row read, or to
/// `default` where the key held none.
pub fn apply_update<T, F: Fn(T) -> T>(existing: Option<T>, default: T, f: F) -> (r: T)
    requires
        forall|x: T| f.requires((x,)),
    ensures
        f.ensures(
            (match existing {
                Some(e) => e,
                None => default,
            },),
            r,
        ),
{
    let base = match existing {
        Some(e) => e,
        None => default,
    };
    f(base)
}

/// The state of a task row after a task in state `new` was written to it.
pub open spec fn upserted_state(existing: Option<StateModel>, new: StateModel) -> StateModel {
    match existing {
        Some(e) => merge_state(e, new),
        None => new,
    }
}

/// The task row stored when `new_task` is written over `existing`: the new
/// process and revision, stamped with the current time, with the state merged
/// into the stored one.
pub fn merge_task(new_task: &Task, existing: Option<Task>) -> (r: Task)
    requires
        existing matches Some(e) ==> merge_allowed(e.state@, new_task.state@),
    ensures
        r.process@ == new_task.process@,
        r.version@ == new_task.version@,
        r.state@ == upserted_state(
            match existing {
                Some(e) => Some(e.state@),
                None => None,
            },
            new_task.state@,
        ),
{
    let state = match existing {
        Some(e) => e.state.merged(&new_task.state),
        None => copy_state(&new_task.state),
    };
    Task {
        stored_at: now(),
        process: new_task.process.clone(),
        version: new_task.version.clone(),
        state,
    }
}

/// The crate row stored when a version of the crate is written over
/// `existing`: the version is recorded in the ascending list.
pub fn merge_crate(new_item: &CrateVersion, existing: Option<Crate>) -> (r: Crate)
    requires
        existing matches Some(c) ==> c.wf(),
    ensures
        r@ == with_version(
            match existing {
                Some(c) => c@,
                None => Seq::empty(),
            },
            new_item.version@,
        ),
        r.wf(),
{
    match existing {
        Some(c) => {
            let mut c = c;
            c.insert_version(new_item.version.as_str());
            c
        },
        None => {
            let r = Crate::from_version(new_item);
            assert(with_version(Seq::empty(), new_item.version@) == seq![new_item.version@]);
            r
        },
    }
}

/// The record of a day's work after `new` was added to it.
pub fn merge_context(new: &Context, existing: Option<Context>) -> (r: Context)
    requires
        existing matches Some(e) ==> context_sum_fits(e, *new),
    ensures
        r == match existing {
            Some(e) => context_sum(e, *new),
            None => *new,
        },
{
    match existing {
        Some(e) => e.add(new),
        None => *new,
    }
}

/// The row of a task once a worker took it up: marked as running, carrying
/// the failures before it.
pub fn mark_in_progress(t: Task) -> (r: Task)
    ensures
        r.stored_at == t.stored_at,
        r.process == t.process,
        r.version == t.version,
        r.state@ == merge_state(t.state@, StateModel::InProgress(None)),
{
    let marked = TaskState::InProgress(None);
    let state = t.state.merged(&marked);
    Task { stored_at: t.stored_at, process: t.process, version: t.version, state }
}

/// The message recorded for a failed attempt: where it failed, then why.
pub open spec fn failure_text(e: Error, context: Seq<char>) -> Seq<char> {
    context + ": "@ + error_text(e)
}

/// The state stored when an attempt finished with `outcome`.
pub open spec fn outcome_model(outcome: Result<(), (Error, String)>) -> StateModel {
    match outcome {
        Ok(()) => StateModel::Complete,
        Err((e, context)) => StateModel::AttemptsWithFailure(seq![failure_text(e, context@)]),
    }
}

/// The state a worker stores after an attempt: `Complete` on success, else one
/// failed attempt with its message.
pub fn outcome_state(outcome: &Result<(), (Error, String)>) -> (r: TaskState)
    ensures
        r@ == outcome_model(*outcome),
{
    match outcome {
        Ok(()) => TaskState::Complete,
        Err((e, context)) => {
            proof {
                reveal_strlit(": ");
            }
            let m = context.clone().concat(": ").concat(e.message().as_str());
            let mut v: Vec<String> = Vec::new();
            v.push(m);
            let r = TaskState::AttemptsWithFailure(v);
            assert(crate::model::texts(v@) =~= seq![failure_text(*e, context@)]);
            r
        },
    }
}

} // verus!
