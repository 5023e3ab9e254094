//! Keys under which records are stored: colon-separated, human-readable text.

use crate::model::{CrateVersion, Task, TaskResult};
use vstd::prelude::*;

verus! {

/// The separator of the parts of a key. It appears in no crate name and in no
/// version.
pub const KEY_SEP_CHAR: char = ':';

/// The separator as text.
pub const KEY_SEP: &'static str = ":";

/// The key of a crate version: `crate:version`.
pub open spec fn entity_key(crate_name: Seq<char>, crate_version: Seq<char>) -> Seq<char> {
    crate_name + seq![KEY_SEP_CHAR] + crate_version
}

/// The key of a task: `crate:version:process:process-version`.
pub open spec fn task_key(
    crate_name: Seq<char>,
    crate_version: Seq<char>,
    process: Seq<char>,
    process_version: Seq<char>,
) -> Seq<char> {
    entity_key(crate_name, crate_version) + seq![KEY_SEP_CHAR] + process + seq![KEY_SEP_CHAR]
        + process_version
}

/// The name by which a kind of result is told apart in its key.
pub open spec fn result_kind(r: TaskResult) -> Seq<char> {
    match r {
        TaskResult::Unset => "None"@,
        TaskResult::ExplodedCrate { .. } => "ExplodedCrate"@,
        TaskResult::Download { .. } => "Download"@,
    }
}

/// The key of a task's result: `crate:version:process:process-version:kind`.
pub open spec fn result_key(
    crate_name: Seq<char>,
    crate_version: Seq<char>,
    task: Task,
    r: TaskResult,
) -> Seq<char> {
    task_key(crate_name, crate_version, task.process@, task.version@) + seq![KEY_SEP_CHAR]
        + result_kind(r)
}

fn push_sep(key: &mut String)
    ensures
        final(key)@ == old(key)@ + seq![KEY_SEP_CHAR],
{
    proof {
        reveal_strlit(":");
    }
    key.append(KEY_SEP);
}

/// Writes the key of the version `crate_version` of `crate_name` into `key`,
/// replacing what it held.
pub fn write_entity_key(crate_name: &str, crate_version: &str, key: &mut String)
    ensures
        final(key)@ == entity_key(crate_name@, crate_version@),
{
    *key = String::from_str(crate_name);
    push_sep(key);
    key.append(crate_version);
}

/// Writes the key of the task of `process` at `process_version` on a crate
/// version into `key`, replacing what it held.
pub fn write_task_key(
    crate_name: &str,
    crate_version: &str,
    process: &str,
    process_version: &str,
    key: &mut String,
)
    ensures
        final(key)@ == task_key(crate_name@, crate_version@, process@, process_version@),
{
    write_entity_key(crate_name, crate_version, key);
    push_sep(key);
    key.append(process);
    push_sep(key);
    key.append(process_version);
}

/// The key of the report `report_name` at `report_version` on a crate version.
pub fn report_key(
    crate_name: &str,
    crate_version: &str,
    report_name: &str,
    report_version: &str,
) -> (r: String)
    ensures
        r@ == task_key(crate_name@, crate_version@, report_name@, report_version@),
{
    let mut key = String::new();
    write_task_key(crate_name, crate_version, report_name, report_version, &mut key);
    key
}

impl CrateVersion {
    /// Writes this version's key into `key`, replacing what it held.
    pub fn key_buf(&self, key: &mut String)
        ensures
            final(key)@ == entity_key(self.name@, self.version@),
    {
        write_entity_key(self.name.as_str(), self.version.as_str(), key);
    }
}

impl Task {
    /// Sets `key` to the key under which the task, on the given crate version, is
    /// stored.
    pub fn fq_key(&self, crate_name: &str, crate_version: &str, key: &mut String)
        ensures
            final(key)@ == task_key(crate_name@, crate_version@, self.process@, self.version@),
    {
        write_task_key(crate_name, crate_version, self.process.as_str(), self.version.as_str(), key);
    }
}

impl TaskResult {
    /// Writes the key of this kind of result of `task` on a crate version into
    /// `key`, replacing what it held.
    pub fn fq_key(&self, crate_name: &str, crate_version: &str, task: &Task, key: &mut String)
        ensures
            final(key)@ == result_key(crate_name@, crate_version@, *task, *self),
    {
        task.fq_key(crate_name, crate_version, key);
        push_sep(key);
        proof {
            reveal_strlit("None");
            reveal_strlit("ExplodedCrate");
            reveal_strlit("Download");
        }
        match self {
            TaskResult::Unset => key.append("None"),
            TaskResult::ExplodedCrate { .. } => key.append("ExplodedCrate"),
            TaskResult::Download { .. } => key.append("Download"),
        }
    }
}

} // verus!
