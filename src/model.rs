//! Records stored in the ledger, and how a new record is merged into an old one.

use crate::order::{str_lt, strictly_ascending, with_version, lemma_with_version_at, lemma_with_version_ascending};
use vstd::prelude::*;

verus! {

/// The characters of each string of a sequence.
pub open spec fn texts(v: Seq<String>) -> Seq<Seq<char>> {
    v.map_values(|s: String| s@)
}

/// What a [`TaskState`] stands for, with each message as its characters.
pub enum StateModel {
    NotStarted,
    AttemptsWithFailure(Seq<Seq<char>>),
    Complete,
    InProgress(Option<Seq<Seq<char>>>),
}

/// Where a unit of work stands.
#[derive(Debug, Clone)]
pub enum TaskState {
    /// The task was never started.
    NotStarted,
    /// The task ran and failed, once for each message.
    AttemptsWithFailure(Vec<String>),
    /// The task completed successfully.
    Complete,
    /// The task is running, possibly after failed attempts. A row left in this
    /// state by a process that stopped is recognised as stale by its `stored_at`.
    InProgress(Option<Vec<String>>),
}

impl View for TaskState {
    type V = StateModel;

    open spec fn view(&self) -> StateModel {
        match self {
            TaskState::NotStarted => StateModel::NotStarted,
            TaskState::AttemptsWithFailure(v) => StateModel::AttemptsWithFailure(texts(v@)),
            TaskState::Complete => StateModel::Complete,
            TaskState::InProgress(None) => StateModel::InProgress(None),
            TaskState::InProgress(Some(v)) => StateModel::InProgress(Some(texts(v@))),
        }
    }
}

/// A running state must not be stored over failures while already carrying
/// failures of its own: the failures would have to be combined in two places.
pub open spec fn merge_allowed(existing: StateModel, new: StateModel) -> bool {
    !(existing is AttemptsWithFailure && new matches StateModel::InProgress(Some(_)))
}

/// The state stored when `new` is written over `existing`: failure histories
/// accumulate, a task that starts again carries the failures before it, and
/// any other new state replaces the old one.
pub open spec fn merge_state(existing: StateModel, new: StateModel) -> StateModel {
    match (existing, new) {
        (StateModel::AttemptsWithFailure(a), StateModel::AttemptsWithFailure(b)) => {
            StateModel::AttemptsWithFailure(a + b)
        },
        (StateModel::AttemptsWithFailure(a), StateModel::InProgress(None)) => {
            StateModel::InProgress(Some(a))
        },
        (StateModel::InProgress(Some(a)), StateModel::AttemptsWithFailure(b)) => {
            StateModel::AttemptsWithFailure(a + b)
        },
        (_, n) => n,
    }
}

fn copy_messages(v: &Vec<String>) -> (r: Vec<String>)
    ensures
        texts(r@) == texts(v@),
{
    let mut r: Vec<String> = Vec::new();
    let mut i: usize = 0;
    while i < v.len()
        invariant
            i <= v.len(),
            texts(r@) == texts(v@.subrange(0, i as int)),
        decreases v.len() - i,
    {
        r.push(v[i].clone());
        assert(texts(v@.subrange(0, i + 1)) =~= texts(v@.subrange(0, i as int)).push(v@[i as int]@));
        assert(texts(r@) =~= texts(v@.subrange(0, i as int)).push(v@[i as int]@));
        i = i + 1;
    }
    assert(v@.subrange(0, v.len() as int) =~= v@);
    r
}

fn concat_messages(a: &Vec<String>, b: &Vec<String>) -> (r: Vec<String>)
    ensures
        texts(r@) == texts(a@) + texts(b@),
{
    let mut r = copy_messages(a);
    let mut rest = copy_messages(b);
    let ghost r0 = r@;
    let ghost rest0 = rest@;
    r.append(&mut rest);
    assert(texts(r@) =~= texts(r0) + texts(rest0));
    r
}

pub(crate) fn copy_state(s: &TaskState) -> (r: TaskState)
    ensures
        r@ == s@,
{
    match s {
        TaskState::NotStarted => TaskState::NotStarted,
        TaskState::AttemptsWithFailure(v) => TaskState::AttemptsWithFailure(copy_messages(v)),
        TaskState::Complete => TaskState::Complete,
        TaskState::InProgress(None) => TaskState::InProgress(None),
        TaskState::InProgress(Some(v)) => TaskState::InProgress(Some(copy_messages(v))),
    }
}

impl TaskState {
    /// The state to store when `other` is written over `self`.
    pub fn merged(&self, other: &TaskState) -> (r: TaskState)
        requires
            merge_allowed(self@, other@),
        ensures
            r@ == merge_state(self@, other@),
    {
        match (self, other) {
            (TaskState::AttemptsWithFailure(existing), TaskState::AttemptsWithFailure(new)) => {
                TaskState::AttemptsWithFailure(concat_messages(existing, new))
            },
            (TaskState::AttemptsWithFailure(existing), TaskState::InProgress(None)) => {
                TaskState::InProgress(Some(copy_messages(existing)))
            },
            (TaskState::InProgress(Some(existing)), TaskState::AttemptsWithFailure(new)) => {
                TaskState::AttemptsWithFailure(concat_messages(existing, new))
            },
            (_, new) => copy_state(new),
        }
    }
}

impl Default for TaskState {
    fn default() -> (r: TaskState)
        ensures
            r@ == StateModel::NotStarted,
    {
        TaskState::NotStarted
    }
}

/// A moment of wall-clock time, in milliseconds since the Unix epoch.
#[derive(Debug, Clone, Copy, PartialEq, Eq, Structural)]
pub struct Timestamp {
    pub millis: u64,
}

/// A crate and the versions of it that are known, in ascending order.
#[derive(Debug, Clone, Default)]
pub struct Crate {
    /// Each published version once, ordered by string comparison, so that the
    /// most recent one is usually last.
    pub versions: Vec<String>,
}

impl View for Crate {
    type V = Seq<Seq<char>>;

    open spec fn view(&self) -> Seq<Seq<char>> {
        texts(self.versions@)
    }
}

impl Crate {
    /// The list is ascending and holds no version twice.
    pub open spec fn wf(&self) -> bool {
        strictly_ascending(self@)
    }

    /// The crate as first seen through one of its versions.
    pub fn from_version(v: &CrateVersion) -> (r: Crate)
        ensures
            r@ == seq![v.version@],
            r.wf(),
    {
        let mut versions: Vec<String> = Vec::new();
        versions.push(v.version.clone());
        let r = Crate { versions };
        assert(r@ =~= seq![v.version@]);
        r
    }

    /// Records `version`, keeping the list ascending: a version already there
    /// is replaced by the new string, which is equal to it.
    pub fn insert_version(&mut self, version: &str)
        requires
            old(self).wf(),
        ensures
            final(self)@ == with_version(old(self)@, version@),
            final(self).wf(),
    {
        let ghost s = self@;
        let n = self.versions.len();
        let mut i: usize = 0;
        while i < n && str_lt(self.versions[i].as_str(), version)
            invariant
                n == self.versions.len(),
                s == self@,
                i <= n,
                forall|k: int| 0 <= k < i ==> crate::order::text_lt(#[trigger] s[k], version@),
            decreases n - i,
        {
            i = i + 1;
        }
        proof {
            lemma_with_version_at(s, version@, i as int);
            lemma_with_version_ascending(s, version@);
        }
        if i < n && !str_lt(version, self.versions[i].as_str()) {
            proof {
                if s[i as int] != version@ {
                    crate::order::lemma_text_lt_total(s[i as int], version@);
                }
            }
            self.versions.set(i, String::from_str(version));
            assert(self@ =~= s);
        } else {
            self.versions.insert(i, String::from_str(version));
            assert(self@ =~= s.subrange(0, i as int) + seq![version@] + s.subrange(i as int, n as int));
        }
    }
}

/// Whether a version was published or withdrawn.
#[derive(Debug, Clone, Copy, PartialEq, Eq, Structural, Default)]
pub enum ChangeKind {
    /// The version was published.
    #[default]
    Added,
    /// The version was withdrawn from use.
    Yanked,
}

/// A single dependency of a specific crate version.
#[derive(Debug, Clone)]
pub struct Dependency {
    /// The crate name.
    pub name: String,
    /// The version the parent crate requires of this dependency.
    pub required_version: String,
    /// All cargo features configured by the parent crate.
    pub features: Vec<String>,
    /// True if this is an optional dependency.
    pub optional: bool,
    /// True if default features are enabled.
    pub default_features: bool,
    /// The name of the build target.
    pub target: Option<String>,
    /// The kind of dependency, usually 'normal' or 'dev'.
    pub kind: Option<String>,
    /// The package this crate is contained in.
    pub package: Option<String>,
}

/// All that is known about one version of a crate. Immutable once written.
#[derive(Debug, Clone, Default)]
pub struct CrateVersion {
    /// The crate name, i.e. `clap`.
    pub name: String,
    /// The kind of change.
    pub kind: ChangeKind,
    /// The semantic version of the crate.
    pub version: String,
    /// The checksum over the crate archive.
    pub checksum: String,
    /// All cargo features, each with the features it enables.
    pub features: std::collections::HashMap<String, Vec<String>>,
    /// All crate dependencies.
    pub dependencies: Vec<Dependency>,
}

/// Element counts of various kinds.
#[derive(Debug, Clone, Copy, Default, PartialEq, Eq, Structural)]
pub struct Counts {
    /// The amount of crate versions stored in the database.
    pub crate_versions: u64,
    /// The amount of crates in the database.
    pub crates: u32,
}

/// Wall-clock time that elapsed for various kinds of computation.
#[derive(Debug, Clone, Copy, Default, PartialEq, Eq, Structural)]
pub struct Durations {
    /// Time spent fetching new crate versions, in milliseconds.
    pub fetch_crate_versions: u64,
}

/// What work was performed over a day; a day's records add up.
#[derive(Debug, Clone, Copy, Default, PartialEq, Eq, Structural)]
pub struct Context {
    /// Various element counts.
    pub counts: Counts,
    /// Various kinds of time taken for computation.
    pub durations: Durations,
}

/// Two records of work can be added without overflowing a field.
pub open spec fn context_sum_fits(a: Context, b: Context) -> bool {
    &&& a.counts.crate_versions + b.counts.crate_versions <= u64::MAX
    &&& a.counts.crates + b.counts.crates <= u32::MAX
    &&& a.durations.fetch_crate_versions + b.durations.fetch_crate_versions <= u64::MAX
}

/// The field-wise sum of two records of work.
pub open spec fn context_sum(a: Context, b: Context) -> Context {
    Context {
        counts: Counts {
            crate_versions: (a.counts.crate_versions + b.counts.crate_versions) as u64,
            crates: (a.counts.crates + b.counts.crates) as u32,
        },
        durations: Durations {
            fetch_crate_versions: (a.durations.fetch_crate_versions
                + b.durations.fetch_crate_versions) as u64,
        },
    }
}

impl Context {
    /// Adds each field of `rhs` to the same field of `self`.
    pub fn add(self, rhs: &Context) -> (r: Context)
        requires
            context_sum_fits(self, *rhs),
        ensures
            r == context_sum(self, *rhs),
    {
        Context {
            counts: Counts {
                crate_versions: self.counts.crate_versions + rhs.counts.crate_versions,
                crates: self.counts.crates + rhs.counts.crates,
            },
            durations: Durations {
                fetch_crate_versions: self.durations.fetch_crate_versions
                    + rhs.durations.fetch_crate_versions,
            },
        }
    }
}

/// Whether a report was produced.
#[derive(Debug, Clone, Copy, PartialEq, Eq, Structural)]
pub enum ReportResult {
    Done,
    NotStarted,
}

/// A unit of work of kind `process` at revision `version`, and where it stands.
#[derive(Debug, Clone)]
pub struct Task {
    /// Set whenever the task is stored: roughly when it last finished running,
    /// successfully or not.
    pub stored_at: Timestamp,
    /// The process that runs the task.
    pub process: String,
    /// The revision of that process.
    pub version: String,
    pub state: TaskState,
}

impl Default for Task {
    /// A task of no process that was not started, stamped with the current time.
    fn default() -> (r: Task)
        ensures
            r.process@.len() == 0,
            r.version@.len() == 0,
            r.state@ == StateModel::NotStarted,
    {
        Task {
            stored_at: crate::timing::now(),
            process: String::new(),
            version: String::new(),
            state: TaskState::NotStarted,
        }
    }
}

/// A task that owns all it holds, as read back from the store.
#[derive(Debug, Clone)]
pub struct TaskOwned {
    pub stored_at: Timestamp,
    pub process: String,
    pub version: String,
    pub state: TaskState,
}

impl From<Task> for TaskOwned {
    fn from(v: Task) -> (r: TaskOwned) {
        TaskOwned { stored_at: v.stored_at, process: v.process, version: v.version, state: v.state }
    }
}

impl vstd::std_specs::convert::FromSpecImpl<Task> for TaskOwned {
    open spec fn obeys_from_spec() -> bool {
        true
    }

    open spec fn from_spec(v: Task) -> TaskOwned {
        TaskOwned { stored_at: v.stored_at, process: v.process, version: v.version, state: v.state }
    }
}

/// An entry in a tar archive, with the most important meta-data.
#[derive(Debug, Clone)]
pub struct TarHeader {
    /// The normalized path of the entry, which need not be UTF-8.
    pub path: Vec<u8>,
    /// The size of the file in bytes.
    pub size: u64,
    /// The type of entry, as a tar archive encodes it.
    pub entry_type: u8,
}

/// The outcome of a completed task. Variants are only ever appended, so that
/// stored rows stay readable.
#[derive(Debug, Clone)]
pub enum TaskResult {
    /// A placeholder, so that there is a default value.
    Unset,
    /// The most interesting information about an unpacked crate.
    ExplodedCrate {
        /// Meta data of all entries in the crate.
        entries_meta_data: Vec<TarHeader>,
        /// The content of selected files, usually README, license and Cargo.*
        /// files; these are also present in `entries_meta_data`.
        selected_entries: Vec<(TarHeader, Vec<u8>)>,
    },
    /// A downloaded file and what was learned about it.
    Download {
        kind: String,
        url: String,
        content_length: u32,
        /// Not always sent, though it should be.
        content_type: Option<String>,
    },
}

impl Default for TaskResult {
    fn default() -> (r: TaskResult)
        ensures
            r is Unset,
    {
        TaskResult::Unset
    }
}

} // verus!
