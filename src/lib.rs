//! A crate-ecosystem miner's task ledger: the data model of tasks and their
//! results, the rules by which stored rows are merged, the keys under which they
//! are stored, and the decisions of the download pipeline and its scheduler.

pub mod download;
pub mod error;
pub mod keys;
pub mod ledger;
pub mod model;
pub mod order;
pub mod paths;
pub mod report;
pub mod schedule;
pub mod semver;
pub mod text;
pub mod timing;
