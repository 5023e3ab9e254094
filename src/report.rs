//! Reports generated per crate version from what extraction found.

use crate::download::{default_persisted_extraction_task, EXTRACT_PROCESS, PROCESS_VERSION};
use crate::keys::{task_key, KEY_SEP_CHAR};
use crate::model::TaskResult;
use vstd::prelude::*;

verus! {

/// The report on payload that crates bundle without need.
pub struct Generator;

impl Generator {
    /// The name of this report.
    pub fn name() -> (r: &'static str)
        ensures
            r@ == "waste"@,
    {
        "waste"
    }

    /// The revision of this report.
    pub fn version() -> (r: &'static str)
        ensures
            r@ == "1.0.0"@,
    {
        "1.0.0"
    }

    /// Writes into `key_buf` the key of the extraction result that the report
    /// on a crate version is made from, replacing what it held.
    pub fn fq_result_key(crate_name: &str, crate_version: &str, key_buf: &mut String)
        ensures
            final(key_buf)@ == task_key(crate_name@, crate_version@, EXTRACT_PROCESS@, PROCESS_VERSION@)
                + seq![KEY_SEP_CHAR] + "ExplodedCrate"@,
    {
        let dummy_task = default_persisted_extraction_task();
        let dummy_result = TaskResult::ExplodedCrate {
            entries_meta_data: Vec::new(),
            selected_entries: Vec::new(),
        };
        dummy_result.fq_key(crate_name, crate_version, &dummy_task, key_buf);
    }
}

} // verus!
