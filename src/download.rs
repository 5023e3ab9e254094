//! The download stage: what a download request turns into before, and after,
//! the network and the disk have done their part.

use crate::error::Error;
use crate::keys::task_key;
use crate::model::{StateModel, Task, TaskResult, TaskState};
use crate::paths::{crate_dir, download_file_path, output_file_name, path_join, shard};
use crate::text::{decimal, decimal_text};
use crate::timing::now;
use vstd::prelude::*;

verus! {

/// The process name of downloads.
pub const DOWNLOAD_PROCESS: &'static str = "download";

/// The process name of archive extraction.
pub const EXTRACT_PROCESS: &'static str = "extract";

/// The revision of the download and extraction processes.
pub const PROCESS_VERSION: &'static str = "1.0.0";

/// Seconds allowed for the response headers to arrive.
pub const HEAD_TIMEOUT_SECONDS: u64 = 30;

/// Seconds allowed for each chunk of the response body to arrive.
pub const CHUNK_TIMEOUT_SECONDS: u64 = 15;

/// A request to download one file of a crate version.
#[derive(Debug, Clone)]
pub struct DownloadRequest {
    pub crate_name: String,
    pub crate_version: String,
    /// A short tag of what is downloaded, e.g. `crate`.
    pub kind: &'static str,
    pub url: String,
}

/// A request to extract a downloaded crate archive.
#[derive(Debug, Clone)]
pub struct ExtractRequest {
    /// The task that downloaded the archive.
    pub download_task: Task,
    pub crate_name: String,
    pub crate_version: String,
}

/// A task of `process` at `version` that was not started, as first stored.
pub open spec fn is_fresh_task(t: Task, process: Seq<char>, version: Seq<char>) -> bool {
    &&& t.process@ == process
    &&& t.version@ == version
    &&& t.state@ == StateModel::NotStarted
}

/// The download task as it is first stored, stamped with the current time.
pub fn default_persisted_download_task() -> (r: Task)
    ensures
        is_fresh_task(r, DOWNLOAD_PROCESS@, PROCESS_VERSION@),
{
    Task {
        stored_at: now(),
        process: String::from_str(DOWNLOAD_PROCESS),
        version: String::from_str(PROCESS_VERSION),
        state: TaskState::NotStarted,
    }
}

/// The extraction task as it is first stored, stamped with the current time.
pub fn default_persisted_extraction_task() -> (r: Task)
    ensures
        is_fresh_task(r, EXTRACT_PROCESS@, PROCESS_VERSION@),
{
    Task {
        stored_at: now(),
        process: String::from_str(EXTRACT_PROCESS),
        version: String::from_str(PROCESS_VERSION),
        state: TaskState::NotStarted,
    }
}

/// What a download needs once it was set up.
#[derive(Debug, Clone)]
pub struct ProcessingState {
    pub url: String,
    pub kind: &'static str,
    /// Where the downloaded file is written.
    pub out_file: String,
    /// The key of the result row.
    pub key: String,
}

/// A download request, prepared for the work.
#[derive(Debug, Clone)]
pub struct DownloadSetup {
    /// The task as first stored.
    pub task: Task,
    /// What the progress display shows while the download runs.
    pub progress_message: String,
    pub state: ProcessingState,
    /// The request handed to extraction after the download succeeded.
    pub extract_request: ExtractRequest,
}

/// The text of the progress display while a crate version downloads.
pub open spec fn download_message(crate_name: Seq<char>, crate_version: Seq<char>) -> Seq<char> {
    "\u{2193} "@ + crate_name + seq![':'] + crate_version
}

/// The file that a download of `kind` for a crate version is written to.
pub open spec fn download_path(
    assets_dir: Seq<char>,
    crate_name: Seq<char>,
    crate_version: Seq<char>,
    kind: Seq<char>,
) -> Seq<char> {
    path_join(
        path_join(path_join(assets_dir, shard(crate_name)), crate_version),
        output_file_name(DOWNLOAD_PROCESS@, PROCESS_VERSION@, kind),
    )
}

/// Prepares `request` for downloading below `assets_dir`: writes the key of
/// its task into `out_key`, and derives the task, the key of its result, the
/// output file and the extraction request that follows it.
pub fn set_download(assets_dir: &str, request: DownloadRequest, out_key: &mut String) -> (r:
    DownloadSetup)
    requires
        request.crate_name@.len() >= 1,
        request.crate_name.is_ascii(),
    ensures
        final(out_key)@ == task_key(
            request.crate_name@,
            request.crate_version@,
            DOWNLOAD_PROCESS@,
            PROCESS_VERSION@,
        ),
        is_fresh_task(r.task, DOWNLOAD_PROCESS@, PROCESS_VERSION@),
        r.progress_message@ == download_message(request.crate_name@, request.crate_version@),
        r.state.url@ == request.url@,
        r.state.kind@ == request.kind@,
        r.state.out_file@ == download_path(
            assets_dir@,
            request.crate_name@,
            request.crate_version@,
            request.kind@,
        ),
        r.state.key@ == task_key(
            request.crate_name@,
            request.crate_version@,
            DOWNLOAD_PROCESS@,
            PROCESS_VERSION@,
        ) + seq![crate::keys::KEY_SEP_CHAR] + "Download"@,
        r.extract_request.crate_name@ == request.crate_name@,
        r.extract_request.crate_version@ == request.crate_version@,
        is_fresh_task(r.extract_request.download_task, DOWNLOAD_PROCESS@, PROCESS_VERSION@),
        r.extract_request.download_task.stored_at == r.task.stored_at,
{
    let task = default_persisted_download_task();
    proof {
        reveal_strlit("\u{2193} ");
        reveal_strlit(":");
    }
    let progress_message = String::from_str("\u{2193} ").concat(request.crate_name.as_str()).concat(
        ":",
    ).concat(request.crate_version.as_str());
    task.fq_key(request.crate_name.as_str(), request.crate_version.as_str(), out_key);
    let task_result = TaskResult::Download {
        kind: String::from_str(request.kind),
        url: String::new(),
        content_length: 0,
        content_type: None,
    };
    let mut key = String::new();
    task_result.fq_key(request.crate_name.as_str(), request.crate_version.as_str(), &task, &mut key);
    let base_dir = crate_dir(assets_dir, request.crate_name.as_str());
    let out_file = download_file_path(
        base_dir.as_str(),
        request.crate_version.as_str(),
        task.process.as_str(),
        task.version.as_str(),
        request.kind,
    );
    let download_task = Task {
        stored_at: task.stored_at,
        process: task.process.clone(),
        version: task.version.clone(),
        state: TaskState::NotStarted,
    };
    DownloadSetup {
        task,
        progress_message,
        state: ProcessingState { url: request.url, kind: request.kind, out_file, key },
        extract_request: ExtractRequest {
            download_task,
            crate_name: request.crate_name,
            crate_version: request.crate_version,
        },
    }
}

/// The reason given when a response announces no length.
pub const MISSING_LENGTH: &'static str = "expected content-length";

/// The size recorded for a response from its announced length: its low 32
/// bits. A response without a length fails with `InvalidHeader`.
pub fn expected_size(content_length: Option<u64>) -> (r: Result<u32, Error>)
    ensures
        match content_length {
            None => r matches Err(Error::InvalidHeader(m)) && m@ == MISSING_LENGTH@,
            Some(n) => r matches Ok(s) && s as int == n as int % 0x1_0000_0000,
        },
{
    match content_length {
        None => Err(Error::InvalidHeader(String::from_str(MISSING_LENGTH))),
        Some(n) => {
            let s = (n & 0xffff_ffff) as u32;
            assert((n & 0xffff_ffff) == n % 0x1_0000_0000) by (bit_vector);
            Ok(s)
        },
    }
}

/// The text by which a number of bytes is shown, as `bytesize` renders it.
pub uninterp spec fn byte_size_text(n: u64) -> Seq<char>;

/// Relies on the `Display` of `bytesize::ByteSize`: a number of bytes in
/// binary units, a text that depends on the number alone.
#[verifier::external_body]
fn byte_size(n: u64) -> (r: String)
    ensures
        r@ == byte_size_text(n),
{
    bytesize::ByteSize(n).to_string()
}

/// What the wait for the next chunk of a body is called, after `received` of
/// `size` bytes arrived.
pub fn chunk_timeout_label(received: u64, size: u32) -> (r: String)
    ensures
        r@ == "fetching "@ + byte_size_text(received) + " of "@ + byte_size_text(size as u64),
{
    proof {
        reveal_strlit("fetching ");
        reveal_strlit(" of ");
    }
    let r = String::from_str("fetching ").concat(byte_size(received).as_str());
    r.concat(" of ").concat(byte_size(size as u64).as_str())
}

/// Whether a body of `received` bytes is the whole of one announced as `size`
/// bytes long; a download is complete only then, so that every stored
/// download result tells the length of the file written.
pub fn body_complete(received: u64, size: u32) -> (r: Result<(), Error>)
    ensures
        r is Ok <==> received == size,
        r matches Err(e) ==> e matches Error::Message(m) && m@ == "received "@ + decimal_text(
            received as nat,
        ) + " bytes where "@ + decimal_text(size as nat) + " were announced"@,
{
    if received == size as u64 {
        Ok(())
    } else {
        let m = String::from_str("received ").concat(decimal(received).as_str()).concat(
            " bytes where ",
        ).concat(decimal(size as u64).as_str()).concat(" were announced");
        Err(Error::Message(m))
    }
}

/// The result stored for a finished download.
pub fn download_result(kind: &str, url: &str, size: u32, content_type: Option<String>) -> (r:
    TaskResult)
    ensures
        r matches TaskResult::Download { kind: k, url: u, content_length, content_type: ct } && k@
            == kind@ && u@ == url@ && content_length == size && ct == content_type,
{
    TaskResult::Download {
        kind: String::from_str(kind),
        url: String::from_str(url),
        content_length: size,
        content_type,
    }
}

/// What a failed download of `url` is reported as, before the error.
pub fn failure_context(url: &str) -> (r: String)
    ensures
        r@ == "Failed to download '"@ + url@ + "'"@,
{
    String::from_str("Failed to download '").concat(url).concat("'")
}

} // verus!
