use criner::download::{
    body_complete, chunk_timeout_label, default_persisted_download_task, default_persisted_extraction_task,
    download_result, expected_size, failure_context, set_download, DownloadRequest,
};
use criner::error::Error;
use criner::ledger::{mark_in_progress, merge_task, outcome_state};
use criner::model::{Task, TaskResult, TaskState, Timestamp};
use criner::paths::{crate_dir, download_file_path, join};
use criner::report::Generator;
use criner::schedule::{download_request_for, needs_download, retry_step, AttemptOutcome, RetryStep, DEFAULT_ATTEMPT_CAP, MAX_BUSY_ATTEMPTS};
use criner::semver::parse_semver;
use criner::timing::{check, check_at, desired_launch_at, duration_until, should_repeat};

fn request(name: &str, version: &str) -> DownloadRequest {
    DownloadRequest {
        crate_name: name.to_string(),
        crate_version: version.to_string(),
        kind: "crate",
        url: format!("https://example.org/{}/{}", name, version),
    }
}

fn messages(s: &TaskState) -> Option<Vec<String>> {
    match s {
        TaskState::AttemptsWithFailure(v) => Some(v.clone()),
        _ => None,
    }
}

fn stored(state: TaskState, millis: u64) -> Task {
    Task { stored_at: Timestamp { millis }, process: "download".into(), version: "1.0.0".into(), state }
}

#[test]
fn crate_dir_shards_by_length() {
    assert_eq!(crate_dir("assets", "a"), "assets/1/a");
    assert_eq!(crate_dir("assets", "ab"), "assets/2/ab");
    assert_eq!(crate_dir("assets", "abc"), "assets/3/a");
    assert_eq!(crate_dir("assets", "serde"), "assets/se/rd/serde");
    assert_eq!(crate_dir("assets/", "abcd"), "assets/ab/cd/abcd");
    assert_eq!(crate_dir("", "abcd"), "ab/cd/abcd");
}

#[test]
fn download_file_path_layout() {
    assert_eq!(
        download_file_path("assets/1/a", "1.0.0", "download", "1.0.0", "crate"),
        "assets/1/a/1.0.0/download:1.0.0.crate"
    );
    assert_eq!(join("x/", "y"), "x/y");
}

#[test]
fn happy_path_setup() {
    let mut key = String::new();
    let setup = set_download("assets", request("a", "1.0.0"), &mut key);
    assert_eq!(key, "a:1.0.0:download:1.0.0");
    assert_eq!(setup.state.key, "a:1.0.0:download:1.0.0:Download");
    assert_eq!(setup.state.out_file, "assets/1/a/1.0.0/download:1.0.0.crate");
    assert_eq!(setup.state.url, "https://example.org/a/1.0.0");
    assert_eq!(setup.progress_message, "\u{2193} a:1.0.0");
    assert_eq!(setup.task.process, "download");
    assert!(matches!(setup.task.state, TaskState::NotStarted));
    assert_eq!(setup.extract_request.crate_name, "a");
    assert_eq!(setup.extract_request.download_task.version, "1.0.0");
}

#[test]
fn happy_path_ledger() {
    let size = expected_size(Some(11)).unwrap();
    assert_eq!(size, 11);
    let result = download_result("crate", "https://example.org/a", size, Some("application/x-tar".into()));
    match result {
        TaskResult::Download { kind, url, content_length, content_type } => {
            assert_eq!(kind, "crate");
            assert_eq!(url, "https://example.org/a");
            assert_eq!(content_length, 11);
            assert_eq!(content_type.as_deref(), Some("application/x-tar"));
        }
        _ => panic!("expected a download result"),
    }
    let running = mark_in_progress(stored(TaskState::NotStarted, 1));
    let fresh = default_persisted_download_task();
    let done = Task { state: outcome_state(&Ok(())), ..fresh };
    let row = merge_task(&done, Some(running));
    assert!(matches!(row.state, TaskState::Complete));
}

#[test]
fn missing_content_length() {
    let err = expected_size(None).unwrap_err();
    assert!(matches!(&err, Error::InvalidHeader(m) if m == "expected content-length"));
    let url = "https://example.org/a/1.0.0";
    let state = outcome_state(&Err((err, failure_context(url))));
    assert_eq!(
        messages(&state),
        Some(vec!["Failed to download 'https://example.org/a/1.0.0': expected content-length".to_string()])
    );
}

#[test]
fn size_keeps_low_bits() {
    assert_eq!(expected_size(Some((1u64 << 32) + 5)).unwrap(), 5);
}

#[test]
fn chunk_timeout_appends_attempt() {
    let label = chunk_timeout_label(2048, 11);
    assert!(label.starts_with("fetching "));
    assert!(label.contains(" of "));
    assert!(label.contains("KiB") || label.contains("kB"));
    let err = Error::Timeout(15, label.clone());
    assert_eq!(err.message(), format!("{}: timeout after 15s", label));
    let first = outcome_state(&Err((err.clone(), failure_context("u"))));
    let row = merge_task(&stored(first, 1), None);
    assert_eq!(messages(&row.state).map(|v| v.len()), Some(1));
    let running = mark_in_progress(row);
    let second = outcome_state(&Err((err, failure_context("u"))));
    let row = merge_task(&stored(second, 2), Some(running));
    let m = messages(&row.state).unwrap();
    assert_eq!(m.len(), 2);
    assert!(m[1].contains("timeout"));
}

#[test]
fn crash_recovery_reemits_stale_task() {
    let start = Timestamp { millis: 1000 };
    let stale = stored(TaskState::InProgress(None), 10);
    assert!(needs_download(Some(&stale), start, DEFAULT_ATTEMPT_CAP));
    let fresh = stored(TaskState::InProgress(None), 2000);
    assert!(!needs_download(Some(&fresh), start, DEFAULT_ATTEMPT_CAP));
    let running = mark_in_progress(stale);
    let row = merge_task(&stored(TaskState::Complete, 3000), Some(running));
    assert!(matches!(row.state, TaskState::Complete));
}

#[test]
fn scheduler_decisions() {
    let start = Timestamp { millis: 1000 };
    assert!(needs_download(None, start, 3));
    assert!(needs_download(Some(&stored(TaskState::NotStarted, 5000)), start, 3));
    assert!(!needs_download(Some(&stored(TaskState::Complete, 5)), start, 3));
    let two = TaskState::AttemptsWithFailure(vec!["a".into(), "b".into()]);
    assert!(needs_download(Some(&stored(two.clone(), 5)), start, 3));
    assert!(!needs_download(Some(&stored(two, 5)), start, 2));
}

#[test]
fn busy_retry_ceiling() {
    assert_eq!(retry_step(1, AttemptOutcome::Busy), RetryStep::Retry);
    assert_eq!(retry_step(MAX_BUSY_ATTEMPTS - 1, AttemptOutcome::Busy), RetryStep::Retry);
    assert_eq!(retry_step(MAX_BUSY_ATTEMPTS, AttemptOutcome::Busy), RetryStep::Finish);
    assert_eq!(retry_step(1, AttemptOutcome::Failed), RetryStep::Finish);
    assert_eq!(retry_step(1, AttemptOutcome::Succeeded), RetryStep::Finish);
    let mut attempt = 1u32;
    while retry_step(attempt, AttemptOutcome::Busy) == RetryStep::Retry {
        attempt += 1;
    }
    assert_eq!(attempt, MAX_BUSY_ATTEMPTS);
}

#[test]
fn deadline_checks() {
    let d = Timestamp { millis: 100 };
    assert!(check_at(Timestamp { millis: 99 }, Some(d)).is_ok());
    assert!(matches!(check_at(Timestamp { millis: 100 }, Some(d)), Err(Error::DeadlineExceeded(x)) if x == d));
    assert!(check_at(Timestamp { millis: 5000 }, None).is_ok());
    assert!(check(None).is_ok());
    assert!(check(Some(Timestamp { millis: 0 })).is_err());
    assert!(check(Some(Timestamp { millis: u64::MAX })).is_ok());
    assert_eq!(Error::DeadlineExceeded(d).message(), "deadline exceeded at 100ms since the Unix epoch");
}

#[test]
fn daily_launch() {
    assert_eq!(desired_launch_at(3600, Some(7200)), 7200);
    assert_eq!(desired_launch_at(7200, Some(3600)), 3600 + 86400);
    assert_eq!(desired_launch_at(500, None), 500);
    assert_eq!(duration_until(3600, Some(7200)), 3600);
    assert_eq!(duration_until(7200, Some(3600)), 82800);
    assert_eq!(duration_until(10, None), 0);
}

#[test]
fn semver_with_suffixes() {
    assert!(parse_semver("1.2.3").is_some());
    assert!(parse_semver("1.2.3-alpha.1").is_some());
    assert!(parse_semver("not a version").is_none());
    assert_eq!(parse_semver("0.4.0").unwrap().to_string(), "0.4.0");
}

#[test]
fn waste_generator_keys() {
    assert_eq!(Generator::name(), "waste");
    assert_eq!(Generator::version(), "1.0.0");
    let mut k = String::new();
    Generator::fq_result_key("serde", "1.0.0", &mut k);
    assert_eq!(k, "serde:1.0.0:extract:1.0.0:ExplodedCrate");
    assert_eq!(default_persisted_extraction_task().process, "extract");
}

#[test]
fn scheduler_step_builds_request() {
    let start = Timestamp { millis: 1000 };
    let q = download_request_for("serde", "1.0.0", None, start, 3).unwrap();
    assert_eq!(q.crate_name, "serde");
    assert_eq!(q.crate_version, "1.0.0");
    assert_eq!(q.kind, "crate");
    assert_eq!(q.url, "https://crates.io/api/v1/crates/serde/1.0.0/download");
    assert!(download_request_for("serde", "1.0.0", Some(&stored(TaskState::Complete, 5)), start, 3).is_none());
}

#[test]
fn scheduler_converges_at_cap() {
    let start = Timestamp { millis: 1000 };
    let mut row: Option<Task> = None;
    let mut runs = 0;
    while needs_download(row.as_ref(), start, DEFAULT_ATTEMPT_CAP) {
        let running = mark_in_progress(row.take().unwrap_or_else(|| stored(TaskState::NotStarted, 2000)));
        let failed = outcome_state(&Err((Error::Network("reset".into()), failure_context("u"))));
        row = Some(merge_task(&stored(failed, 3000), Some(running)));
        runs += 1;
        assert!(runs <= DEFAULT_ATTEMPT_CAP);
    }
    assert_eq!(runs, DEFAULT_ATTEMPT_CAP);
    assert_eq!(messages(&row.unwrap().state).unwrap().len(), DEFAULT_ATTEMPT_CAP);
}

#[test]
fn redownload_result_is_equivalent() {
    let first = download_result("crate", "https://example.org/x", 11, None);
    let second = download_result("crate", "https://example.org/x", 11, None);
    assert_eq!(format!("{:?}", first), format!("{:?}", second));
    let mut k1 = String::new();
    let mut k2 = String::new();
    let a = set_download("assets", request("xyzzy", "0.1.0"), &mut k1);
    let b = set_download("assets", request("xyzzy", "0.1.0"), &mut k2);
    assert_eq!(k1, k2);
    assert_eq!(a.state.out_file, b.state.out_file);
    assert_eq!(a.state.out_file, "assets/xy/zz/xyzzy/0.1.0/download:1.0.0.crate");
}

#[test]
fn task_default_is_not_started() {
    let t = Task::default();
    assert!(t.process.is_empty());
    assert!(matches!(t.state, TaskState::NotStarted));
}

#[test]
fn body_must_match_announced_length() {
    assert!(body_complete(11, 11).is_ok());
    let err = body_complete(7, 11).unwrap_err();
    assert!(matches!(&err, Error::Message(m) if m == "received 7 bytes where 11 were announced"));
    assert!(body_complete(1u64 << 32, 0).is_err());
}

#[test]
fn repeat_limits() {
    assert!(should_repeat(0, Some(2)));
    assert!(should_repeat(1, Some(2)));
    assert!(!should_repeat(2, Some(2)));
    assert!(!should_repeat(0, Some(0)));
    assert!(should_repeat(1_000_000, None));
}
