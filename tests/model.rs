use criner::keys::{report_key, write_entity_key, write_task_key};
use criner::ledger::{apply_update, merge_context, merge_crate, merge_task, mark_in_progress};
use criner::model::{ChangeKind, Context, Counts, Crate, CrateVersion, Durations, Task, TaskOwned, TaskResult, TaskState, Timestamp};
use criner::order::str_lt;
use criner::text::decimal;

fn failures(v: &[&str]) -> TaskState {
    TaskState::AttemptsWithFailure(v.iter().map(|s| s.to_string()).collect())
}

fn messages(s: &TaskState) -> Option<Vec<String>> {
    match s {
        TaskState::AttemptsWithFailure(v) => Some(v.clone()),
        _ => None,
    }
}

fn version(name: &str, v: &str) -> CrateVersion {
    CrateVersion {
        name: name.to_string(),
        kind: ChangeKind::Added,
        version: v.to_string(),
        ..Default::default()
    }
}

fn task(state: TaskState) -> Task {
    Task {
        stored_at: Timestamp { millis: 5 },
        process: "download".to_string(),
        version: "1.0.0".to_string(),
        state,
    }
}

#[test]
fn state_merge_scenario() {
    let s1 = failures(&["a"]);
    let s2 = s1.merged(&TaskState::InProgress(None));
    match &s2 {
        TaskState::InProgress(Some(v)) => assert_eq!(v, &vec!["a".to_string()]),
        _ => panic!("expected a running state carrying the failure"),
    }
    let s3 = s2.merged(&failures(&["b"]));
    assert_eq!(messages(&s3), Some(vec!["a".to_string(), "b".to_string()]));
}

#[test]
fn failures_accumulate() {
    let s = failures(&["x", "y"]).merged(&failures(&["z"]));
    assert_eq!(messages(&s), Some(vec!["x".to_string(), "y".to_string(), "z".to_string()]));
}

#[test]
fn other_pairs_take_the_new_state() {
    assert!(matches!(TaskState::Complete.merged(&TaskState::NotStarted), TaskState::NotStarted));
    assert!(matches!(failures(&["a"]).merged(&TaskState::Complete), TaskState::Complete));
    assert!(matches!(TaskState::InProgress(None).merged(&failures(&["q"])), TaskState::AttemptsWithFailure(_)));
    assert_eq!(messages(&TaskState::InProgress(None).merged(&failures(&["q"]))), Some(vec!["q".to_string()]));
    assert!(matches!(TaskState::default(), TaskState::NotStarted));
}

#[test]
fn crate_version_dedup() {
    let v = version("a", "1.0.0");
    let c = merge_crate(&v, None);
    let c = merge_crate(&v, Some(c));
    assert_eq!(c.versions, vec!["1.0.0".to_string()]);
}

#[test]
fn crate_versions_stay_ascending() {
    let mut c: Option<Crate> = None;
    for v in ["1.2.0", "0.1.0", "1.10.0", "0.1.0", "1.2.0", "0.9.1"] {
        c = Some(merge_crate(&version("serde", v), c));
    }
    assert_eq!(c.unwrap().versions, vec!["0.1.0", "0.9.1", "1.10.0", "1.2.0"]);
}

#[test]
fn crate_insert_version_in_place() {
    let mut c = Crate::from_version(&version("x", "b"));
    c.insert_version("a");
    c.insert_version("c");
    c.insert_version("b");
    assert_eq!(c.versions, vec!["a", "b", "c"]);
}

#[test]
fn string_order_is_lexicographic() {
    assert!(str_lt("a", "b"));
    assert!(str_lt("ab", "abc"));
    assert!(!str_lt("abc", "ab"));
    assert!(!str_lt("a", "a"));
    assert!(str_lt("", "a"));
    assert!(str_lt("1.10.0", "1.2.0"));
}

#[test]
fn context_adds_per_field() {
    let a = Context { counts: Counts { crate_versions: 3, crates: 1 }, durations: Durations { fetch_crate_versions: 100 } };
    let b = Context { counts: Counts { crate_versions: 4, crates: 2 }, durations: Durations { fetch_crate_versions: 50 } };
    let s = a.add(&b);
    assert_eq!(s, Context { counts: Counts { crate_versions: 7, crates: 3 }, durations: Durations { fetch_crate_versions: 150 } });
    assert_eq!(merge_context(&b, None), b);
    assert_eq!(merge_context(&b, Some(a)), s);
}

#[test]
fn task_upsert_merges_state() {
    let stored = merge_task(&task(failures(&["first"])), None);
    assert_eq!(messages(&stored.state), Some(vec!["first".to_string()]));
    let running = mark_in_progress(stored);
    assert!(matches!(&running.state, TaskState::InProgress(Some(v)) if v == &vec!["first".to_string()]));
    let after = merge_task(&task(failures(&["second"])), Some(running));
    assert_eq!(messages(&after.state), Some(vec!["first".to_string(), "second".to_string()]));
    assert_eq!(after.process, "download");
    assert_eq!(after.version, "1.0.0");
}

#[test]
fn resubmitting_complete_keeps_complete() {
    let done = merge_task(&task(TaskState::Complete), Some(task(TaskState::Complete)));
    assert!(matches!(done.state, TaskState::Complete));
    assert_eq!(done.process, "download");
}

#[test]
fn update_applies_function_to_default() {
    let r = apply_update(None, 10u64, |x| x + 1);
    assert_eq!(r, 11);
    let r = apply_update(Some(4u64), 10u64, |x| x * 2);
    assert_eq!(r, 8);
}

#[test]
fn task_owned_from_task() {
    let t = task(TaskState::Complete);
    let o = TaskOwned::from(t);
    assert_eq!(o.process, "download");
    assert_eq!(o.stored_at, Timestamp { millis: 5 });
    assert!(matches!(TaskResult::default(), TaskResult::Unset));
}

#[test]
fn keys_are_colon_separated() {
    let mut k = String::from("left over");
    write_entity_key("serde", "1.0.0", &mut k);
    assert_eq!(k, "serde:1.0.0");
    write_task_key("serde", "1.0.0", "download", "1.0.0", &mut k);
    assert_eq!(k, "serde:1.0.0:download:1.0.0");
    assert_eq!(report_key("a", "1", "waste", "1.0.0"), "a:1:waste:1.0.0");
    let t = task(TaskState::NotStarted);
    t.fq_key("a", "2", &mut k);
    assert_eq!(k, "a:2:download:1.0.0");
    let r = TaskResult::Download { kind: "crate".into(), url: String::new(), content_length: 0, content_type: None };
    r.fq_key("a", "2", &t, &mut k);
    assert_eq!(k, "a:2:download:1.0.0:Download");
    version("x", "0.3.1").key_buf(&mut k);
    assert_eq!(k, "x:0.3.1");
}

#[test]
fn decimal_rendering() {
    assert_eq!(decimal(0), "0");
    assert_eq!(decimal(7), "7");
    assert_eq!(decimal(1234567890), "1234567890");
    assert_eq!(decimal(u64::MAX), u64::MAX.to_string());
}
