use watchf::artifact_map::ArtifactMap;
use watchf::artifacts::{artifact_path, build_result, collect_artifacts, extract_artifacts};
use watchf::classify::{should_rebuild, ChangeKind};
use watchf::coordinator::{AfterBuild, BuildError, Coordinator, Mode, Step};
use watchf::json::{array_contains_string, find_member, get_member, value_is_string, JsonValue};
use watchf::supervisor::{
    build_invocation, invocation, ChildAction, ChildState, Supervisor, SupervisorInput,
};

fn s(x: &str) -> String {
    x.to_string()
}

fn strs(xs: &[&str]) -> JsonValue {
    JsonValue::Array(xs.iter().map(|x| JsonValue::Str(s(x))).collect())
}

fn record(reason: &str, kinds: &[&str], executable: Option<&str>) -> JsonValue {
    let target = JsonValue::Object(vec![(s("name"), JsonValue::Str(s("app"))), (s("kind"), strs(kinds))]);
    let exe = match executable {
        Some(p) => JsonValue::Str(s(p)),
        None => JsonValue::Null,
    };
    JsonValue::Object(vec![
        (s("reason"), JsonValue::Str(s(reason))),
        (s("target"), target),
        (s("executable"), exe),
        (s("fresh"), JsonValue::Bool(true)),
    ])
}

fn map_of(items: &[(&str, u128)]) -> ArtifactMap {
    let mut m = ArtifactMap::new();
    for (p, t) in items {
        m.upsert(s(p), *t);
    }
    m
}

#[test]
fn member_lookup_finds_keys() {
    let members = vec![(s("a"), JsonValue::Null), (s("b"), JsonValue::Bool(false))];
    assert_eq!(find_member(&members, "b"), Some(1));
    assert_eq!(find_member(&members, "c"), None);
    let obj = JsonValue::Object(members);
    assert!(matches!(get_member(&obj, "b"), Some(JsonValue::Bool(false))));
    assert!(get_member(&JsonValue::Null, "a").is_none());
}

#[test]
fn string_tests_on_values() {
    assert!(value_is_string(&JsonValue::Str(s("bin")), "bin"));
    assert!(!value_is_string(&JsonValue::Str(s("lib")), "bin"));
    assert!(!value_is_string(&JsonValue::Number(s("1")), "1"));
    assert!(array_contains_string(&strs(&["lib", "bin"]), "bin"));
    assert!(!array_contains_string(&strs(&["lib", "rlib"]), "bin"));
    assert!(!array_contains_string(&JsonValue::Str(s("bin")), "bin"));
}

#[test]
fn artifact_path_accepts_executable_records() {
    let r = record("compiler-artifact", &["bin"], Some("/t/debug/app"));
    assert_eq!(artifact_path(&r), Some(s("/t/debug/app")));
}

#[test]
fn artifact_path_rejects_other_records() {
    assert_eq!(artifact_path(&record("build-finished", &["bin"], Some("/x"))), None);
    assert_eq!(artifact_path(&record("compiler-artifact", &["lib"], Some("/x"))), None);
    assert_eq!(artifact_path(&record("compiler-artifact", &["bin"], None)), None);
    assert_eq!(artifact_path(&record("compiler-artifact", &["bin"], Some(""))), None);
    assert_eq!(artifact_path(&JsonValue::Str(s("compiler-artifact"))), None);
}

#[test]
fn collect_keeps_order_of_qualifying_records() {
    let records = vec![
        Some(record("compiler-artifact", &["bin"], Some("/a"))),
        None,
        Some(record("compiler-artifact", &["lib"], Some("/lib"))),
        Some(record("build-script-executed", &["bin"], Some("/s"))),
        Some(record("compiler-artifact", &["bin"], Some("/b"))),
    ];
    assert_eq!(collect_artifacts(&records), vec![s("/a"), s("/b")]);
}

#[test]
fn extraction_filters_structured_output() {
    let out = [
        "{\"reason\":\"compiler-artifact\",\"target\":{\"kind\":[\"lib\"],\"name\":\"dep\"},\"executable\":null}\n",
        "not json at all\n",
        "{\"reason\":\"compiler-artifact\",\"target\":{\"kind\":[\"bin\"],\"name\":\"app\"},\"executable\":\"/t/app\",\"fresh\":false}\n",
        "{\"reason\":\"compiler-message\",\"message\":{\"rendered\":\"warning\"}}\n",
        "{\"reason\":\"compiler-artifact\",\"target\":{\"kind\":[\"bin\"],\"name\":\"tool\"},\"executable\":\"/t/tool\"}\r\n",
        "{\"reason\":\"build-finished\",\"success\":true}\n",
    ]
    .join("");
    assert_eq!(extract_artifacts(&out), vec![s("/t/app"), s("/t/tool")]);
}

#[test]
fn extraction_of_empty_output() {
    assert_eq!(extract_artifacts(""), Vec::<String>::new());
}

#[test]
fn failed_build_reports_exit_code() {
    let out = "{\"reason\":\"compiler-artifact\",\"target\":{\"kind\":[\"bin\"]},\"executable\":\"/t/app\"}";
    assert_eq!(build_result(false, Some(101), out), Err(BuildError::NonZeroExit(Some(101))));
    assert_eq!(build_result(true, Some(0), out), Ok(vec![s("/t/app")]));
}

#[test]
fn artifact_map_replaces_entries() {
    let mut m = map_of(&[("/bin/app", 5), ("/bin/tool", 7)]);
    assert_eq!(m.len(), 2);
    m.upsert(s("/bin/app"), 9);
    assert_eq!(m.len(), 2);
    assert_eq!(m.get("/bin/app"), Some(9));
    assert_eq!(m.get("/bin/tool"), Some(7));
    assert_eq!(m.get("/bin/other"), None);
    assert!(m.any_older_than(8));
    assert!(!m.any_older_than(7));
}

#[test]
fn no_rebuild_when_not_newer_than_last_rebuild() {
    let m = map_of(&[("/bin/app", 10)]);
    assert!(!should_rebuild(ChangeKind::Modify, &vec![Some(20)], &m, 20));
    assert!(!should_rebuild(ChangeKind::Modify, &vec![Some(15)], &m, 30));
}

#[test]
fn no_rebuild_when_not_newer_than_any_artifact() {
    let m = map_of(&[("/bin/app", 50), ("/bin/tool", 60)]);
    assert!(!should_rebuild(ChangeKind::Modify, &vec![Some(50)], &m, 10));
    assert!(should_rebuild(ChangeKind::Modify, &vec![Some(51)], &m, 10));
}

#[test]
fn no_rebuild_without_artifacts_or_readable_paths() {
    let empty = ArtifactMap::new();
    assert!(!should_rebuild(ChangeKind::Create, &vec![Some(100)], &empty, 0));
    let m = map_of(&[("/bin/app", 1)]);
    assert!(!should_rebuild(ChangeKind::Create, &vec![None, None], &m, 0));
    assert!(should_rebuild(ChangeKind::Create, &vec![None, Some(2)], &m, 0));
}

#[test]
fn qualifying_change_sets_pending() {
    let t0: u128 = 1_000;
    let t1: u128 = 2_000;
    let mut c = Coordinator::new(Mode::Build);
    c.begin_build(t0);
    assert_eq!(c.finish_build(Ok(vec![(s("/bin/app"), t0)])), AfterBuild::Continue);
    assert_eq!(c.last_rebuild, t0);
    assert!(!c.pending);
    c.observe(ChangeKind::Modify, &vec![Some(t1)]);
    assert!(c.pending);
    assert_eq!(c.next_step(), Step::Build);
}

#[test]
fn removal_never_triggers() {
    let m = map_of(&[("/bin/app", 10)]);
    assert!(!should_rebuild(ChangeKind::Remove, &vec![Some(99)], &m, 20));
    let mut c = Coordinator::new(Mode::Run);
    c.begin_build(20);
    c.finish_build(Ok(vec![(s("/bin/app"), 10)]));
    c.observe(ChangeKind::Remove, &vec![Some(99)]);
    assert!(!c.pending);
    c.observe(ChangeKind::Other, &vec![Some(99)]);
    assert!(c.pending);
}

#[test]
fn initial_build_before_waiting() {
    let mut c = Coordinator::new(Mode::Build);
    assert!(c.pending);
    assert_eq!(c.next_step(), Step::Build);
    c.begin_build(42);
    assert_eq!(c.last_rebuild, 42);
    assert_eq!(c.next_step(), Step::AwaitEvent);
}

#[test]
fn last_rebuild_never_moves_back() {
    let mut c = Coordinator::new(Mode::Build);
    c.begin_build(100);
    c.finish_build(Ok(vec![(s("/bin/app"), 50)]));
    c.observe(ChangeKind::Modify, &vec![Some(150)]);
    c.begin_build(90);
    assert_eq!(c.last_rebuild, 100);
}

#[test]
fn build_failure_halts_without_changes() {
    let mut c = Coordinator::new(Mode::Run);
    c.begin_build(10);
    c.finish_build(Ok(vec![(s("/bin/app"), 8)]));
    c.observe(ChangeKind::Modify, &vec![Some(20)]);
    c.begin_build(21);
    assert_eq!(c.finish_build(Err(BuildError::NonZeroExit(Some(1)))), AfterBuild::Halt);
    assert_eq!(c.artifacts.len(), 1);
    assert_eq!(c.artifacts.get("/bin/app"), Some(8));
    assert!(!c.pending);
    assert_eq!(c.finish_build(Err(BuildError::Invocation)), AfterBuild::Halt);
}

#[test]
fn restart_only_after_successful_build_in_run_mode() {
    let mut run = Coordinator::new(Mode::Run);
    run.begin_build(1);
    assert_eq!(run.finish_build(Ok(vec![(s("/bin/app"), 2), (s("/bin/app"), 3)])), AfterBuild::Restart);
    assert_eq!(run.artifacts.len(), 1);
    assert_eq!(run.artifacts.get("/bin/app"), Some(3));
    let mut build = Coordinator::new(Mode::Build);
    build.begin_build(1);
    assert_eq!(build.finish_build(Ok(vec![])), AfterBuild::Continue);
}

#[test]
fn back_to_back_changes_cause_one_build() {
    let mut c = Coordinator::new(Mode::Run);
    c.begin_build(10);
    c.finish_build(Ok(vec![(s("/bin/app"), 10)]));
    c.observe(ChangeKind::Modify, &vec![Some(11)]);
    c.observe(ChangeKind::Create, &vec![Some(12)]);
    assert_eq!(c.next_step(), Step::Build);
    c.begin_build(13);
    assert_eq!(c.next_step(), Step::AwaitEvent);
    c.observe(ChangeKind::Modify, &vec![Some(12)]);
    assert_eq!(c.next_step(), Step::AwaitEvent);
}

#[test]
fn supervisor_restarts_after_reaping() {
    let mut sup = Supervisor::new();
    assert_eq!(sup.handle(SupervisorInput::Restart), ChildAction::Idle);
    assert_eq!(sup.handle(SupervisorInput::Start), ChildAction::Spawn);
    assert_eq!(sup.state, ChildState::Running);
    assert_eq!(sup.handle(SupervisorInput::Restart), ChildAction::TerminateAndWait);
    assert_eq!(sup.state, ChildState::Restarting);
    assert_eq!(sup.handle(SupervisorInput::Restart), ChildAction::Idle);
    assert_eq!(sup.handle(SupervisorInput::Reaped), ChildAction::Spawn);
    assert_eq!(sup.state, ChildState::Running);
}

#[test]
fn command_lines_split_into_program_and_args() {
    let cmd = vec![s("cargo"), s("build"), s("--release")];
    let inv = invocation(&cmd).unwrap();
    assert_eq!(inv.program, "cargo");
    assert_eq!(inv.args, vec![s("build"), s("--release")]);
    let b = build_invocation(&cmd).unwrap();
    assert_eq!(b.program, "cargo");
    assert_eq!(b.args, vec![s("build"), s("--release"), s("--message-format"), s("json")]);
    assert!(invocation(&vec![]).is_none());
    assert!(build_invocation(&vec![]).is_none());
}
