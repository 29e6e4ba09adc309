use betterkit::job::{LaunchOutcome, Status, Transaction};
use betterkit::service::BetterKit;
use betterkit::table::JobTable;

fn strings(v: &[&str]) -> Vec<String> {
    v.iter().map(|s| s.to_string()).collect()
}

fn exited(stdout: &str, stderr: &str) -> LaunchOutcome {
    LaunchOutcome::Exited { stdout: stdout.to_string(), stderr: stderr.to_string() }
}

fn run(kit: &mut BetterKit, argv: &[&str], outcome: LaunchOutcome) -> u64 {
    let id = kit.begin_run(strings(argv)).expect("identifier available");
    assert!(kit.finish_run(id, outcome));
    id
}

#[test]
fn new_transaction_is_empty() {
    let t = Transaction::new(7, strings(&["ls", "-l"]));
    assert_eq!(t.id, 7);
    assert_eq!(t.argv, strings(&["ls", "-l"]));
    assert_eq!(t.status, Status::New);
    assert!(t.stdout.is_empty());
    assert!(t.stderr.is_empty());
}

#[test]
fn echo_succeeds_with_output() {
    let mut kit = BetterKit::new(JobTable::new());
    let id = run(&mut kit, &["echo", "hi"], exited("hi\n", ""));
    assert_eq!(id, 0);
    let t = kit.get(0).expect("job 0 exists");
    assert_eq!(t.status, Status::Succeeded);
    assert!(t.stdout.contains("hi"));
    assert_eq!(t.argv, strings(&["echo", "hi"]));
}

#[test]
fn missing_binary_fails() {
    let mut kit = BetterKit::new(JobTable::new());
    run(&mut kit, &["echo", "hi"], exited("hi\n", ""));
    let id = run(&mut kit, &["/nonexistent-binary"], LaunchOutcome::NotStarted);
    assert_eq!(id, 1);
    let t = kit.get(1).expect("job 1 exists");
    assert_eq!(t.status, Status::Failed);
    assert!(t.stdout.is_empty());
}

#[test]
fn get_unknown_is_not_found() {
    let kit = BetterKit::new(JobTable::new());
    assert!(kit.get(999).is_none());
    assert_eq!(kit.get_reply(999), "No transaction found for: 999");
}

#[test]
fn ids_increase_without_repeats() {
    let mut kit = BetterKit::new(JobTable::new());
    let mut last: Option<u64> = None;
    for n in 0..20u64 {
        let id = kit.begin_run(strings(&["true"])).unwrap();
        assert_eq!(id, n);
        if let Some(prev) = last {
            assert!(id > prev);
        }
        last = Some(id);
        if n % 2 == 0 {
            assert!(kit.finish_run(id, exited("", "")));
        }
    }
}

#[test]
fn run_then_get_keeps_argv_and_finishes() {
    let mut kit = BetterKit::new(JobTable::new());
    let argv = ["printf", "%s\n", "a b", ""];
    let id = kit.begin_run(strings(&argv)).unwrap();
    assert_eq!(kit.get(id).unwrap().status, Status::Running);
    assert_eq!(kit.get(id).unwrap().argv, strings(&argv));
    assert!(kit.finish_run(id, exited("a b\n\n", "")));
    let t = kit.get(id).unwrap();
    assert_eq!(t.argv, strings(&argv));
    assert!(t.status.is_finished());
}

#[test]
fn empty_argv_is_accepted() {
    let mut kit = BetterKit::new(JobTable::new());
    let id = kit.begin_run(Vec::new()).unwrap();
    assert!(kit.get(id).unwrap().argv.is_empty());
}

#[test]
fn status_never_moves_back() {
    let mut kit = BetterKit::new(JobTable::new());
    let id = run(&mut kit, &["true"], exited("out", "err"));
    assert!(!kit.finish_run(id, LaunchOutcome::NotStarted));
    assert_eq!(kit.get(id).unwrap().status, Status::Succeeded);
    assert_eq!(kit.get(id).unwrap().stdout, "out");
    let mut table = JobTable::new();
    let a = table.allocate(strings(&["x"])).unwrap();
    assert_eq!(table.get(a).unwrap().status, Status::New);
    assert!(!table.record_outcome(a, LaunchOutcome::NotStarted));
    assert!(table.mark_running(a));
    assert!(!table.mark_running(a));
    assert_eq!(table.get(a).unwrap().status, Status::Running);
    assert!(table.record_outcome(a, LaunchOutcome::NotStarted));
    assert_eq!(table.get(a).unwrap().status, Status::Failed);
    assert!(!table.mark_running(a));
    assert!(!table.mark_running(42));
    assert!(!table.record_outcome(42, LaunchOutcome::NotStarted));
    assert_eq!(table.next_transaction_id(), 1);
}

#[test]
fn repeated_get_is_identical() {
    let mut kit = BetterKit::new(JobTable::new());
    let id = run(&mut kit, &["echo", "hi"], exited("hi\n", "warn"));
    let first = kit.get_reply(id);
    run(&mut kit, &["other"], exited("x", "y"));
    let second = kit.get_reply(id);
    assert_eq!(first, second);
    let t = kit.get(id).unwrap();
    assert_eq!(t.stdout, "hi\n");
    assert_eq!(t.stderr, "warn");
}

#[test]
fn run_reply_text() {
    assert_eq!(BetterKit::run_reply(0), "{ \"id\": \"0\" }");
    assert_eq!(BetterKit::run_reply(1234567890), "{ \"id\": \"1234567890\" }");
    assert_eq!(BetterKit::run_reply(u64::MAX), "{ \"id\": \"18446744073709551615\" }");
}

#[test]
fn get_reply_reports_state() {
    let mut kit = BetterKit::new(JobTable::new());
    let id = run(&mut kit, &["echo", "hi"], exited("say \"hi\"\\\n\t\u{1}é", ""));
    assert_eq!(
        kit.get_reply(id),
        "{ \"id\": \"0\", \"status\": \"Succeeded\", \"stdout\": \"say \\\"hi\\\"\\\\\\n\\t\\u0001é\", \"stderr\": \"\" }"
    );
    let id = kit.begin_run(strings(&["sleep", "1"])).unwrap();
    assert_eq!(
        kit.get_reply(id),
        "{ \"id\": \"1\", \"status\": \"Running\", \"stdout\": \"\", \"stderr\": \"\" }"
    );
    assert!(kit.finish_run(id, LaunchOutcome::NotStarted));
    assert_eq!(
        kit.get_reply(id),
        "{ \"id\": \"1\", \"status\": \"Failed\", \"stdout\": \"\", \"stderr\": \"\" }"
    );
}

#[test]
fn decimal_and_escape_helpers() {
    let mut s = String::from("n=");
    betterkit::text::push_decimal(&mut s, 405);
    assert_eq!(s, "n=405");
    let mut e = String::new();
    betterkit::text::push_json_escaped(&mut e, "a\rb\u{1f}");
    assert_eq!(e, "a\\rb\\u001f");
}
