use kannaka_tui::action::Job;
use kannaka_tui::reports::{
    capture_step, dream_report, forget_result, observe_report, passthrough_result, recall_result,
    remember_result, spawn_failure, status_report, timeout_text, Capture, CaptureStep, CmdResult,
    Role, Waited,
};

fn ok(stdout: &str) -> Capture {
    Capture::Exit { success: true, stdout: stdout.to_string(), stderr: "noise".to_string() }
}

fn bad(stderr: &str) -> Capture {
    Capture::Exit { success: false, stdout: "noise".to_string(), stderr: stderr.to_string() }
}

fn none() -> Capture {
    Capture::Failed("timeout after 60s".to_string())
}

fn only(r: &CmdResult) -> (&Role, &str) {
    assert_eq!(r.messages.len(), 1);
    (&r.messages[0].role, r.messages[0].content.as_str())
}

#[test]
fn a_status_is_read_in_either_shape() {
    let flat = r#"{"phi":0.5,"xi":0.25,"mean_order":1,"total_memories":10,"num_clusters":2,"consciousness_level":"Coherent","active_memories":7}"#;
    let s = status_report(ok(flat)).ok().unwrap();
    assert_eq!((s.memories, s.clusters, s.links, s.active), (10, 2, 0, 7));
    assert_eq!(s.level, "Coherent");
    assert_eq!(s.phi.unwrap().as_f64(), Some(0.5));
    let wrapped = format!("{{\"schema_version\":1,\"data\":{flat}}}");
    let s = status_report(ok(&wrapped)).ok().unwrap();
    assert_eq!(s.memories, 10);
    let s = status_report(ok(r#"{"total_memories":3}"#)).ok().unwrap();
    assert_eq!(s.level, "Unknown");
    assert!(s.phi.is_none());
}

#[test]
fn a_status_in_a_strange_shape_is_refused() {
    let e = status_report(ok(r#"{"x":1}"#)).err().unwrap();
    assert_eq!(
        e,
        "status schema unrecognized \u{2014} kannaka binary may be newer or older than this TUI"
    );
    let e = status_report(ok(r#"{"schema_version":1,"data":{},"phi":1}"#)).err().unwrap();
    assert!(e.starts_with("status schema unrecognized"));
    assert!(status_report(ok("nope")).err().unwrap().starts_with("status parse: "));
    assert_eq!(status_report(bad(" boom\n")).err().unwrap(), "status failed: boom");
    assert_eq!(status_report(none()).err().unwrap(), "status timeout after 60s");
}

#[test]
fn memories_are_read_with_their_links() {
    let doc = r#"{"topology":{"total_links":9},"waves":{"strongest":[{"content_preview":"a","amplitude":0.5},{}]}}"#;
    let (links, ms) = observe_report(ok(doc)).ok().unwrap();
    assert_eq!(links, 9);
    assert_eq!(ms.len(), 2);
    assert_eq!(ms[0].content, "a");
    assert_eq!(ms[1].content, "");
    assert!(ms[1].amplitude.is_none());
    let (links, ms) = observe_report(ok("{}")).ok().unwrap();
    assert_eq!((links, ms.len()), (0, 0));
    assert!(observe_report(ok("x")).err().unwrap().starts_with("observe parse: "));
    assert_eq!(observe_report(bad("b")).err().unwrap(), "observe failed: b");
    assert_eq!(observe_report(none()).err().unwrap(), "observe timeout after 60s");
}

#[test]
fn memory_commands_leave_their_lines() {
    let r = remember_result(ok(" id7\n"));
    assert!(matches!(only(&r), (Role::Result, "Stored (id: id7)")));
    assert!(r.refresh_observe);
    let r = remember_result(bad(" x "));
    assert!(matches!(only(&r), (Role::Error, "Error: x")));
    assert!(!r.refresh_observe);
    assert!(matches!(
        only(&remember_result(none())),
        (Role::Error, "Failed to run kannaka: timeout after 60s")
    ));
    let r = forget_result(ok(" gone "));
    assert!(matches!(only(&r), (Role::Result, "gone")) && r.refresh_observe);
    assert!(matches!(only(&forget_result(bad("x"))), (Role::Error, "Error: x")));
    assert!(matches!(only(&forget_result(none())), (Role::Error, "Failed: timeout after 60s")));
    let r = passthrough_result(ok("  "));
    assert!(matches!(only(&r), (Role::Result, "(no output)")) && r.refresh_observe);
    assert!(matches!(only(&passthrough_result(ok(" y "))), (Role::Result, "y")));
    assert!(matches!(only(&passthrough_result(bad("x"))), (Role::Error, "Error: x")));
    assert!(matches!(only(&passthrough_result(none())), (Role::Error, "timeout after 60s")));
}

#[test]
fn recalled_memories_are_numbered() {
    let long = "c".repeat(61);
    let doc = format!("[{{\"content\":\"{long}\",\"similarity\":0.125}},{{}}]");
    let r = recall_result(ok(&doc), "12");
    let lines: Vec<&str> = r.messages.iter().map(|m| m.content.as_str()).collect();
    let first = format!("  1. {} (0.12)", "c".repeat(60));
    assert_eq!(lines, vec!["2 results (12ms):", first.as_str(), "  2. ? (0.00)"]);
    assert!(!r.refresh_observe);
    let r = recall_result(ok("[]"), "0");
    assert!(matches!(only(&r), (Role::System, "0 results (0ms):")));
    // What is no list is shown as it came.
    assert!(matches!(only(&recall_result(ok(" {} \n"), "0")), (Role::Result, "{}")));
    assert!(matches!(only(&recall_result(bad("x"), "0")), (Role::Error, "Error: x")));
    assert!(matches!(only(&recall_result(none(), "0")), (Role::Error, "Failed: timeout after 60s")));
}

#[test]
fn a_dream_reports_what_it_printed() {
    assert_eq!(dream_report(ok(" done \n")).ok().unwrap(), "done");
    assert_eq!(dream_report(bad(" no ")).err().unwrap(), "no");
    assert_eq!(dream_report(none()).err().unwrap(), "timeout after 60s");
}

#[test]
fn a_command_is_stopped_at_its_limit() {
    assert!(matches!(capture_step(Waited::Runs, 60_000_000_000, 60), CaptureStep::Sleep));
    match capture_step(Waited::Runs, 60_000_000_001, 60) {
        CaptureStep::Kill(words) => assert_eq!(words, "timeout after 60s"),
        _ => panic!("expected Kill"),
    }
    assert!(matches!(capture_step(Waited::Runs, u64::MAX, u64::MAX), CaptureStep::Sleep));
    assert!(matches!(capture_step(Waited::Ended, u64::MAX, 0), CaptureStep::Collect));
    match capture_step(Waited::Unknown("e".to_string()), 0, 60) {
        CaptureStep::Fail(words) => assert_eq!(words, "wait failed: e"),
        _ => panic!("expected Fail"),
    }
    assert_eq!(timeout_text(5), "timeout after 5s");
    assert_eq!(spawn_failure("/k", "gone"), "spawn failed at '/k': gone");
}

#[test]
fn jobs_have_their_arguments_and_limits() {
    let t = |x: &str| x.to_string();
    assert_eq!(Job::Status.args(), vec!["status", "--envelope"]);
    assert_eq!(Job::Observe.args(), vec!["observe", "--json"]);
    assert_eq!(Job::Constellation.args(), vec!["constellation"]);
    assert_eq!(Job::Radio.args(), vec!["radio"]);
    assert_eq!(Job::Dream(t("lite")).args(), vec!["dream", "--mode", "lite"]);
    assert_eq!(Job::Remember(t("a b")).args(), vec!["remember", "a b"]);
    assert_eq!(Job::Recall(t("q")).args(), vec!["recall", "q", "--top-k", "5"]);
    assert_eq!(Job::Forget(t("7")).args(), vec!["forget", "7"]);
    let pass = Job::Pass { args: vec![t("swarm"), t("peers")], secs: 60 };
    assert_eq!(pass.args(), vec!["swarm", "peers"]);
    assert_eq!(pass.secs(), 60);
    assert_eq!(Job::Dream(t("deep")).secs(), 300);
    assert_eq!(Job::Constellation.secs(), 30);
    assert_eq!(Job::Radio.secs(), 15);
    assert_eq!(Job::Status.secs(), 60);
    assert_eq!(Job::Recall(t("q")).secs(), 60);
}
