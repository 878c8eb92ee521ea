use kannaka_tui::action::{Action, Answer, Job};
use kannaka_tui::cosmos::{read_cosmos, Cosmos, CosmosReport};
use kannaka_tui::log::{Log, MESSAGES_CAP};
use kannaka_tui::reports::{
    message, observe_report, status_report, Capture, CmdResult, Role,
};

/// One word or two for each action, in order.
fn acts(out: &[Action]) -> Vec<String> {
    out.iter()
        .map(|a| match a {
            Action::SpawnAgent { mode, model, turn } => format!("spawn agent {mode}/{model}: {turn}"),
            Action::SendAgent(l) => format!("agent< {l}"),
            Action::KillAgent => "kill agent".to_string(),
            Action::SpawnBus => "spawn bus".to_string(),
            Action::KillBus => "kill bus".to_string(),
            Action::Run(j) => format!("run {} ({}s)", j.args().join(" "), j.secs()),
            Action::LoadCosmos => "load cosmos".to_string(),
            Action::SpawnChat => "spawn chat".to_string(),
            Action::SendChat(l) => format!("chat< {l}"),
            Action::ProbePlugin { binary, prompt } => format!("probe {binary}: {prompt}"),
            Action::RunPlugin { binary, prompt } => format!("plugin {binary}: {prompt}"),
        })
        .collect()
}

const SECOND: u64 = 1_000_000_000;

fn t(x: &str) -> String {
    x.to_string()
}

fn ok(stdout: &str) -> Capture {
    Capture::Exit { success: true, stdout: t(stdout), stderr: String::new() }
}

fn result(words: &str, refresh_observe: bool) -> CmdResult {
    CmdResult { messages: vec![message(Role::Result, words)], refresh_observe }
}

fn written(l: &Log) -> Vec<(Role, &str)> {
    l.messages.iter().skip(1).map(|m| (m.role, m.content.as_str())).collect()
}

#[test]
fn the_log_welcomes() {
    let l = Log::new("Ann");
    assert_eq!(
        l.messages[0].content,
        "Welcome to Kannaka TUI. Agent: Ann. Type a command or press F1 for help."
    );
    assert!(matches!(l.messages[0].role, Role::System));
}

#[test]
fn figures_are_asked_for_once() {
    let mut l = Log::new("a");
    let mut out = Vec::new();
    assert!(l.is_due(0));
    l.refresh(7 * SECOND, &mut out);
    assert_eq!(acts(&out), vec!["run status --envelope (60s)", "run observe --json (60s)"]);
    assert!(!l.is_due(12 * SECOND));
    assert!(l.is_due(12 * SECOND + 1));
    l.refresh(12 * SECOND + 1, &mut out);
    assert_eq!(out.len(), 2);
    assert_eq!(l.last_status_poll, Some(7 * SECOND));
    l.poll_status(Answer::Got(status_report(ok(r#"{"phi":0.5,"total_memories":3}"#))));
    assert_eq!(l.status.as_ref().unwrap().memories, 3);
    assert_eq!(l.status.as_ref().unwrap().links, 0);
    l.poll_observe(Answer::Got(observe_report(ok(
        r#"{"topology":{"total_links":8},"waves":{"strongest":[{"content_preview":"x","amplitude":1}]}}"#,
    ))));
    assert_eq!(l.status.as_ref().unwrap().links, 8);
    assert_eq!(l.memories[0].content, "x");
    l.refresh(13 * SECOND, &mut out);
    assert_eq!(out.len(), 4);
    l.poll_status(Answer::Waiting);
    assert!(l.status_pending);
    l.poll_status(Answer::Got(Err(t("status failed: x"))));
    assert_eq!(written(&l), vec![(Role::Error, "status failed: x")]);
    assert!(!l.status_pending && l.status.is_some());
    l.poll_observe(Answer::Lost);
    assert!(!l.observe_pending);
}

#[test]
fn one_memory_command_runs_at_a_time() {
    let mut l = Log::new("a");
    let mut out = Vec::new();
    l.execute_memory("recall \"x\"", Job::Recall(t("x")), &mut out);
    l.execute_memory("remember \"y\"", Job::Remember(t("y")), &mut out);
    assert_eq!(acts(&out), vec!["run recall x --top-k 5 (60s)"]);
    assert_eq!(
        written(&l),
        vec![
            (Role::User, "recall \"x\""),
            (Role::User, "remember \"y\""),
            (Role::System, "A memory command is already running \u{2014} wait for it to finish."),
        ]
    );
    out.clear();
    l.poll_cmd(Answer::Got(result("found", true)), &mut out);
    assert_eq!(acts(&out), vec!["run observe --json (60s)"]);
    assert!(!l.cmd_pending);
    assert_eq!(written(&l)[3], (Role::Result, "found"));
    l.execute_memory("forget \"z\"", Job::Forget(t("z")), &mut out);
    l.poll_cmd(Answer::Lost, &mut out);
    assert!(!l.cmd_pending);
    assert_eq!(acts(&out)[1..], ["run forget z (60s)"]);
}

#[test]
fn a_report_replaces_the_running_line() {
    let mut l = Log::new("a");
    let mut out = Vec::new();
    l.execute_passthrough("stats", vec![t("stats")], 30, &mut out);
    assert_eq!(acts(&out), vec!["run stats (30s)"]);
    assert_eq!(written(&l)[1], (Role::System, "Running... (up to 30s)"));
    l.execute_passthrough("cmf", vec![t("cmf")], 60, &mut out);
    assert_eq!(out.len(), 1);
    assert_eq!(
        written(&l)[3],
        (Role::System, "Another command is already running \u{2014} wait for it to finish.")
    );
    l.messages.truncate(3);
    l.poll_passthrough(Answer::Got(result("42", false)), &mut out);
    assert_eq!(written(&l), vec![(Role::User, "stats"), (Role::Result, "42")]);
    assert_eq!(out.len(), 1);
    // A line that came in between is left alone.
    l.execute_passthrough("stats", vec![t("stats")], 30, &mut out);
    l.say(Role::System, "0 results (1ms):");
    l.poll_passthrough(Answer::Got(result("43", true)), &mut out);
    assert_eq!(written(&l).len(), 6);
    assert_eq!(written(&l)[5], (Role::Result, "43"));
    assert_eq!(acts(&out)[2..], ["run observe --json (60s)"]);
}

#[test]
fn the_log_is_bounded() {
    let mut l = Log::new("a");
    for i in 0..MESSAGES_CAP + 2 {
        l.say(Role::User, &i.to_string());
    }
    assert_eq!(l.messages.len(), 1000);
    assert_eq!(l.messages[0].content, "2");
    l.push_message(message(Role::Error, "e"));
    assert_eq!(l.messages[0].content, "3");
    // At a full log the line that says a command runs has pushed two out.
    let mut out = Vec::new();
    l.execute_passthrough("stats", vec![t("stats")], 30, &mut out);
    l.poll_passthrough(Answer::Got(result("42", false)), &mut out);
    assert_eq!(l.messages.len(), 1000);
    assert_eq!(l.messages[0].content, "5");
}

#[test]
fn one_source_is_enough() {
    let apps = "  \u{2713} Radio https://r.example\n";
    match read_cosmos(Some(t(apps)), None) {
        CosmosReport::Found { apps, radio } => {
            assert_eq!(apps[0].name, "Radio");
            assert!(radio.is_empty());
        }
        _ => panic!("expected a report"),
    }
    assert!(matches!(read_cosmos(None, Some(t("now\n"))), CosmosReport::Found { .. }));
    match read_cosmos(Some(t("header\n")), Some(t(" \n"))) {
        CosmosReport::Nothing(words) => assert_eq!(
            words,
            "could not reach the constellation (constellation/radio returned nothing)"
        ),
        _ => panic!("expected nothing"),
    }
}

#[test]
fn the_constellation_is_polled_now_and_then() {
    let mut c = Cosmos::new();
    let mut out = Vec::new();
    c.load_cosmos(5, &mut out);
    c.load_cosmos(6, &mut out);
    assert_eq!(acts(&out), vec!["load cosmos"]);
    assert!(!c.is_due(5 + 20 * SECOND));
    assert!(c.is_due(6 + 20 * SECOND));
    c.poll_cosmos(Answer::Waiting);
    assert!(c.pending);
    c.poll_cosmos(Answer::Got(CosmosReport::Nothing(t("no"))));
    assert_eq!(c.error.as_deref(), Some("no"));
    c.load_cosmos(7, &mut out);
    c.poll_cosmos(Answer::Got(read_cosmos(Some(t("\u{2717} A\n")), None)));
    assert!(c.error.is_none() && !c.pending);
    assert_eq!(c.apps.len(), 1);
    c.load_cosmos(8, &mut out);
    c.poll_cosmos(Answer::Lost);
    assert!(!c.pending && c.apps.len() == 1);
}
