use kannaka_tui::action::Action;
use kannaka_tui::agent::AgentEvent;
use kannaka_tui::harness::{
    agent_args, AgentLine, Decision, Harness, HarnessStatus, PendingApproval, SpawnOutcome,
    HARNESS_LINES_CAP,
};

/// One word or two for each action, in order.
fn acts(out: &[Action]) -> Vec<String> {
    out.iter()
        .map(|a| match a {
            Action::SpawnAgent { mode, model, turn } => format!("spawn agent {mode}/{model}: {turn}"),
            Action::SendAgent(l) => format!("agent< {l}"),
            Action::KillAgent => "kill agent".to_string(),
            Action::SpawnBus => "spawn bus".to_string(),
            Action::KillBus => "kill bus".to_string(),
            Action::Run(j) => format!("run {} ({}s)", j.args().join(" "), j.secs()),
            Action::LoadCosmos => "load cosmos".to_string(),
            Action::SpawnChat => "spawn chat".to_string(),
            Action::SendChat(l) => format!("chat< {l}"),
            Action::ProbePlugin { binary, prompt } => format!("probe {binary}: {prompt}"),
            Action::RunPlugin { binary, prompt } => format!("plugin {binary}: {prompt}"),
        })
        .collect()
}

fn t(x: &str) -> String {
    x.to_string()
}

fn notice(l: &AgentLine) -> &str {
    match l {
        AgentLine::Notice(t) => t,
        _ => panic!("expected a notice"),
    }
}

fn last_notice(h: &Harness) -> &str {
    notice(h.lines.last().unwrap())
}

fn up() -> Harness {
    let mut h = Harness::new();
    let mut out = Vec::new();
    h.harness_spawned(t("/w"), SpawnOutcome::Up { stdin: true }, t("go"), &mut out);
    h
}

fn request(id: &str) -> AgentEvent {
    AgentEvent::ApprovalRequired { id: t(id), name: t("bash"), summary: t("rm x"), danger: true }
}

#[test]
fn the_agent_is_started_with_the_first_task() {
    let mut h = Harness::new();
    assert_eq!(h.status, HarnessStatus::Off);
    assert_eq!(
        last_notice(&h),
        "Kannaka Agent \u{2014} a coding agent over the constellation. Type a task and press Enter to start. Filesystem/shell changes ask for your approval."
    );
    let mut out = Vec::new();
    h.harness_user_turn(t("fix \"it\""), &mut out);
    assert_eq!(acts(&out), vec!["spawn agent default/: fix \"it\""]);
    out.clear();
    h.harness_spawned(t("/w"), SpawnOutcome::Up { stdin: true }, t("fix \"it\""), &mut out);
    assert_eq!(acts(&out), vec![r#"agent< {"text":"fix \"it\"","type":"user"}"#]);
    assert!(matches!(h.lines.last(), Some(AgentLine::User(x)) if x == "fix \"it\""));
    assert_eq!(h.status, HarnessStatus::Thinking);
    assert!(h.busy());
    assert_eq!(h.cwd, "/w");
    // The agent is up: the next task goes straight to it.
    h.apply_agent_event(AgentEvent::Done(t("end_turn")));
    out.clear();
    h.harness_user_turn(t("more"), &mut out);
    assert_eq!(acts(&out), vec![r#"agent< {"text":"more","type":"user"}"#]);
}

#[test]
fn an_agent_that_cannot_start_says_so() {
    let mut h = Harness::new();
    let mut out = Vec::new();
    h.harness_spawned(t("/w"), SpawnOutcome::Failed(t("not found")), t("go"), &mut out);
    assert!(out.is_empty());
    let n = h.lines.len();
    assert_eq!(
        notice(&h.lines[n - 2]),
        "[could not start 'kannaka agent': not found \u{2014} is the kannaka binary on PATH?]"
    );
    assert!(matches!(&h.lines[n - 1], AgentLine::User(x) if x == "go"));
    assert_eq!(h.status, HarnessStatus::Thinking);
    assert!(!h.child);
    // Without an output pipe there is no agent, but its input may be open.
    let mut h = Harness::new();
    h.harness_spawned(t("/w"), SpawnOutcome::NoOutput { stdin: true }, t("go"), &mut out);
    assert!(!h.child && h.stdin);
    assert_eq!(acts(&out), vec![r#"agent< {"text":"go","type":"user"}"#]);
}

#[test]
fn the_agent_is_run_in_a_mode_and_with_a_model() {
    assert_eq!(agent_args("/w", "plan", ""), vec!["agent", "--json", "--cwd", "/w", "--mode", "plan"]);
    assert_eq!(
        agent_args("/w", "plan", "m"),
        vec!["agent", "--json", "--cwd", "/w", "--mode", "plan", "--model", "m"]
    );
}

#[test]
fn a_request_is_answered_once() {
    let mut h = up();
    let mut out = Vec::new();
    h.apply_agent_event(request("r1"));
    assert_eq!(h.status, HarnessStatus::AwaitingApproval);
    assert!(!h.busy());
    h.resolve_approval(Decision::Deny, &mut out);
    assert_eq!(acts(&out), vec![r#"agent< {"decision":"deny","id":"r1","type":"approval"}"#]);
    assert_eq!(last_notice(&h), "[denied: bash rm x]");
    assert_eq!(h.status, HarnessStatus::Thinking);
    let lines = h.lines.len();
    out.clear();
    h.resolve_approval(Decision::Allow, &mut out);
    assert!(out.is_empty());
    assert_eq!(h.lines.len(), lines);
}

#[test]
fn each_decision_has_its_word() {
    for (d, word, verb) in [
        (Decision::Allow, "allow", "allowed"),
        (Decision::AllowAlways, "allow_always", "allowed (always)"),
        (Decision::Deny, "deny", "denied"),
    ] {
        let mut h = up();
        let mut out = Vec::new();
        h.apply_agent_event(request("r2"));
        h.resolve_approval(d, &mut out);
        assert_eq!(
            acts(&out),
            vec![format!("agent< {{\"decision\":\"{word}\",\"id\":\"r2\",\"type\":\"approval\"}}")]
        );
        assert_eq!(last_notice(&h), format!("[{verb}: bash rm x]"));
    }
}

#[test]
fn a_result_fills_the_last_call_with_its_id() {
    let mut h = up();
    let call = |s: &str, read_only: bool| AgentEvent::ToolUse {
        id: t("t1"),
        name: t("bash"),
        summary: t(s),
        read_only,
        danger: false,
    };
    h.apply_agent_event(call("first", false));
    h.apply_agent_event(call("second", false));
    h.apply_agent_event(AgentEvent::Text(t("between")));
    h.apply_agent_event(AgentEvent::ToolResult { id: t("t1"), content: t("out"), is_error: true });
    h.apply_agent_event(AgentEvent::ToolResult { id: t("t9"), content: t("lost"), is_error: true });
    let n = h.lines.len();
    match (&h.lines[n - 3], &h.lines[n - 2]) {
        (
            AgentLine::Tool { result: r1, awaiting: a1, .. },
            AgentLine::Tool { result: r2, awaiting: a2, is_error, .. },
        ) => {
            assert!(r1.is_none() && *a1);
            assert_eq!(r2.as_deref(), Some("out"));
            assert!(!*a2 && *is_error);
        }
        _ => panic!("expected two calls"),
    }
    h.apply_agent_event(call("third", true));
    assert!(matches!(h.lines.last(), Some(AgentLine::Tool { awaiting: false, .. })));
}

#[test]
fn the_events_of_an_agent() {
    let mut h = up();
    h.apply_agent_event(AgentEvent::Ready { model: t("m"), mode: t("plan"), cwd: t("/v") });
    assert_eq!((h.model.as_str(), h.mode.as_str(), h.cwd.as_str()), ("m", "plan", "/v"));
    assert_eq!(h.status, HarnessStatus::Ready);
    assert_eq!(last_notice(&h), "agent ready \u{b7} m \u{b7} /v");
    let n = h.lines.len();
    h.apply_agent_event(AgentEvent::Text(t(" \n")));
    assert_eq!(h.lines.len(), n);
    h.apply_agent_event(AgentEvent::Text(t(" hi ")));
    assert!(matches!(h.lines.last(), Some(AgentLine::Assistant(x)) if x == " hi "));
    h.apply_agent_event(AgentEvent::Usage { input: 3, output: 4 });
    h.apply_agent_event(AgentEvent::Usage { input: 10, output: 1 });
    assert_eq!((h.usage_in, h.usage_out), (13, 5));
    h.apply_agent_event(AgentEvent::Iteration(7));
    assert_eq!((h.iter, h.status), (7, HarnessStatus::Thinking));
    h.apply_agent_event(request("r"));
    h.apply_agent_event(AgentEvent::Iteration(8));
    assert_eq!((h.iter, h.status), (8, HarnessStatus::AwaitingApproval));
    h.apply_agent_event(AgentEvent::Error(t("bad")));
    assert_eq!(last_notice(&h), "[error: bad]");
    h.apply_agent_event(AgentEvent::Mode(t("yolo")));
    assert_eq!(h.mode, "yolo");
    assert_eq!(last_notice(&h), "[mode \u{2192} yolo]");
    h.apply_agent_event(AgentEvent::Done(t("max_tokens")));
    assert_eq!(last_notice(&h), "[turn ended: max_tokens]");
    assert_eq!(h.status, HarnessStatus::Ready);
    let n = h.lines.len();
    h.apply_agent_event(AgentEvent::Done(t("end_turn")));
    assert_eq!(h.lines.len(), n);
    h.apply_agent_event(AgentEvent::Closed(t("agent stdout closed")));
    assert_eq!(
        last_notice(&h),
        "[agent closed: agent stdout closed \u{2014} type a task to restart]"
    );
    assert_eq!(h.status, HarnessStatus::Closed);
    assert!(!h.child && !h.stdin && h.pending.is_none());
}

#[test]
fn a_stop_ends_the_agent() {
    let mut h = up();
    let mut out = Vec::new();
    h.apply_agent_event(request("r"));
    h.stop_harness(&mut out);
    assert_eq!(acts(&out), vec![r#"agent< {"type":"exit"}"#, "kill agent"]);
    assert_eq!(h.status, HarnessStatus::Off);
    assert!(!h.child && !h.stdin && h.pending.is_none());
    assert_eq!(last_notice(&h), "[stopped \u{2014} turn cancelled. Type a new task to start again.]");
    let n = h.lines.len();
    out.clear();
    h.stop_harness(&mut out);
    assert_eq!(h.lines.len(), n);
}

#[test]
fn a_mode_is_passed_on_or_kept_for_later() {
    let mut h = Harness::new();
    let mut out = Vec::new();
    h.set_harness_mode("plan", &mut out);
    assert!(out.is_empty());
    assert_eq!(last_notice(&h), "[mode set to plan \u{2014} applies when the agent starts]");
    let mut h = up();
    h.set_harness_mode("yolo", &mut out);
    assert_eq!(acts(&out), vec![r#"agent< {"mode":"yolo","type":"mode"}"#]);
    assert_eq!(h.mode, "yolo");
}

#[test]
fn clearing_and_changing_the_model_start_over() {
    let mut h = up();
    h.usage_in = 5;
    let mut out = Vec::new();
    h.clear_harness(&mut out);
    assert_eq!(h.lines.len(), 1);
    assert_eq!(last_notice(&h), "[cleared \u{2014} type a task to start a fresh agent]");
    assert_eq!((h.usage_in, h.usage_out, h.iter), (0, 0, 0));
    let mut h = up();
    h.set_harness_model("big", &mut out);
    assert_eq!(h.model, "big");
    assert!(!h.child);
    assert_eq!(last_notice(&h), "[model set to big \u{2014} type a task to start]");
}

#[test]
fn the_transcript_is_bounded() {
    let mut h = Harness::new();
    for i in 0..HARNESS_LINES_CAP + 5 {
        h.push_harness(AgentLine::Notice(i.to_string()));
    }
    assert_eq!(h.lines.len(), 2000);
    assert_eq!(notice(&h.lines[0]), "5");
    let events = (0..3).map(|i| AgentEvent::Text(i.to_string())).collect();
    h.poll_harness(events);
    assert_eq!(h.lines.len(), 2000);
    assert_eq!(notice(&h.lines[0]), "8");
}

#[test]
fn the_spinner_turns_while_the_agent_works() {
    let mut h = up();
    h.tick();
    assert_eq!(h.tick, 1);
    h.tick = usize::MAX;
    h.tick();
    assert_eq!(h.tick, 0);
    h.pending = Some(PendingApproval { id: t("1"), name: t("n"), summary: t("s"), danger: false });
    h.status = HarnessStatus::AwaitingApproval;
    h.tick();
    assert_eq!(h.tick, 0);
}
