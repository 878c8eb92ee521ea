use kannaka_tui::action::{Action, Answer};
use kannaka_tui::bus::{Bus, BusSpawn, BusStatus, DreamRun};
use kannaka_tui::payload::{read_bus_line, BusFrame};

/// One word or two for each action, in order.
fn acts(out: &[Action]) -> Vec<String> {
    out.iter()
        .map(|a| match a {
            Action::SpawnAgent { mode, model, turn } => format!("spawn agent {mode}/{model}: {turn}"),
            Action::SendAgent(l) => format!("agent< {l}"),
            Action::KillAgent => "kill agent".to_string(),
            Action::SpawnBus => "spawn bus".to_string(),
            Action::KillBus => "kill bus".to_string(),
            Action::Run(j) => format!("run {} ({}s)", j.args().join(" "), j.secs()),
            Action::LoadCosmos => "load cosmos".to_string(),
            Action::SpawnChat => "spawn chat".to_string(),
            Action::SendChat(l) => format!("chat< {l}"),
            Action::ProbePlugin { binary, prompt } => format!("probe {binary}: {prompt}"),
            Action::RunPlugin { binary, prompt } => format!("plugin {binary}: {prompt}"),
        })
        .collect()
}

const SECOND: u64 = 1_000_000_000;

fn frame(line: &str, now: u64) -> BusFrame {
    read_bus_line(line, now).unwrap()
}

fn phase(id: &str, now: u64) -> BusFrame {
    frame(&format!("{{\"subject\":\"QUEEN.phase.{id}\",\"payload\":{{\"memory_count\":{now}}}}}"), now)
}

fn on() -> Bus {
    let mut b = Bus::new();
    let mut out = Vec::new();
    b.start_bus(&mut out);
    b.bus_spawned(BusSpawn::Up);
    b
}

#[test]
fn the_bus_is_started_once() {
    let mut b = Bus::new();
    assert_eq!(b.status, BusStatus::Off);
    let mut out = Vec::new();
    b.start_bus(&mut out);
    assert_eq!(acts(&out), vec!["spawn bus"]);
    assert_eq!(b.status, BusStatus::Connecting);
    b.bus_spawned(BusSpawn::Up);
    b.start_bus(&mut out);
    assert_eq!(out.len(), 1);
    b.poll_bus(vec![frame(r#"{"subject":"X","payload":"hi"}"#, 0)], false, 0);
    assert_eq!(b.status, BusStatus::Streaming);
    assert_eq!(b.lines[0].summary, "hi");
}

#[test]
fn a_bus_that_cannot_start_has_failed() {
    let mut b = Bus::new();
    let mut out = Vec::new();
    b.start_bus(&mut out);
    b.bus_spawned(BusSpawn::Failed { error: "gone".to_string(), ts_ms: 9 });
    assert_eq!(b.status, BusStatus::Failed);
    assert_eq!(b.lines[0].subject, "tui.error");
    assert_eq!(b.lines[0].ts_ms, 9);
    assert_eq!(b.lines[0].summary, "could not spawn 'kannaka swarm tail': gone");
    let mut b = Bus::new();
    b.start_bus(&mut out);
    b.bus_spawned(BusSpawn::NoOutput);
    assert_eq!(b.status, BusStatus::Failed);
    assert!(!b.child && b.lines.is_empty());
}

#[test]
fn a_stream_that_ends_can_be_restarted() {
    let mut b = on();
    b.poll_bus(vec![frame("{}", 0)], true, 0);
    assert_eq!(b.status, BusStatus::Failed);
    assert!(b.child);
    let mut out = Vec::new();
    b.restart_bus(&mut out);
    assert_eq!(acts(&out), vec!["kill bus", "spawn bus"]);
    assert_eq!(b.status, BusStatus::Connecting);
}

#[test]
fn the_backlog_is_bounded() {
    let mut b = on();
    let frames = (0..503).map(|i| frame(&format!("{{\"ts\":{i}}}"), 0)).collect();
    b.poll_bus(frames, false, 0);
    assert_eq!(b.lines.len(), 500);
    assert_eq!(b.lines[0].ts_ms, 3);
    assert_eq!(b.lines[0].subject, "?");
    b.bus_spawned(BusSpawn::Failed { error: "e".to_string(), ts_ms: 1 });
    assert_eq!(b.lines.len(), 500);
    let dreams = (0..33)
        .map(|i| frame(&format!("{{\"ts\":{i},\"subject\":\"KANNAKA.dreams\",\"payload\":{{}}}}"), 0))
        .collect();
    b.poll_bus(dreams, false, 0);
    assert_eq!(b.dreams.len(), 30);
    assert_eq!(b.dreams[0].ts_ms, 32);
    assert_eq!(b.dreams[29].ts_ms, 3);
}

#[test]
fn news_replaces_one_agent() {
    let mut b = on();
    b.poll_bus(vec![phase("b", 1), phase("a", 2), phase("c", 3), phase("b", 4)], false, 5);
    let ids: Vec<&str> = b.agents.iter().map(|a| a.agent_id.as_str()).collect();
    assert_eq!(ids, vec!["a", "b", "c"]);
    assert_eq!(b.agents[1].memory_count, 4);
    assert_eq!(b.agents[1].last_seen, 4);
    assert_eq!(b.agents[0].memory_count, 2);
}

#[test]
fn only_silent_agents_are_dropped() {
    let mut b = on();
    b.poll_bus(vec![phase("old", 0), phase("new", SECOND)], false, SECOND);
    b.poll_bus(Vec::new(), false, 1200 * SECOND - 1);
    assert_eq!(b.agents.len(), 2);
    b.poll_bus(Vec::new(), false, 1200 * SECOND);
    assert_eq!(b.agents.len(), 1);
    assert_eq!(b.agents[0].agent_id, "new");
}

#[test]
fn one_dream_runs_at_a_time() {
    let mut b = Bus::new();
    let mut out = Vec::new();
    b.start_dream("lite", 5, &mut out);
    assert_eq!(acts(&out), vec!["run dream --mode lite (300s)"]);
    b.start_dream("deep", 6, &mut out);
    assert_eq!(out.len(), 1);
    b.poll_dream(Answer::Waiting, 7);
    assert!(matches!(&b.dream_run, DreamRun::Running { mode, started: 5 } if mode == "lite"));
    b.poll_dream(Answer::Got(Ok("done".to_string())), 12);
    assert!(matches!(
        &b.dream_run,
        DreamRun::Done { mode, took: 7, summary } if mode == "lite" && summary == "done"
    ));
    b.start_dream("deep", 20, &mut out);
    b.poll_dream(Answer::Got(Err("bad".to_string())), 30);
    assert!(matches!(
        &b.dream_run,
        DreamRun::Failed { mode, error } if mode == "deep" && error == "bad"
    ));
    b.start_dream("deep", 40, &mut out);
    b.poll_dream(Answer::Lost, 50);
    assert!(!b.dream_pending);
    assert!(matches!(&b.dream_run, DreamRun::Running { .. }));
    assert_eq!(out.len(), 3);
}
