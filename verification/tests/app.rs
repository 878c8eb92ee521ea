use kannaka_tui::action::{Action, Answer};
use kannaka_tui::agent::AgentEvent;
use kannaka_tui::app::{App, Tab, TABS};
use kannaka_tui::bus::{BusSpawn, BusStatus, DreamRun};
use kannaka_tui::chat::{ChatEvent, ChatWho};
use kannaka_tui::harness::{AgentLine, HarnessStatus, SpawnOutcome};
use kannaka_tui::keys::{burst_of, Key, KeyPress, Mods};
use kannaka_tui::prompts::{QOS_BOOT_GRAPHICAL_PROMPT, QOS_BOOT_PROMPT};
use kannaka_tui::reports::Role;

/// One word or two for each action, in order.
fn acts(out: &[Action]) -> Vec<String> {
    out.iter()
        .map(|a| match a {
            Action::SpawnAgent { mode, model, turn } => format!("spawn agent {mode}/{model}: {turn}"),
            Action::SendAgent(l) => format!("agent< {l}"),
            Action::KillAgent => "kill agent".to_string(),
            Action::SpawnBus => "spawn bus".to_string(),
            Action::KillBus => "kill bus".to_string(),
            Action::Run(j) => format!("run {} ({}s)", j.args().join(" "), j.secs()),
            Action::LoadCosmos => "load cosmos".to_string(),
            Action::SpawnChat => "spawn chat".to_string(),
            Action::SendChat(l) => format!("chat< {l}"),
            Action::ProbePlugin { binary, prompt } => format!("probe {binary}: {prompt}"),
            Action::RunPlugin { binary, prompt } => format!("plugin {binary}: {prompt}"),
        })
        .collect()
}

const SECOND: u64 = 1_000_000_000;

fn t(x: &str) -> String {
    x.to_string()
}

fn app(tab: Tab) -> App {
    let mut a = App::new(t("Ann"));
    a.tab = tab;
    a
}

fn key(key: Key) -> KeyPress {
    KeyPress { mods: Mods::Plain, key }
}

fn press(a: &mut App, k: Key) -> Vec<String> {
    let mut out = Vec::new();
    a.handle_key(key(k), SECOND, &mut out);
    acts(&out)
}

fn write(a: &mut App, line: &str) {
    for c in line.chars() {
        assert!(press(a, Key::Char(c)).is_empty());
    }
    assert_eq!(a.bar.input, line);
}

/// Types a line and sends it.
fn enter(a: &mut App, line: &str) -> Vec<String> {
    a.bar.input = t(line);
    a.bar.cursor = line.chars().count();
    press(a, Key::Enter)
}

fn notice(a: &App) -> &str {
    match a.harness.lines.last() {
        Some(AgentLine::Notice(x)) => x,
        _ => panic!("expected a notice"),
    }
}

fn working(a: &mut App) {
    let mut out = Vec::new();
    a.harness_spawned(t("/w"), SpawnOutcome::Up { stdin: true }, t("go"), &mut out);
}

fn request(a: &mut App) {
    working(a);
    a.poll_harness(vec![AgentEvent::ApprovalRequired {
        id: t("r"),
        name: t("bash"),
        summary: t("ls"),
        danger: false,
    }]);
}

fn last(a: &App) -> (Role, &str) {
    let m = a.log.messages.last().unwrap();
    (m.role, m.content.as_str())
}

#[test]
fn it_opens_on_the_agent() {
    let a = App::new(t("Ann"));
    assert_eq!(a.tab, Tab::Agent);
    assert_eq!(a.agent_name, "Ann");
    assert!(!a.should_quit && !a.show_help);
}

#[test]
fn the_tabs_go_round() {
    assert_eq!(TABS, 8);
    for i in 0..TABS {
        let tab = Tab::at(i);
        assert_eq!(tab.index(), i);
        assert_eq!(tab.next().prev(), tab);
        assert_eq!(tab.next().index(), (i + 1) % 8);
    }
    let mut a = app(Tab::Agent);
    press(&mut a, Key::Tab);
    assert_eq!(a.tab, Tab::Memory);
    press(&mut a, Key::BackTab);
    assert_eq!(a.tab, Tab::Agent);
    let mut out = Vec::new();
    a.handle_key(KeyPress { mods: Mods::Shift, key: Key::BackTab }, 0, &mut out);
    assert_eq!(a.tab, Tab::Cosmos);
    a.handle_key(KeyPress { mods: Mods::Shift, key: Key::Tab }, 0, &mut out);
    assert_eq!(a.tab, Tab::Cosmos);
}

#[test]
fn entering_a_tab_starts_what_it_shows() {
    let mut a = app(Tab::Memory);
    a.scroll = 9;
    assert_eq!(
        press(&mut a, Key::Tab),
        vec!["run status --envelope (60s)", "run observe --json (60s)"]
    );
    assert_eq!((a.tab, a.scroll), (Tab::Status, 0));
    assert_eq!(press(&mut a, Key::Tab), vec!["spawn bus"]);
    a.bus_spawned(BusSpawn::Up);
    assert!(press(&mut a, Key::Tab).is_empty());
    assert!(press(&mut a, Key::Tab).is_empty());
    assert!(press(&mut a, Key::Tab).is_empty());
    assert_eq!(a.tab, Tab::Chat);
    assert_eq!(press(&mut a, Key::Tab), vec!["load cosmos"]);
    a.poll_cosmos(Answer::Lost);
    press(&mut a, Key::Tab);
    // Not again within the interval.
    assert!(press(&mut a, Key::BackTab).is_empty());
}

#[test]
fn any_key_closes_the_help() {
    let mut a = app(Tab::Memory);
    press(&mut a, Key::F(1));
    assert!(a.show_help);
    press(&mut a, Key::Char('q'));
    assert!(!a.show_help && !a.should_quit);
    assert!(a.bar.input.is_empty());
}

#[test]
fn it_is_quit_only_when_asked() {
    for k in [Key::Char('q'), Key::Char('Q'), Key::Esc] {
        let mut a = app(Tab::Memory);
        press(&mut a, k);
        assert!(a.should_quit);
    }
    let mut a = app(Tab::Memory);
    write(&mut a, "hello");
    press(&mut a, Key::Char('q'));
    press(&mut a, Key::Esc);
    assert!(!a.should_quit);
    assert_eq!(a.bar.input, "helloq");
    let mut out = Vec::new();
    a.handle_key(KeyPress { mods: Mods::Control, key: Key::Char('c') }, 0, &mut out);
    assert!(a.should_quit);
    for (tab, line) in [(Tab::Memory, "/quit"), (Tab::Agent, "/exit"), (Tab::Bus, "q ")] {
        let mut a = app(tab);
        enter(&mut a, line);
        assert!(a.should_quit, "{line}");
    }
}

#[test]
fn arrows_walk_the_history() {
    let mut a = app(Tab::Agent);
    a.bar.history = vec![t("a"), t("b")];
    press(&mut a, Key::Up);
    assert_eq!((a.bar.input.as_str(), a.bar.cursor), ("b", 1));
    assert_eq!(a.bar.history_idx, Some(1));
    press(&mut a, Key::Up);
    press(&mut a, Key::Up);
    assert_eq!((a.bar.input.as_str(), a.bar.history_idx), ("a", Some(0)));
    press(&mut a, Key::Down);
    assert_eq!(a.bar.input, "b");
    press(&mut a, Key::Down);
    assert!(a.bar.input.is_empty() && a.bar.history_idx.is_none());
    press(&mut a, Key::Down);
    assert!(a.bar.input.is_empty());
    assert_eq!(a.scroll, 0);
    let mut a = app(Tab::Memory);
    press(&mut a, Key::Up);
    assert!(a.bar.input.is_empty());
    enter(&mut a, "stats");
    write(&mut a, "x");
    press(&mut a, Key::Up);
    assert_eq!(a.bar.input, "stats");
}

#[test]
fn page_keys_scroll() {
    let mut a = app(Tab::Memory);
    press(&mut a, Key::PageUp);
    press(&mut a, Key::PageUp);
    assert_eq!(a.scroll, 10);
    press(&mut a, Key::PageDown);
    assert_eq!(a.scroll, 5);
    press(&mut a, Key::PageDown);
    press(&mut a, Key::PageDown);
    assert_eq!(a.scroll, 0);
    a.scroll = usize::MAX;
    press(&mut a, Key::PageUp);
    assert_eq!(a.scroll, usize::MAX);
}

#[test]
fn the_bar_is_edited_by_keys() {
    let mut a = app(Tab::Memory);
    write(&mut a, "ac");
    press(&mut a, Key::Left);
    press(&mut a, Key::Char('b'));
    press(&mut a, Key::Home);
    press(&mut a, Key::Delete);
    press(&mut a, Key::End);
    press(&mut a, Key::Backspace);
    press(&mut a, Key::Left);
    press(&mut a, Key::Right);
    assert_eq!((a.bar.input.as_str(), a.bar.cursor), ("b", 1));
}

#[test]
fn dreams_are_started_by_a_key() {
    let mut a = app(Tab::Dreams);
    assert_eq!(press(&mut a, Key::Char('l')), vec!["run dream --mode lite (300s)"]);
    assert!(press(&mut a, Key::Char('d')).is_empty());
    let mut out = Vec::new();
    a.poll_bus(Vec::new(), false, Answer::Got(Ok(t("ok"))), 3 * SECOND, &mut out);
    assert!(matches!(&a.bus.dream_run, DreamRun::Done { took, .. } if *took == 2 * SECOND));
    assert_eq!(acts(&out), vec!["run status --envelope (60s)", "run observe --json (60s)"]);
    assert_eq!(press(&mut a, Key::Char('D')), vec!["run dream --mode deep (300s)"]);
    let mut a = app(Tab::Dreams);
    write(&mut a, "x");
    assert!(press(&mut a, Key::Char('d')).is_empty());
    assert_eq!(a.bar.input, "xd");
}

#[test]
fn a_key_reconnects_or_refreshes() {
    let mut a = app(Tab::Bus);
    assert!(press(&mut a, Key::Char('r')).is_empty());
    assert_eq!(a.bar.input, "r");
    let mut a = app(Tab::Bus);
    a.bus.status = BusStatus::Failed;
    assert_eq!(press(&mut a, Key::Char('R')), vec!["kill bus", "spawn bus"]);
    let mut a = app(Tab::Cosmos);
    assert_eq!(press(&mut a, Key::Char('r')), vec!["load cosmos"]);
}

#[test]
fn a_request_is_decided_by_a_key() {
    for (k, word) in [
        (Key::Char('a'), "allow"),
        (Key::Char('S'), "allow_always"),
        (Key::Char('d'), "deny"),
        (Key::Esc, "deny"),
    ] {
        let mut a = app(Tab::Agent);
        request(&mut a);
        assert_eq!(
            press(&mut a, k),
            vec![format!("agent< {{\"decision\":\"{word}\",\"id\":\"r\",\"type\":\"approval\"}}")]
        );
        assert!(!a.should_quit && a.harness.pending.is_none());
    }
    // On another tab the same keys are other keys.
    let mut a = app(Tab::Memory);
    request(&mut a);
    assert!(press(&mut a, Key::Char('a')).is_empty());
    assert!(a.harness.pending.is_some());
}

#[test]
fn escape_stops_a_busy_agent() {
    let mut a = app(Tab::Agent);
    working(&mut a);
    assert_eq!(press(&mut a, Key::Esc), vec![r#"agent< {"type":"exit"}"#, "kill agent"]);
    assert!(!a.should_quit);
    press(&mut a, Key::Esc);
    assert!(a.should_quit);
}

#[test]
fn a_task_goes_to_the_agent() {
    let mut a = app(Tab::Agent);
    a.scroll = 4;
    assert_eq!(enter(&mut a, " fix it "), vec!["spawn agent default/: fix it"]);
    assert!(a.bar.input.is_empty());
    assert_eq!(a.bar.history, vec!["fix it"]);
    let mut out = Vec::new();
    a.harness_spawned(t("/w"), SpawnOutcome::Up { stdin: true }, t("fix it"), &mut out);
    assert_eq!(a.scroll, 0);
    assert!(enter(&mut a, "and that").is_empty());
    assert_eq!(notice(&a), "[agent is working \u{2014} wait for it to finish]");
    assert!(enter(&mut a, "/qos").is_empty());
    assert_eq!(notice(&a), "[agent is working \u{2014} wait for it to finish or /stop]");
    let mut a = app(Tab::Agent);
    request(&mut a);
    assert!(enter(&mut a, "and that").is_empty());
    assert_eq!(
        notice(&a),
        "[approval pending \u{2014} press a (allow), s (allow always), or d (deny)]"
    );
    assert!(a.harness.pending.is_some());
}

#[test]
fn commands_to_the_agent_tab() {
    let mut a = app(Tab::Agent);
    enter(&mut a, "/mode own");
    assert_eq!(a.harness.mode, "own");
    enter(&mut a, "/auto");
    assert_eq!(a.harness.mode, "auto-edit");
    enter(&mut a, "/model m2");
    assert_eq!(a.harness.model, "m2");
    enter(&mut a, "/what");
    assert_eq!(notice(&a), "[unknown command /what \u{2014} try /help]");
    enter(&mut a, "/clear");
    assert_eq!(a.harness.lines.len(), 1);
    enter(&mut a, "/?");
    assert!(a.show_help);
    let mut a = app(Tab::Agent);
    let started = enter(&mut a, "/qos");
    assert_eq!(started, vec![format!("spawn agent default/: {QOS_BOOT_PROMPT}")]);
    assert_eq!(notice(&a), "[/qos \u{2014} booting QuantumOS on a qBraid Lab instance]");
    let mut a = app(Tab::Agent);
    let started = enter(&mut a, "/qos -g");
    assert_eq!(started, vec![format!("spawn agent default/: {QOS_BOOT_GRAPHICAL_PROMPT}")]);
    assert_eq!(
        notice(&a),
        "[/qos --graphical \u{2014} booting QuantumOS with a live browser view]"
    );
    let mut a = app(Tab::Agent);
    working(&mut a);
    assert_eq!(enter(&mut a, "/stop"), vec![r#"agent< {"type":"exit"}"#, "kill agent"]);
    assert_eq!(a.harness.status, HarnessStatus::Off);
}

#[test]
fn verbs_of_the_command_bar() {
    let mut a = app(Tab::Memory);
    assert_eq!(enter(&mut a, "remember \"a b\""), vec!["run remember a b (60s)"]);
    assert_eq!(last(&a), (Role::User, "remember \"a b\""));
    let mut a = app(Tab::Memory);
    assert_eq!(enter(&mut a, "/recall x"), vec!["run recall x --top-k 5 (60s)"]);
    let mut a = app(Tab::Memory);
    assert_eq!(enter(&mut a, "forget 7"), vec!["run forget 7 (60s)"]);
    assert_eq!(last(&a), (Role::User, "forget \"7\""));
    assert_eq!(
        enter(&mut a, "status"),
        vec!["run status --envelope (60s)", "run observe --json (60s)"]
    );
    assert_eq!(last(&a), (Role::System, "Status refreshed."));
    assert!(enter(&mut a, "hear").is_empty());
    assert_eq!(last(&a), (Role::Error, "Usage: hear <file-or-url> [--secs N]"));
    assert_eq!(
        enter(&mut a, "ask \"why\""),
        vec!["run ask --no-tools --quiet-tools why (600s)"]
    );
    assert_eq!(last(&a), (Role::System, "Running... (up to 600s)"));
    assert_eq!(enter(&mut a, "radio"), vec!["load cosmos"]);
    assert_eq!(a.tab, Tab::Cosmos);
    assert_eq!(last(&a), (Role::System, "Opening Cosmos \u{2014} constellation + radio status."));
    assert!(enter(&mut a, "help").is_empty());
    assert!(a.show_help);
}

#[test]
fn a_dream_from_the_bar_turns_the_bus_on() {
    let mut a = app(Tab::Memory);
    assert_eq!(enter(&mut a, "dream lite"), vec!["spawn bus", "run dream --mode lite (300s)"]);
    let n = a.log.messages.len();
    assert_eq!(a.log.messages[n - 2].content, "dream --mode lite");
    assert_eq!(
        last(&a),
        (Role::System, "Dream cycle started in background \u{2014} Dreams tab for progress.")
    );
    assert!(enter(&mut a, "dream").is_empty());
    assert_eq!(
        last(&a),
        (Role::System, "A dream is already running \u{2014} wait for it to finish.")
    );
}

#[test]
fn the_slash_is_optional() {
    for line in ["stats", "swarm peers", "recall x", "clusters", "dream"] {
        let (mut a, mut b) = (app(Tab::Memory), app(Tab::Memory));
        let slashed = format!("/{line}");
        assert_eq!(enter(&mut a, line), enter(&mut b, &slashed));
    }
}

#[test]
fn anything_else_is_chat() {
    let mut a = app(Tab::Memory);
    a.scroll = 3;
    assert_eq!(enter(&mut a, "hello there"), vec!["spawn chat"]);
    assert_eq!((a.tab, a.scroll), (Tab::Chat, 0));
    let l = a.chat.messages.last().unwrap();
    assert_eq!((l.who, l.text.as_str()), (ChatWho::User, "hello there"));
    let n = a.chat.messages.len();
    // One turn at a time: what comes meanwhile is dropped.
    assert!(enter(&mut a, "and more").is_empty());
    assert_eq!(a.chat.messages.len(), n);
    a.tab = Tab::Memory;
    assert!(enter(&mut a, "and more").is_empty());
    assert_eq!(a.tab, Tab::Chat);
    assert_eq!(a.chat.messages.len(), n);
    let mut out = Vec::new();
    a.poll_chat(vec![ChatEvent::Stdin], false, &mut out);
    assert_eq!(acts(&out), vec!["chat< hello there"]);
    assert_eq!(a.chat.tick, 1);
}

#[test]
fn the_chat_tab_shares_the_command_bar() {
    let mut a = app(Tab::Chat);
    assert_eq!(enter(&mut a, "stats"), vec!["run stats (30s)"]);
    assert_eq!(enter(&mut a, "/code do it"), vec!["probe kannaka-code: do it"]);
    assert_eq!(enter(&mut a, "/topus do it"), vec!["probe kannaktopus: do it"]);
    assert_eq!(a.chat.messages.last().unwrap().text, "/topus do it");
    let mut out = Vec::new();
    a.plugin_probed(t("kannaktopus"), t("do it"), true, &mut out);
    assert_eq!(acts(&out), vec!["plugin kannaktopus: do it"]);
    assert!(enter(&mut a, "hello").is_empty());
    a.poll_plugin(vec![t("done")], true);
    assert_eq!(enter(&mut a, "hello"), vec!["spawn chat"]);
}

#[test]
fn verbs_run_while_a_turn_is_under_way() {
    let mut a = app(Tab::Chat);
    assert_eq!(enter(&mut a, "hello"), vec!["spawn chat"]);
    let n = a.chat.messages.len();
    assert_eq!(enter(&mut a, "stats"), vec!["run stats (30s)"]);
    assert_eq!(enter(&mut a, "recall x"), vec!["run recall x --top-k 5 (60s)"]);
    assert!(enter(&mut a, "/code do it").is_empty());
    assert!(enter(&mut a, "/topus do it").is_empty());
    assert!(enter(&mut a, "more").is_empty());
    assert_eq!(a.chat.messages.len(), n);
    assert_eq!(a.tab, Tab::Chat);
    enter(&mut a, "/quit");
    assert!(a.should_quit);
}

#[test]
fn an_empty_line_does_nothing() {
    let mut a = app(Tab::Memory);
    assert!(enter(&mut a, "   ").is_empty());
    assert_eq!(a.bar.input, "   ");
    assert!(a.bar.history.is_empty());
}

#[test]
fn a_paste_is_not_sent_by_its_line_breaks() {
    let mut a = app(Tab::Agent);
    let mut out = Vec::new();
    a.handle_paste("one\ntwo", SECOND);
    assert_eq!(a.bar.input, "one two");
    a.handle_key(key(Key::Enter), SECOND + 149_999_999, &mut out);
    assert!(out.is_empty());
    assert_eq!(a.bar.input, "one two ");
    a.handle_key(key(Key::Enter), 2 * SECOND, &mut out);
    assert_eq!(acts(&out), vec!["spawn agent default/: one two"]);
}

#[test]
fn a_burst_of_text_sends_nothing() {
    let mut a = app(Tab::Agent);
    let mut out = Vec::new();
    let keys = vec![key(Key::Char('q')), key(Key::Enter), key(Key::Char('x')), key(Key::Up)];
    assert_eq!(burst_of(&keys), "q x");
    a.handle_keys(keys, SECOND, &mut out);
    assert!(out.is_empty() && !a.should_quit);
    assert_eq!(a.bar.input, "q x");
    // A burst of other keys is a series of keys.
    let mut a = app(Tab::Memory);
    a.handle_keys(vec![key(Key::PageUp), key(Key::PageUp)], SECOND, &mut out);
    assert_eq!(a.scroll, 10);
    // One key is that key.
    a.handle_keys(vec![key(Key::Char('q'))], SECOND, &mut out);
    assert!(a.should_quit);
}

#[test]
fn the_status_tab_refreshes_itself() {
    let mut a = app(Tab::Status);
    let mut out = Vec::new();
    a.refresh(SECOND, &mut out);
    assert_eq!(out.len(), 2);
    a.poll_status(Answer::Lost);
    a.poll_observe(Answer::Lost);
    a.refresh_when_due(6 * SECOND, &mut out);
    assert_eq!(out.len(), 2);
    a.refresh_when_due(6 * SECOND + 1, &mut out);
    assert_eq!(out.len(), 4);
    a.poll_status(Answer::Lost);
    a.tab = Tab::Memory;
    a.refresh_when_due(60 * SECOND, &mut out);
    assert_eq!(out.len(), 4);
}

#[test]
fn a_waiting_agent_hears_only_the_decision() {
    let mut a = app(Tab::Agent);
    request(&mut a);
    assert!(enter(&mut a, "go on").is_empty());
    assert!(enter(&mut a, "/qos").is_empty());
    assert!(enter(&mut a, "/what").is_empty());
    assert_eq!(enter(&mut a, "/yolo"), vec![r#"agent< {"mode":"yolo","type":"mode"}"#]);
    assert!(a.harness.pending.is_some());
    a.tab = Tab::Memory;
    assert_eq!(enter(&mut a, "stats"), vec!["run stats (30s)"]);
    assert_eq!(enter(&mut a, "yes, allow it"), vec!["spawn chat"]);
    assert!(a.harness.pending.is_some());
}
