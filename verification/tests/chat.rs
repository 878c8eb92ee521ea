use kannaka_tui::action::Action;
use kannaka_tui::chat::{
    plugin_failure, read_chat_line, says_ready, Chat, ChatEvent, ChatWho, CHAT_MESSAGES_CAP,
};

/// One word or two for each action, in order.
fn acts(out: &[Action]) -> Vec<String> {
    out.iter()
        .map(|a| match a {
            Action::SpawnAgent { mode, model, turn } => format!("spawn agent {mode}/{model}: {turn}"),
            Action::SendAgent(l) => format!("agent< {l}"),
            Action::KillAgent => "kill agent".to_string(),
            Action::SpawnBus => "spawn bus".to_string(),
            Action::KillBus => "kill bus".to_string(),
            Action::Run(j) => format!("run {} ({}s)", j.args().join(" "), j.secs()),
            Action::LoadCosmos => "load cosmos".to_string(),
            Action::SpawnChat => "spawn chat".to_string(),
            Action::SendChat(l) => format!("chat< {l}"),
            Action::ProbePlugin { binary, prompt } => format!("probe {binary}: {prompt}"),
            Action::RunPlugin { binary, prompt } => format!("plugin {binary}: {prompt}"),
        })
        .collect()
}

fn t(x: &str) -> String {
    x.to_string()
}

fn said(kind: &str, text: &str) -> ChatEvent {
    ChatEvent::Response { kind: t(kind), text: t(text) }
}

fn talk(c: &Chat) -> Vec<(ChatWho, &str)> {
    c.messages.iter().skip(1).map(|l| (l.who, l.text.as_str())).collect()
}

#[test]
fn golden_chat_response_fields() {
    let fields = |line: &str| match read_chat_line(line) {
        Some(ChatEvent::Response { kind, text }) => (kind, text),
        _ => panic!("expected a response"),
    };
    for (line, k, t) in [
        (r#"{"kind":"chat","text":"hello"}"#, "chat", "hello"),
        (r#"{"kind":"chunk","text":"par"}"#, "chunk", "par"),
        (r#"{"kind":"slash","text":"/help"}"#, "slash", "/help"),
        (r#"{"kind":"error","text":"boom"}"#, "error", "boom"),
    ] {
        let (kind, text) = fields(line);
        assert_eq!(kind, k);
        assert_eq!(text, t);
    }
    // Missing fields have their defaults.
    assert_eq!(
        fields(r#"{"text":"no kind"}"#),
        ("chat".to_string(), "no kind".to_string())
    );
    assert_eq!(
        fields(r#"{"kind":"chat"}"#),
        ("chat".to_string(), String::new())
    );
}

#[test]
fn a_line_of_the_partner_has_its_defaults() {
    match read_chat_line("{}") {
        Some(ChatEvent::Response { kind, text }) => assert_eq!((kind.as_str(), text.as_str()), ("chat", "")),
        _ => panic!("expected a response"),
    }
    assert!(read_chat_line("not json").is_none());
    assert!(says_ready(r#"{"kind":"ready"}"#));
    assert!(!says_ready("ready"));
}

#[test]
fn the_first_turn_waits_for_the_partner() {
    let mut c = Chat::new();
    assert_eq!(
        c.messages[0].text,
        "Chat with Kannaka. Memories surface via wave resonance each turn. Enter to send."
    );
    let mut out = Vec::new();
    c.say(t("hello"), &mut out);
    assert_eq!(acts(&out), vec!["spawn chat"]);
    assert_eq!(talk(&c), vec![(ChatWho::User, "hello")]);
    assert!(c.pending && c.waiting.as_deref() == Some("hello"));
    out.clear();
    c.poll_chat(vec![ChatEvent::Stdin, ChatEvent::Ready], false, &mut out);
    assert_eq!(acts(&out), vec!["chat< hello"]);
    assert!(c.waiting.is_none());
    assert!(c.child.unwrap().ready);
    // The partner is there: the next turn goes straight to it.
    c.poll_chat(vec![said("chat", "hi")], false, &mut out);
    out.clear();
    c.say(t("again"), &mut out);
    assert_eq!(acts(&out), vec!["chat< again"]);
}

#[test]
fn a_streamed_answer_is_one_line() {
    let mut c = Chat::new();
    let mut out = Vec::new();
    c.say(t("q"), &mut out);
    c.poll_chat(vec![said("chunk", "Hel"), said("chunk", "lo")], false, &mut out);
    assert!(c.pending);
    c.poll_chat(vec![said("chat", "Hello")], false, &mut out);
    assert!(!c.pending);
    assert_eq!(talk(&c), vec![(ChatWho::User, "q"), (ChatWho::Kannaka, "Hello")]);
    c.say(t("r"), &mut out);
    c.poll_chat(vec![said("chat", "whole")], false, &mut out);
    assert_eq!(talk(&c)[3], (ChatWho::Kannaka, "whole"));
}

#[test]
fn errors_and_other_words_are_of_the_system() {
    let mut c = Chat::new();
    let mut out = Vec::new();
    c.say(t("q"), &mut out);
    c.poll_chat(vec![said("error", "bad")], false, &mut out);
    assert!(!c.pending);
    c.poll_chat(vec![said("slash", "done")], false, &mut out);
    assert_eq!(talk(&c)[1..], [(ChatWho::System, "bad"), (ChatWho::System, "done")]);
}

#[test]
fn the_next_turn_respawns_a_partner_that_is_gone() {
    let mut c = Chat::new();
    let mut out = Vec::new();
    c.say(t("q"), &mut out);
    out.clear();
    c.poll_chat(vec![ChatEvent::Closed(t("child stdout EOF")), said("chat", "late")], false, &mut out);
    assert_eq!(
        talk(&c)[1],
        (ChatWho::System, "[chat child closed \u{2014} next turn will respawn: child stdout EOF]")
    );
    assert_eq!(c.messages.len(), 3);
    assert!(!c.pending && c.child.is_none());
    c.say(t("r"), &mut out);
    assert_eq!(acts(&out), vec!["spawn chat"]);
    c.poll_chat(Vec::new(), true, &mut out);
    assert_eq!(
        talk(&c)[3].1,
        "[chat child closed \u{2014} next turn will respawn: disconnected]"
    );
}

#[test]
fn the_conversation_is_bounded() {
    let mut c = Chat::new();
    let mut out = Vec::new();
    for i in 0..CHAT_MESSAGES_CAP + 4 {
        c.poll_chat(vec![said("slash", &i.to_string())], false, &mut out);
    }
    assert_eq!(c.messages.len(), 500);
    assert_eq!(c.messages[499].text, "503");
    let many = (0..600).map(|i| i.to_string()).collect();
    c.poll_plugin(many, false);
    assert_eq!(c.messages.len(), 500);
    assert_eq!(c.messages[0].text, "100");
}

#[test]
fn a_plugin_is_looked_for_and_run() {
    let mut c = Chat::new();
    let mut out = Vec::new();
    c.spawn_plugin_turn("kannaka-code", "/code", "fix it", &mut out);
    assert_eq!(talk(&c), vec![(ChatWho::User, "/code fix it")]);
    assert_eq!(acts(&out), vec!["probe kannaka-code: fix it"]);
    assert!(!c.pending);
    out.clear();
    c.plugin_probed(t("kannaka-code"), t("fix it"), false, &mut out);
    assert!(out.is_empty());
    assert_eq!(
        talk(&c)[1].1,
        "[plugin 'kannaka-code' not found on PATH \u{2014} install it and try again. For kannaka-code: cargo install --git https://github.com/NickFlach/kannaka-code]"
    );
    c.plugin_probed(t("kannaka-code"), t("fix it"), true, &mut out);
    assert_eq!(acts(&out), vec!["plugin kannaka-code: fix it"]);
    assert!(c.pending && c.plugin);
    c.poll_plugin(vec![t("one"), t("  "), t(" two")], false);
    assert_eq!(talk(&c)[2..], [(ChatWho::System, "one"), (ChatWho::System, " two")]);
    c.poll_plugin(Vec::new(), true);
    assert!(!c.pending && !c.plugin);
    assert_eq!(plugin_failure("gone"), "[plugin spawn failed: gone]");
}

#[test]
fn the_chat_spinner_turns_while_a_turn_runs() {
    let mut c = Chat::new();
    c.tick();
    assert_eq!(c.tick, 0);
    let mut out = Vec::new();
    c.say(t("q"), &mut out);
    c.tick();
    assert_eq!(c.tick, 1);
}
