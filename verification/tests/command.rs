use kannaka_tui::command::{read_agent_command, read_command, AgentCommand, Command};

fn pass(line: &str) -> (String, Vec<String>, u64) {
    match read_command(line) {
        Command::Pass { label, args, secs } => (label, args, secs),
        _ => panic!("expected a subcommand: {line}"),
    }
}

fn check(line: &str, label: &str, args: &[&str], secs: u64) {
    let (l, a, s) = pass(line);
    assert_eq!(l, label);
    assert_eq!(a, args);
    assert_eq!(s, secs);
}

#[test]
fn memory_verbs() {
    assert!(matches!(read_command("remember \"a b\""), Command::Remember(t) if t == "a b"));
    assert!(matches!(read_command("/remember  x "), Command::Remember(t) if t == "x"));
    assert!(matches!(read_command("recall \"q\""), Command::Recall(t) if t == "q"));
    assert!(matches!(read_command("forget \"7\""), Command::Forget(t) if t == "\"7\""));
    assert!(matches!(read_command("status"), Command::Refresh));
    assert!(matches!(read_command("/observe"), Command::Refresh));
}

#[test]
fn a_dream_is_deep_unless_it_is_lite() {
    assert!(matches!(read_command("dream"), Command::Dream(m) if m == "deep"));
    assert!(matches!(read_command("dream lite"), Command::Dream(m) if m == "lite"));
    assert!(matches!(read_command("/dream  lite"), Command::Dream(m) if m == "lite"));
    assert!(matches!(read_command("dream deep"), Command::Dream(m) if m == "deep"));
    assert!(matches!(read_command("dream lighter"), Command::Dream(m) if m == "deep"));
    assert!(matches!(read_command("dreams"), Command::Chat));
}

#[test]
fn subcommands_with_their_limits() {
    check("hear song.mp3 --secs 5", "hear song.mp3 --secs 5", &["hear", "song.mp3", "--secs", "5"], 300);
    check("see  a  b", "see a  b", &["see", "a", "b"], 300);
    check("ask \"why?\"", "ask \"why?\"", &["ask", "--no-tools", "--quiet-tools", "why?"], 600);
    check("search x y", "search \"x y\"", &["search", "x y"], 30);
    check("boost 9", "boost 9", &["boost", "9"], 30);
    check("assess", "assess", &["assess"], 60);
    check("stats", "stats", &["stats"], 30);
    check("cmf", "cmf", &["cmf"], 60);
    check("invariant a", "invariant a", &["invariant", "a"], 60);
    check("voice --mode x", "voice --mode x", &["voice", "--mode", "x"], 300);
    check("voices", "voices", &["voices"], 300);
    check("swarm", "swarm", &["swarm"], 60);
    check("/swarm peers", "swarm peers", &["swarm", "peers"], 60);
    check("relate \"a\"", "relate \"a\"", &["relate", "a"], 60);
    check("neighbors a", "neighbors \"a\"", &["neighbors", "a"], 60);
    check("clusters", "clusters", &["clusters"], 60);
    check("topology", "topology", &["topology"], 60);
    check("market buy", "market buy", &["market", "buy"], 30);
}

#[test]
fn verbs_without_what_they_need_say_how() {
    assert!(matches!(
        read_command("hear"),
        Command::Usage(t) if t == "Usage: hear <file-or-url> [--secs N]"
    ));
    assert!(matches!(read_command("see "), Command::Usage(t) if t == "Usage: see <file-or-url>"));
    assert!(matches!(read_command("see"), Command::Chat));
}

#[test]
fn tabs_help_quit_and_the_rest() {
    for line in ["constellation", "cosmos", "apps", "radio", "radio now", "/cosmos"] {
        assert!(matches!(read_command(line), Command::Cosmos), "{line}");
    }
    assert!(matches!(read_command("help"), Command::Help));
    assert!(matches!(read_command("/?"), Command::Help));
    for line in ["quit", "exit", "q", "/quit"] {
        assert!(matches!(read_command(line), Command::Quit), "{line}");
    }
    for line in ["hello", "/unknown", "topology x", "remember", "radios", "//help"] {
        assert!(matches!(read_command(line), Command::Chat), "{line}");
    }
}

#[test]
fn commands_on_the_agent_tab() {
    assert!(matches!(read_agent_command("/help"), AgentCommand::Help));
    assert!(matches!(read_agent_command("/ ? "), AgentCommand::Help));
    assert!(matches!(read_agent_command("/exit"), AgentCommand::Quit));
    for m in ["yolo", "plan", "default"] {
        let line = format!("/{m}");
        assert!(matches!(read_agent_command(&line), AgentCommand::Mode(x) if x == m));
    }
    assert!(matches!(read_agent_command("/auto"), AgentCommand::Mode(x) if x == "auto-edit"));
    assert!(matches!(read_agent_command("/auto-edit"), AgentCommand::Mode(x) if x == "auto-edit"));
    assert!(matches!(read_agent_command("/mode  own "), AgentCommand::Mode(x) if x == "own"));
    assert!(matches!(read_agent_command("/model a b"), AgentCommand::Model(x) if x == "a b"));
    assert!(matches!(read_agent_command("/stop"), AgentCommand::Stop));
    assert!(matches!(read_agent_command("/cancel"), AgentCommand::Stop));
    assert!(matches!(read_agent_command("/clear"), AgentCommand::Clear));
    assert!(matches!(read_agent_command("/qos"), AgentCommand::Qos { graphical: false }));
    assert!(matches!(read_agent_command("/qos -g"), AgentCommand::Qos { graphical: true }));
    assert!(matches!(read_agent_command("/qos --graphical"), AgentCommand::Qos { graphical: true }));
    assert!(matches!(read_agent_command("/qos graphical"), AgentCommand::Qos { graphical: true }));
    assert!(matches!(read_agent_command("/qos x"), AgentCommand::Qos { graphical: false }));
    assert!(matches!(read_agent_command("/qosx"), AgentCommand::Unknown(c) if c == "qosx"));
    assert!(matches!(read_agent_command("fix it"), AgentCommand::Task(t) if t == "fix it"));
}
