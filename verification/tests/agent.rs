use kannaka_tui::agent::{parse_agent_event, read_agent_line, tool_input_summary, AgentEvent};
use kannaka_tui::json::parse_json;

#[test]
fn agent_event_parses_each_kind() {
    let p = |s: &str| parse_agent_event(&parse_json(s).unwrap());
    assert!(matches!(
        p(r#"{"kind":"ready","model":"m","mode":"default","cwd":"/w"}"#),
        Some(AgentEvent::Ready { .. })
    ));
    assert!(
        matches!(p(r#"{"kind":"text","text":"hi"}"#), Some(AgentEvent::Text(t)) if t == "hi")
    );
    assert!(matches!(
        p(
            r#"{"kind":"tool_use","id":"t1","name":"bash","input":{"command":"ls"},"read_only":false,"danger":false}"#
        ),
        Some(AgentEvent::ToolUse {
            read_only: false,
            ..
        })
    ));
    assert!(matches!(
        p(
            r#"{"kind":"approval_required","id":"t1","name":"write_file","summary":"a.txt","danger":false}"#
        ),
        Some(AgentEvent::ApprovalRequired { .. })
    ));
    assert!(matches!(
        p(r#"{"kind":"tool_result","id":"t1","content":"ok","is_error":false}"#),
        Some(AgentEvent::ToolResult {
            is_error: false,
            ..
        })
    ));
    assert!(matches!(
        p(r#"{"kind":"usage","input":10,"output":5}"#),
        Some(AgentEvent::Usage {
            input: 10,
            output: 5
        })
    ));
    assert!(matches!(
        p(r#"{"kind":"iteration","n":3}"#),
        Some(AgentEvent::Iteration(3))
    ));
    assert!(
        matches!(p(r#"{"kind":"done","reason":"end_turn"}"#), Some(AgentEvent::Done(r)) if r == "end_turn")
    );
    assert!(matches!(
        p(r#"{"kind":"error","text":"boom"}"#),
        Some(AgentEvent::Error(_))
    ));
    assert!(
        matches!(p(r#"{"kind":"mode","mode":"yolo"}"#), Some(AgentEvent::Mode(m)) if m == "yolo")
    );
    // Unknown / malformed frames yield None.
    assert!(p(r#"{"kind":"who_knows"}"#).is_none());
    assert!(p(r#"{"no_kind":1}"#).is_none());
}

#[test]
fn tool_summary_extracts_key_field() {
    let j = |s: &str| parse_json(s).unwrap();
    assert_eq!(
        tool_input_summary("bash", &j(r#"{"command":"cargo test"}"#)),
        "cargo test"
    );
    assert_eq!(
        tool_input_summary(
            "write_file",
            &j(r#"{"file_path":"src/x.rs","content":"..."}"#)
        ),
        "src/x.rs"
    );
    assert_eq!(
        tool_input_summary("grep", &j(r#"{"pattern":"TODO"}"#)),
        "TODO"
    );
}

#[test]
fn golden_agent_event_fields() {
    let p = |s: &str| parse_agent_event(&parse_json(s).unwrap()).unwrap();

    // ready: model / mode / cwd  (extra `tools` field is ignored)
    let AgentEvent::Ready { model, mode, cwd } =
        p(r#"{"kind":"ready","cwd":"/work","model":"kannaka-brain-v1","mode":"default","tools":[]}"#)
    else {
        panic!("expected Ready");
    };
    assert_eq!(
        (model.as_str(), mode.as_str(), cwd.as_str()),
        ("kannaka-brain-v1", "default", "/work")
    );

    // tool_use: id / name / read_only / danger; summary derived from input
    let AgentEvent::ToolUse {
        id,
        name,
        summary,
        read_only,
        danger,
    } = p(
        r#"{"kind":"tool_use","id":"tu1","name":"bash","input":{"command":"ls -la"},"read_only":true,"danger":false}"#,
    )
    else {
        panic!("expected ToolUse");
    };
    assert_eq!(id, "tu1");
    assert_eq!(name, "bash");
    assert_eq!(summary, "ls -la");
    assert!(read_only);
    assert!(!danger);

    // tool_result: id / content / is_error  (producer's `name` is ignored)
    let AgentEvent::ToolResult {
        id,
        content,
        is_error,
    } = p(
        r#"{"kind":"tool_result","id":"tu1","name":"bash","content":"total 0","is_error":false}"#,
    )
    else {
        panic!("expected ToolResult");
    };
    assert_eq!(id, "tu1");
    assert_eq!(content, "total 0");
    assert!(!is_error);

    // approval_required: id / name / summary / danger
    let AgentEvent::ApprovalRequired {
        id,
        name,
        summary,
        danger,
    } = p(
        r#"{"kind":"approval_required","id":"ap1","name":"write_file","summary":"a.txt","danger":true}"#,
    )
    else {
        panic!("expected ApprovalRequired");
    };
    assert_eq!(id, "ap1");
    assert_eq!(name, "write_file");
    assert_eq!(summary, "a.txt");
    assert!(danger);
}

#[test]
fn missing_fields_have_defaults() {
    let ev = parse_agent_event(&parse_json(r#"{"kind":"tool_use"}"#).unwrap()).unwrap();
    match ev {
        AgentEvent::ToolUse { id, name, summary, read_only, danger } => {
            assert_eq!(id, "");
            assert_eq!(name, "");
            // Without a name the whole input stands for the call.
            assert_eq!(summary, "null");
            assert!(!read_only);
            assert!(!danger);
        }
        _ => panic!("expected ToolUse"),
    }
    assert!(matches!(
        parse_agent_event(&parse_json(r#"{"kind":"usage","input":-1,"output":"x"}"#).unwrap()),
        Some(AgentEvent::Usage { input: 0, output: 0 })
    ));
    assert!(parse_agent_event(&parse_json(r#"{"kind":7}"#).unwrap()).is_none());
    assert!(parse_agent_event(&parse_json(r#"[1]"#).unwrap()).is_none());
}

#[test]
fn summaries_of_other_tools() {
    let j = |s: &str| parse_json(s).unwrap();
    assert_eq!(tool_input_summary("list_dir", &j(r#"{"path":"src"}"#)), "src");
    assert_eq!(tool_input_summary("recall", &j(r#"{"query":"q"}"#)), "q");
    assert_eq!(tool_input_summary("read_file", &j(r#"{}"#)), "");
    let long = "x".repeat(61);
    let doc = format!("{{\"content\":\"{long}\"}}");
    let kept = tool_input_summary("remember", &j(&doc));
    assert_eq!(kept.chars().count(), 60);
    assert!(kept.ends_with('\u{2026}'));
    assert_eq!(tool_input_summary("other", &j(r#"{ "b" : 1, "a" : [ true ] }"#)), r#"{"a":[true],"b":1}"#);
}

#[test]
fn lines_of_the_agent_stream() {
    assert!(read_agent_line("   ").is_none());
    assert!(read_agent_line("not json").is_none());
    assert!(read_agent_line(r#"{"kind":"who_knows"}"#).is_none());
    assert!(matches!(
        read_agent_line("  {\"kind\":\"iteration\",\"n\":2}\r"),
        Some(AgentEvent::Iteration(2))
    ));
}
