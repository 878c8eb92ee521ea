use kannaka_tui::json::{parse_json, Json};
use kannaka_tui::payload::{
    agent_snapshot_from_payload, bus_frame_of, bus_ts_column, dream_event_from_payload,
    format_bus_ts, read_bus_line, summarize_payload,
};

/// The value of a figure, 0 where there is none.
fn value(n: &Option<serde_json::Number>) -> f32 {
    n.as_ref().and_then(|n| n.as_f64()).unwrap_or(0.0) as f32
}

#[test]
fn golden_swarm_tail_envelope() {
    let line = r#"{"ts":1765400000000,"subject":"KANNAKA.activity.remember","payload":{"agent_id":"a1","content":"noted"}}"#;
    let v = parse_json(line).unwrap();
    let ts = v.signed("ts");
    let subject = v.text_or("subject", "?");
    assert_eq!(ts, 1_765_400_000_000);
    assert_eq!(subject, "KANNAKA.activity.remember");
    assert!(matches!(v.get("payload"), Some(Json::Object(_))));
    let frame = bus_frame_of(&v, 0);
    assert_eq!(frame.line.ts_ms, 1_765_400_000_000);
    assert_eq!(frame.line.subject, "KANNAKA.activity.remember");
    assert_eq!(frame.line.summary, "agent=a1 \u{b7} \"noted\"");

    // Absent fields degrade to the documented defaults.
    let bare = parse_json("{}").unwrap();
    assert_eq!(bare.text_or("subject", "?"), "?");
    assert!(bare.get("payload").is_none());
    let frame = bus_frame_of(&bare, 0);
    assert_eq!(frame.line.ts_ms, 0);
    assert_eq!(frame.line.subject, "?");
    assert_eq!(frame.line.summary, "null");
}

#[test]
fn golden_queen_phase_payload() {
    let close = |a: f32, b: f32| (a - b).abs() < 1e-6;
    let payload = parse_json(
        r#"{"agent_id":"kannaka-01","phase":1.25,"phi":0.42,"coherence":0.8,"order_parameter":0.7,"handedness":"left","memory_count":128}"#,
    )
    .unwrap();
    let snap = agent_snapshot_from_payload("QUEEN.phase.kannaka-01", &payload, 5).unwrap();
    assert_eq!(snap.agent_id, "kannaka-01");
    assert!(close(value(&snap.theta), 1.25));
    assert!(close(value(&snap.phi), 0.42));
    assert!(close(value(&snap.coherence), 0.8));
    assert!(close(value(&snap.order_parameter), 0.7));
    assert_eq!(snap.handedness, "left");
    assert_eq!(snap.memory_count, 128);
    assert_eq!(snap.last_seen, 5);

    // `theta` alias (Kannaktopus arm) is accepted in place of `phase`.
    let arm = parse_json(r#"{"agent_id":"topus","theta":2.0}"#).unwrap();
    let s2 = agent_snapshot_from_payload("QUEEN.phase.topus", &arm, 0).unwrap();
    assert!(close(value(&s2.theta), 2.0));

    // agent_id falls back to the subject suffix when absent from the payload.
    let noid = parse_json("{}").unwrap();
    let s3 = agent_snapshot_from_payload("QUEEN.phase.fromsub", &noid, 0).unwrap();
    assert_eq!(s3.agent_id, "fromsub");

    // A non-object payload yields None.
    let scalar = parse_json("42").unwrap();
    assert!(agent_snapshot_from_payload("QUEEN.phase.x", &scalar, 0).is_none());
}

#[test]
fn golden_dreams_payload() {
    let close = |a: f32, b: f32| (a - b).abs() < 1e-6;
    let payload = parse_json(
        r#"{"agent_id":"kannaka-01","cycles":3,"memories_strengthened":12,"memories_pruned":4,"new_connections":7,"hallucinations_created":1,"consciousness_before":0.30,"consciousness_after":0.55,"emerged":true}"#,
    )
    .unwrap();
    let ev = dream_event_from_payload(1_765_400_000_000, &payload).unwrap();
    assert_eq!(ev.ts_ms, 1_765_400_000_000);
    assert_eq!(ev.agent_id, "kannaka-01");
    assert_eq!(ev.cycles, 3);
    assert_eq!(ev.strengthened, 12);
    assert_eq!(ev.pruned, 4);
    assert_eq!(ev.new_connections, 7);
    assert_eq!(ev.hallucinations, 1);
    assert!(close(value(&ev.consciousness_before), 0.30));
    assert!(close(value(&ev.consciousness_after), 0.55));
    assert!(ev.emerged);

    // Non-object payload -> None.
    assert!(dream_event_from_payload(0, &Json::Null).is_none());
}

#[test]
fn golden_summarize_payload_fields() {
    let payload = parse_json(
        r#"{"agent_id":"a1","phi":0.5,"consciousness_level":"L5","event":"bloom"}"#,
    )
    .unwrap();
    let s = summarize_payload("KANNAKA.events.bloom", &payload);
    assert!(s.contains("agent=a1"), "got: {s}");
    assert!(s.contains("\u{03A6}=0.500"), "got: {s}"); // Φ
    assert!(s.contains("level=L5"), "got: {s}");
    assert!(s.contains("event=bloom"), "got: {s}");

    // An unknown-shape object still yields an informative compact-JSON line.
    let opaque = parse_json(r#"{"weird":123}"#).unwrap();
    assert!(summarize_payload("x", &opaque).contains("weird"));
}

#[test]
fn summaries_in_full() {
    let p = |s: &str| summarize_payload("S", &parse_json(s).unwrap());
    assert_eq!(
        p(r#"{"event":"e","content":"c","consciousness_level":"l","xi":3,"phi":0.0625,"theta":-1.0005,"agent_id":"a"}"#),
        "agent=a \u{b7} \u{3b8}=-1.000 \u{b7} \u{3a6}=0.062 \u{b7} \u{39e}=3.000 \u{b7} level=l \u{b7} \"c\" \u{b7} event=e"
    );
    assert_eq!(p(r#"{"weird":123}"#), r#"{"weird":123}"#);
    assert_eq!(p(r#""plain""#), "plain");
    assert_eq!(p("[1,2.5,null]"), "[1,2.5,null]");
    let long = format!("\"{}\"", "y".repeat(130));
    assert_eq!(p(&long), format!("{}\u{2026}", "y".repeat(119)));
    let content = format!("{{\"content\":\"{}\"}}", "z".repeat(61));
    assert_eq!(p(&content), format!("\"{}\u{2026}\"", "z".repeat(59)));
}

#[test]
fn frames_of_the_bus_are_sorted_by_subject() {
    let phase = read_bus_line(
        r#"{"ts":1,"subject":"QUEEN.phase.a","payload":{"phase":1}}"#,
        9,
    )
    .unwrap();
    assert_eq!(phase.agent.unwrap().agent_id, "a");
    assert!(phase.dream.is_none());
    let dream = read_bus_line(r#"{"ts":7,"subject":"KANNAKA.dreams","payload":{}}"#, 9).unwrap();
    assert!(dream.agent.is_none());
    let d = dream.dream.unwrap();
    assert_eq!(d.agent_id, "?");
    assert_eq!(d.ts_ms, 7);
    let other = read_bus_line(r#"{"subject":"RADIO.now","payload":"x"}"#, 9).unwrap();
    assert!(other.agent.is_none() && other.dream.is_none());
    assert_eq!(other.line.summary, "x");
    assert!(read_bus_line("  ", 9).is_none());
    assert!(read_bus_line("{", 9).is_none());
}

#[test]
fn missing_figures_stay_missing() {
    let s = agent_snapshot_from_payload(
        "QUEEN.phase.a",
        &parse_json(r#"{"theta":"x","phase":1.0}"#).unwrap(),
        0,
    )
    .unwrap();
    // A theta that is there but no number hides the phase.
    assert!(s.theta.is_none());
    assert!(s.phi.is_none());
    assert_eq!(s.handedness, "achiral");
    assert_eq!(s.memory_count, 0);
    assert!(agent_snapshot_from_payload("OTHER.a", &parse_json("{}").unwrap(), 0).is_none());
}

#[test]
fn the_time_column_has_eight_characters() {
    assert_eq!(format_bus_ts(0), "        ");
    let t = format_bus_ts(1_765_400_000_000);
    assert_eq!(t.len(), 8);
    let b = t.as_bytes();
    assert!(b[2] == b':' && b[5] == b':');
    assert!([0, 1, 3, 4, 6, 7].iter().all(|i| b[*i].is_ascii_digit()));
    // The ends of the calendar, and just past them.
    assert_eq!(format_bus_ts(8_210_266_876_799_999).matches(':').count(), 2);
    assert_eq!(format_bus_ts(8_210_266_876_800_000), "        ");
    assert_eq!(format_bus_ts(-8_334_601_228_800_000).matches(':').count(), 2);
    assert_eq!(format_bus_ts(-8_334_601_228_800_001), "        ");
    assert_eq!(format_bus_ts(i64::MAX), "        ");
    assert_eq!(format_bus_ts(i64::MIN), "        ");
    assert_eq!(bus_ts_column(5, Some("12:34:56".to_string())), "12:34:56");
    assert_eq!(bus_ts_column(0, Some("12:34:56".to_string())), "        ");
    assert_eq!(bus_ts_column(5, None), "        ");
}

#[test]
fn an_unknown_payload_is_its_text() {
    let long = "x".repeat(121);
    let text = Json::Text(long.clone());
    let cut = format!("{}\u{2026}", "x".repeat(119));
    assert_eq!(summarize_payload("A", &text), cut);
    assert_eq!(summarize_payload("B", &text), cut);
    let odd = Json::Object(vec![("theta".to_string(), Json::Text("no number".to_string()))]);
    assert_eq!(summarize_payload("A", &odd), r#"{"theta":"no number"}"#);
    let wide = Json::List(vec![Json::Text(long)]);
    let shown = summarize_payload("A", &wide);
    assert_eq!(shown, format!("[\"{}\u{2026}", "x".repeat(117)));
    assert_eq!(shown.chars().count(), 120);
    assert_eq!(summarize_payload("A", &Json::Null), "null");
}
