use kannaka_tui::agent::AgentEvent;
use kannaka_tui::app::Tab;
use kannaka_tui::bus::{Bus, BusStatus, DreamRun};
use kannaka_tui::chat::{Chat, ChatLine, ChatWho};
use kannaka_tui::cosmos::{read_cosmos, Cosmos, CosmosReport};
use kannaka_tui::harness::{AgentLine, Harness, HarnessStatus, PendingApproval};
use kannaka_tui::palette::Color;
use kannaka_tui::payload::{format_bus_ts, read_bus_line, BusLine, DreamEvent};
use kannaka_tui::reports::{message, status_report, Capture, MemoryEntry, Role};
use kannaka_tui::view::bus::{bus_label, bus_rows, bus_title};
use kannaka_tui::view::chat::{chat_rows, chat_title, spinner};
use kannaka_tui::view::constellation::{
    fresh, placeholder, plot_label, plot_title, shade, table_rows, waiting_rows, AgentFigures,
};
use kannaka_tui::view::cosmos::{app_rows, cosmos_keys, count_up, radio_rows};
use kannaka_tui::view::dreams::{dream_keys, history_rows, history_title, run_panel, Change};
use kannaka_tui::view::frame::{
    approval_box, cursor_column, header_row, help_box, input_row, tab_mark, tab_title, Area, Figures,
};
use kannaka_tui::view::harness::{
    agent_title, approval_rows, box_color, question, strip_row, transcript_rows,
};
use kannaka_tui::view::help::{help_rows, mark_style, marked};
use kannaka_tui::view::memory::{amplitude_bar, log_rows, memory_rows, AmplitudeMark};
use kannaka_tui::view::rows::{bold, ink, keycap, plain, Row};
use kannaka_tui::view::status::{gauges, info_rows, loading_row};

const SECOND: u64 = 1_000_000_000;

fn t(x: &str) -> String {
    x.to_string()
}

fn words(r: &Row) -> String {
    r.spans.iter().map(|s| s.text.as_str()).collect()
}

fn all(rows: &[Row]) -> Vec<String> {
    rows.iter().map(words).collect()
}

fn figures() -> Figures {
    Figures { phi: t("0.500"), xi: t("0.250"), order: t("1.000"), phi_color: Color::Warning }
}

#[test]
fn the_frame_around_the_tabs() {
    let r = header_row("Ann", &figures());
    assert_eq!(words(&r), "  KANNAKA \u{25c6} Ann | Phi: 0.500 | Xi: 0.250 | r: 1.000");
    assert_eq!(r.spans[5].style, ink(Color::Warning));
    assert_eq!(tab_title(Tab::Constellation), "Constellation");
    assert_eq!(tab_mark(Tab::Cosmos), " [Co] ");
    assert_eq!(words(&input_row("abc")), " > abc");
}

#[test]
fn the_cursor_stays_in_the_bar() {
    assert_eq!(cursor_column(0, 80, 0), 4);
    assert_eq!(cursor_column(2, 80, 10), 16);
    assert_eq!(cursor_column(0, 80, 500), 78);
    assert_eq!(cursor_column(0, 1, 0), 0);
    assert_eq!(cursor_column(0, 80, 65_536), 4);
}

#[test]
fn boxes_lie_in_the_middle() {
    let b = approval_box(Area { x: 10, y: 5, width: 100, height: 30 });
    assert_eq!(b, Area { x: 24, y: 14, width: 72, height: 11 });
    let b = approval_box(Area { x: 0, y: 0, width: 20, height: 6 });
    assert_eq!(b, Area { x: 2, y: 1, width: 16, height: 4 });
    let b = approval_box(Area { x: 3, y: 3, width: 2, height: 1 });
    assert_eq!((b.width, b.height), (0, 0));
    assert_eq!(help_box(120, 80), Area { x: 20, y: 8, width: 80, height: 63 });
    assert_eq!(help_box(81, 24), Area { x: 2, y: 2, width: 77, height: 20 });
}

#[test]
fn the_log_and_the_memories() {
    let log: Vec<_> = (0..5).map(|i| message(Role::User, &i.to_string())).collect();
    assert_eq!(all(&log_rows(&log, 0, 2)), vec!["> 3", "> 4"]);
    assert_eq!(all(&log_rows(&log, 1, 2)), vec!["> 2", "> 3"]);
    assert_eq!(all(&log_rows(&log, 4, 9)), vec!["> 0"]);
    assert!(log_rows(&log, 9, 9).is_empty());
    let kinds = vec![
        message(Role::System, "a"),
        message(Role::Result, "b"),
        message(Role::Error, "c"),
    ];
    assert_eq!(all(&log_rows(&kinds, 0, 9)), vec!["\u{2192} a", "\u{2713} b", "\u{2717} c"]);
    assert_eq!(amplitude_bar(3), "\u{2588}\u{2588}\u{2588}\u{2591}\u{2591}\u{2591}\u{2591}\u{2591}\u{2591}\u{2591}");
    assert_eq!(amplitude_bar(12), "\u{2588}".repeat(10));
    let memories = vec![
        MemoryEntry { content: "m".repeat(25), amplitude: None },
        MemoryEntry { content: t("n"), amplitude: None },
    ];
    let mark = |text: &str| AmplitudeMark { tenths: 10, color: Color::Accent, text: t(text) };
    let marks = vec![mark("1.00"), mark("0.95")];
    let rows = memory_rows(&memories, &marks, &None, 7);
    let full = "\u{2588}".repeat(10);
    assert_eq!(
        all(&rows),
        vec![
            format!("{full} {} (1.00)", "m".repeat(24)),
            t(""),
            t("  Memories: 0"),
            t("  Clusters: 0"),
            t("  Links: 0"),
            t("  Level: Unknown"),
        ]
    );
    assert_eq!(memory_rows(&memories, &marks, &None, 3).len(), 5);
}

#[test]
fn the_status() {
    let g = gauges(&figures());
    assert_eq!(g[0].0, " Phi (Integrated Information): 0.500 ");
    assert_eq!(g[0].1, Color::Warning);
    assert_eq!(g[1].0, " Xi (Irrationality): 0.250 ");
    assert_eq!(g[2].0, " Order Parameter (r): 1.000 ");
    let s = status_report(Capture::Exit {
        success: true,
        stdout: t(r#"{"phi":1,"total_memories":12,"num_clusters":3,"active_memories":9,"consciousness_level":"Resonant"}"#),
        stderr: t(""),
    });
    let rows = info_rows(&s.ok().unwrap());
    assert_eq!(
        all(&rows),
        vec![
            "",
            "  Consciousness Level: Resonant",
            "",
            "  Total Memories:  12",
            "  Active Memories: 9",
            "  Clusters:        3",
            "  Skip Links:      0",
            "",
            "  Polling every 5s on this tab",
        ]
    );
    assert_eq!(rows[1].spans[1].style, bold(Color::Success));
}

#[test]
fn the_bus_newest_last() {
    let line = |i: i64| BusLine { ts_ms: 0, subject: t("KAX.x"), summary: i.to_string() };
    let lines: Vec<_> = (0..4).map(line).collect();
    let rows = bus_rows(&lines, 2);
    let pad = " ".repeat(23);
    assert_eq!(all(&rows), vec![format!("         KAX.x{pad} 2"), format!("         KAX.x{pad} 3")]);
    assert_eq!(rows[0].spans[1].style, bold(Color::Rgb(100, 200, 255)));
    assert_eq!(bus_rows(&lines, 0).len(), 1);
    let timed = vec![BusLine { ts_ms: 1_765_400_000_000, subject: "s".repeat(30), summary: t("x") }];
    let row = &bus_rows(&timed, 1)[0];
    let ts = format_bus_ts(1_765_400_000_000);
    assert_eq!(words(row), format!("{ts} {}\u{2026} x", "s".repeat(27)));
    let mut b = Bus::new();
    assert_eq!(bus_title(&b), " Bus \u{b7} idle \u{2014} switch to this tab to start \u{b7} 0 msgs ");
    b.status = BusStatus::Failed;
    assert_eq!(bus_label(b.status), ("failed \u{2014} check `kannaka swarm tail` manually", Color::Error));
    assert_eq!(bus_label(BusStatus::Connecting), ("connecting\u{2026}", Color::Warning));
    assert_eq!(bus_label(BusStatus::Streaming), ("streaming", Color::Success));
}

#[test]
fn the_chat() {
    let mut c = Chat::new();
    c.messages = vec![
        ChatLine { who: ChatWho::User, text: t("hi") },
        ChatLine { who: ChatWho::Kannaka, text: t("ho") },
        ChatLine { who: ChatWho::System, text: t("..") },
    ];
    assert_eq!(
        all(&chat_rows(&c, 0, 20)),
        vec!["you hi", "", "kannaka ho", "", "\u{b7} ..", ""]
    );
    c.pending = true;
    c.tick = 6;
    assert_eq!(all(&chat_rows(&c, 0, 2)), vec!["", "kannaka | resonating\u{2026}"]);
    assert_eq!(all(&chat_rows(&c, 4, 2)), vec!["", "kannaka ho"]);
    let turns: Vec<&str> = (0..5).map(spinner).collect();
    assert_eq!(turns, vec!["\u{2014}", "\\", "|", "/", "\u{2014}"]);
    assert_eq!(chat_title(true), " Chat \u{b7} thinking\u{2026} ");
    assert_eq!(chat_title(false), " Chat ");
}

fn dream(agent_id: &str, emerged: bool) -> DreamEvent {
    DreamEvent {
        ts_ms: 0,
        agent_id: t(agent_id),
        cycles: 3,
        strengthened: 12,
        pruned: 4,
        new_connections: 7,
        hallucinations: 1,
        consciousness_before: None,
        consciousness_after: None,
        emerged,
    }
}

#[test]
fn the_dreams() {
    let idle = run_panel(&DreamRun::Idle, 0, "");
    assert_eq!((idle.title, idle.color), (" Local Dream \u{b7} idle ", Color::Dim));
    assert_eq!(
        all(&idle.rows),
        vec!["  Press 'd' for deep, 'l' for lite \u{2014} or type `dream` in the bar."]
    );
    let run = DreamRun::Running { mode: t("deep"), started: SECOND };
    let p = run_panel(&run, 4 * SECOND - 1, "");
    assert_eq!(words(&p.rows[0]), "  Mode: deep    elapsed: 2s");
    let done = DreamRun::Done { mode: t("lite"), took: 0, summary: format!("a\nb{}", "c".repeat(300)) };
    let p = run_panel(&done, 0, "1.5");
    assert_eq!(words(&p.rows[0]), "  Mode: lite    took: 1.5s");
    assert_eq!(words(&p.rows[1]), format!("  a \u{b7} b{}\u{2026}", "c".repeat(194)));
    let failed = DreamRun::Failed { mode: t("deep"), error: t("bad") };
    let p = run_panel(&failed, 0, "");
    assert_eq!(p.color, Color::Error);
    assert_eq!(all(&p.rows), vec!["  Mode: deep", "  bad"]);

    let change = || Change { text: t("+0.125"), color: Color::Success };
    let dreams = vec![dream("kannaka-01-long-name", true), dream("b", false)];
    let changes = vec![change(), change()];
    let rows = history_rows(&dreams, &changes, 9);
    assert_eq!(rows.len(), 4);
    assert_eq!(
        words(&rows[0]),
        "  time     agent           cycles  +\u{3a6}    \u{394}str  \u{394}prn  \u{394}new  halluc"
    );
    assert_eq!(
        words(&rows[2]),
        "\u{2605}          kannaka-01-lo\u{2026}      3  +0.125    12      4      7      1"
    );
    assert_eq!(rows[2].spans[4].style, ink(Color::Success));
    assert_eq!(history_rows(&dreams, &changes, 0).len(), 3);
    let none = history_rows(&Vec::new(), &Vec::new(), 9);
    assert_eq!(words(&none[3]), "  finishes a dream cycle, the report shows up here.");
    assert_eq!(history_title(2), " Recent Dreams \u{b7} 2 ");
    assert_eq!(words(&dream_keys()), " d  deep dream   l  lite dream   \u{2605}  emergence detected ");
}

#[test]
fn the_constellation() {
    assert_eq!(words(&waiting_rows(BusStatus::Off)[3]), "  Waiting for the bus to start\u{2026}");
    assert_eq!(
        words(&waiting_rows(BusStatus::Streaming)[3]),
        "  Streaming \u{2014} no agents have reported phase yet"
    );
    assert_eq!(waiting_rows(BusStatus::Failed).len(), 8);
    assert_eq!(plot_title(1), " Constellation \u{b7} 1 agent ");
    assert_eq!(plot_title(3), " Constellation \u{b7} 3 agents ");
    let frame = read_bus_line(
        r#"{"subject":"QUEEN.phase.kannaka-0123456789","payload":{"handedness":"left","memory_count":42}}"#,
        0,
    );
    let agents = vec![frame.unwrap().agent.unwrap()];
    let f = || AgentFigures { phi: t("0.500"), theta: t("1.57"), r: t("0.90"), phi_color: Color::Error };
    assert!(fresh(&agents[0], 120 * SECOND - 1) && !fresh(&agents[0], 120 * SECOND));
    assert_eq!(shade(&agents[0], 0, Color::Error), Color::Rgb(255, 120, 120));
    assert_eq!(shade(&agents[0], 120 * SECOND, Color::Error), Color::Dim);
    assert_eq!(plot_label(&agents[0]), "kannaka-01234\u{2026}");
    let rows = table_rows(&agents, &vec![f()], 0);
    assert_eq!(
        all(&rows),
        vec![
            "  agent           \u{3a6}     \u{3b8}     r    mem",
            "  kannaka-01234\u{2026} 0.500  1.57 0.90    42",
        ]
    );
    let stale = table_rows(&agents, &vec![f()], 200 * SECOND);
    assert!(words(&stale[1]).starts_with("\u{b7} kannaka"));
}

#[test]
fn the_cosmos() {
    assert_eq!(all(&radio_rows(&Vec::new())), vec!["  radio offline or not yet polled"]);
    let rows = radio_rows(&vec![t("song"), t("station")]);
    assert_eq!(all(&rows), vec!["  song", "  station"]);
    assert_eq!(rows[0].spans[0].style, bold(Color::Rgb(255, 100, 200)));
    assert_eq!(rows[1].spans[0].style, ink(Color::Dim));
    let mut c = Cosmos::new();
    assert_eq!(
        all(&app_rows(&c)),
        vec!["  no constellation data \u{2014} press 'r' to refresh"]
    );
    c.pending = true;
    assert_eq!(all(&app_rows(&c)), vec!["  polling kannaka constellation\u{2026}"]);
    c.error = Some(t("no"));
    assert_eq!(all(&app_rows(&c)), vec!["  no"]);
    c.error = None;
    let found = read_cosmos(Some(t("\u{2713} A https://a\n\u{2717} B\n")), None);
    if let CosmosReport::Found { apps, .. } = found {
        c.apps = apps;
    }
    assert_eq!(count_up(&c.apps), 1);
    let pad = " ".repeat(23);
    assert_eq!(
        all(&app_rows(&c)),
        vec![
            t("  1/2 apps up"),
            t(""),
            format!("  \u{2713} A{pad} https://a"),
            format!("  \u{2717} B{pad} "),
        ]
    );
    assert_eq!(words(&cosmos_keys(false)), " r  refresh   \u{2713} up   \u{2717} down   idle ");
    assert!(words(&cosmos_keys(true)).ends_with(" polling\u{2026} "));
}

#[test]
fn the_agent() {
    let mut h = Harness::new();
    h.lines = vec![AgentLine::User(t("do")), AgentLine::Assistant(t("a\nb")), AgentLine::Notice(t("n"))];
    assert_eq!(
        all(&transcript_rows(&h, 0, 9)),
        vec!["you \u{25b8} do", "kannaka a", "        b", "\u{b7} n"]
    );
    assert_eq!(all(&transcript_rows(&h, 1, 0)), vec!["        b"]);
    h.lines.clear();
    h.apply_agent_event(AgentEvent::ToolUse {
        id: t("1"),
        name: t("bash"),
        summary: "s".repeat(90),
        read_only: false,
        danger: true,
    });
    let rows = transcript_rows(&h, 0, 9);
    assert_eq!(
        words(&rows[0]),
        format!("  \u{2699} bash {}\u{2026} \u{26a0}  (awaiting approval)", "s".repeat(87))
    );
    assert_eq!(rows[0].spans[0].style, ink(Color::Warning));
    h.apply_agent_event(AgentEvent::ToolResult { id: t("1"), content: t("1\n2\n3\n4\n5\n6\n7\n8"), is_error: true });
    let rows = transcript_rows(&h, 0, 20);
    assert_eq!(rows.len(), 8);
    assert_eq!(words(&rows[6]), "      6");
    assert_eq!(words(&rows[7]), "      \u{2026} (+2 more lines)");
    assert_eq!(rows[0].spans[0].style, ink(Color::Error));
    h.status = HarnessStatus::Starting;
    h.tick = 1;
    assert_eq!(all(&transcript_rows(&h, 0, 1)), vec!["kannaka \\ loading HRM\u{2026}"]);
    h.status = HarnessStatus::Thinking;
    assert_eq!(all(&transcript_rows(&h, 0, 1)), vec!["kannaka \\ working\u{2026}"]);
    assert_eq!(agent_title(HarnessStatus::AwaitingApproval), " Agent \u{b7} needs approval ");
    h.usage_in = 12;
    assert_eq!(
        words(&strip_row(&h)),
        " mode default \u{2502} model (config) \u{2502} tokens \u{2191}12 \u{2193}0 \u{2502} Esc or /stop to cancel \u{2502} Ctrl+C quit"
    );
    h.status = HarnessStatus::Ready;
    assert!(words(&strip_row(&h)).ends_with("Enter run \u{2502} /stop /mode /yolo /plan /clear /model /qos /help"));
}

#[test]
fn a_request_is_shown_with_its_danger() {
    let p = |danger: bool| PendingApproval { id: t("1"), name: t("bash"), summary: t("ls"), danger };
    let rows = approval_rows(&p(false));
    assert_eq!(
        all(&rows),
        vec![
            "",
            "  tool  bash",
            "  cmd   ls",
            "",
            "   a  allow once    s  allow always    d  deny (Esc) ",
        ]
    );
    assert_eq!(rows[4].spans[0].style, keycap(Color::Success));
    let rows = approval_rows(&p(true));
    assert_eq!(words(&rows[3]), "  \u{26a0} destructive command \u{2014} review carefully");
    assert_eq!(box_color(true), Color::Error);
    assert_eq!(box_color(false), Color::Warning);
}

#[test]
fn the_help() {
    let rows = help_rows("0.1.0");
    assert_eq!(rows.len(), 56);
    assert_eq!(words(&rows[0]), " Kannaka TUI \u{b7} v0.1.0");
    assert!(rows[1].spans.is_empty());
    assert_eq!(words(&rows[2]), " Tabs");
    assert_eq!(words(&rows[3]), "   Memory        Command history + recent resonant memories");
    assert_eq!(rows[3].spans[0].style, ink(Color::Text));
    assert_eq!(words(rows.last().unwrap()), " Press any key to close");
    let r = marked("^k   a^d / ^x!");
    assert_eq!(words(&r), "   a / !");
    assert_eq!(r.spans[0].style, mark_style('k'));
    assert_eq!(r.spans[2].style, plain());
}

#[test]
fn what_stands_in_place_of_what_is_not_there() {
    assert_eq!(
        words(&loading_row(&None).unwrap()),
        "Loading status... (polling kannaka status)"
    );
    let status = status_report(Capture::Exit {
        success: true,
        stdout: t(r#"{"phi":1}"#),
        stderr: t(""),
    });
    assert!(loading_row(&status.ok()).is_none());
    let mut b = Bus::new();
    assert_eq!(placeholder(&b).unwrap().len(), 8);
    let frame = read_bus_line(r#"{"subject":"QUEEN.phase.a","payload":{}}"#, 0);
    b.poll_bus(vec![frame.unwrap()], false, 0);
    assert!(placeholder(&b).is_none());
    let mut h = Harness::new();
    assert!(question(&h).is_none());
    h.apply_agent_event(AgentEvent::ApprovalRequired {
        id: t("1"),
        name: t("bash"),
        summary: t("rm x"),
        danger: true,
    });
    let (tone, rows) = question(&h).unwrap();
    assert_eq!(tone, Color::Error);
    assert_eq!(words(&rows[2]), "  cmd   rm x");
}
