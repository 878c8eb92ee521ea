//! What holds of the screens: what stands on them of what they show.

use vstd::prelude::*;
use crate::bus::{BusModel, BusStatus, DreamRunModel};
use crate::chat::{ChatLineModel, ChatModel, ChatWho};
use crate::cosmos::{CosmosAppModel, CosmosModel};
use crate::harness::{ApprovalModel, HarnessModel, HarnessStatus, LineModel};
use crate::app::Tab;
use crate::palette::{
    handed_color, lowercase_of, lowered_level_color, mode_color_of, parts_of, subject_color, Color,
};
use crate::payload::{BusLineModel, DreamModel, SnapshotModel};
use crate::reports::{MemoryModel, MessageModel, Role, StatusModel};
use crate::laws::words::law_pieces_make_up_the_text;
use crate::text::{cut, decimal, left_in, pieces, replace_all, right_in, starts};
use crate::view::bus::{bus_label_of, bus_lines_of, bus_row_of};
use crate::view::chat::{chat_rows_of, conversation_of, spinner_of};
use crate::view::constellation::{
    agent_row_of, placeholder_of, plot_title_of, shade_of, waiting_of, AgentFigures,
};
use crate::view::cosmos::{app_row_of, apps_of, cosmos_keys_of, radio_of, up_count};
use crate::view::dreams::{dream_row_of, run_panel_of, shown_dreams, Change};
use crate::view::frame::{
    box_in, cursor_column_of, header_of, tab_mark_of, tab_name, Area, Figures,
};
use crate::view::help::{help_of, mark_style, marked_row, HELP};
use crate::view::harness::{
    agent_title_of, answer_of, approval_of, call_of, entries_of, entry_of, question_of, result_of,
    strip_of, transcript_of,
};
use crate::view::memory::{
    bar_of, counts_of, log_of, memories_of, memory_row_of, message_row_of, AmplitudeMark,
};
use crate::view::rows::{seen, SpanModel, Style};
use crate::view::status::{gauges_of, info_of, loading_of};

verus! {

/// A text in a colour.
pub open spec fn tinted(text: Seq<char>, c: Color) -> SpanModel {
    SpanModel { text, style: Style { fg: Some(c), bg: None, bold: false } }
}

/// A bold text in a colour.
pub open spec fn strong(text: Seq<char>, c: Color) -> SpanModel {
    SpanModel { text, style: Style { fg: Some(c), bg: None, bold: true } }
}

/// The header names the agent and shows each figure behind its label.
pub proof fn law_header_shows_the_figures(name: Seq<char>, f: Figures)
    ensures
        ({
            let r = header_of(name, f);
            &&& r.len() == 12
            &&& r[2] == strong(name, Color::Text)
            &&& r[4] == tinted("Phi: "@, Color::Dim) && r[5] == tinted(f.phi@, f.phi_color)
            &&& r[7] == tinted("Xi: "@, Color::Dim) && r[8] == tinted(f.xi@, Color::Info)
            &&& r[10] == tinted("r: "@, Color::Dim) && r[11] == tinted(f.order@, Color::Success)
        }),
{
}

/// Each tab has its own name and its own mark.
pub proof fn law_tabs_have_their_names()
    ensures
        tab_name(Tab::Memory) == "Memory"@ && tab_mark_of(Tab::Memory) == " [M] "@,
        tab_name(Tab::Status) == "Status"@ && tab_mark_of(Tab::Status) == " [S] "@,
        tab_name(Tab::Bus) == "Bus"@ && tab_mark_of(Tab::Bus) == " [B] "@,
        tab_name(Tab::Constellation) == "Constellation"@ && tab_mark_of(Tab::Constellation)
            == " [C] "@,
        tab_name(Tab::Dreams) == "Dreams"@ && tab_mark_of(Tab::Dreams) == " [D] "@,
        tab_name(Tab::Chat) == "Chat"@ && tab_mark_of(Tab::Chat) == " [Ch] "@,
        tab_name(Tab::Cosmos) == "Cosmos"@ && tab_mark_of(Tab::Cosmos) == " [Co] "@,
        tab_name(Tab::Agent) == "Agent"@ && tab_mark_of(Tab::Agent) == " [Ag] "@,
{
}

/// The cursor stands behind the prompt and what is before it, as far as the bar goes.
pub proof fn law_cursor_stands_behind_the_text(x: u16, width: u16, cursor: usize)
    requires
        cursor < 65536,
        width >= 2,
        x + width <= u16::MAX,
    ensures
        4 + cursor <= width - 2 ==> cursor_column_of(x, width, cursor) == x + 4 + cursor,
        4 + cursor > width - 2 ==> cursor_column_of(x, width, cursor) == x + width - 2,
{
}

/// A box has the size that was asked for where it fits, stands as far from the left as from
/// the right and as far from the top as from the bottom, give or take one.
pub proof fn law_box_has_its_size(area: Area, width: u16, height: u16, across: u16, down: u16)
    requires
        width + across <= area.width,
        height + down <= area.height,
        area.x + area.width <= u16::MAX,
        area.y + area.height <= u16::MAX,
    ensures
        ({
            let b = box_in(area, width, height, across, down);
            let left = b.x - area.x;
            let right = (area.x + area.width) - (b.x + b.width);
            let top = b.y - area.y;
            let bottom = (area.y + area.height) - (b.y + b.height);
            &&& b.width == width && b.height == height
            &&& left <= right <= left + 1
            &&& top <= bottom <= top + 1
        }),
{
}

/// The status shows each figure behind its own label.
pub proof fn law_status_shows_the_figures(s: StatusModel, f: Figures)
    ensures
        info_of(s).len() == 9,
        info_of(s)[1] == seq![
            tinted("  Consciousness Level: "@, Color::Dim),
            strong(s.level, lowered_level_color(lowercase_of(s.level))),
        ],
        info_of(s)[3] == seq![
            tinted("  Total Memories:  "@, Color::Dim),
            tinted(decimal(s.memories as nat), Color::Text),
        ],
        info_of(s)[4] == seq![
            tinted("  Active Memories: "@, Color::Dim),
            tinted(decimal(s.active as nat), Color::Success),
        ],
        info_of(s)[5] == seq![
            tinted("  Clusters:        "@, Color::Dim),
            tinted(decimal(s.clusters as nat), Color::Info),
        ],
        info_of(s)[6] == seq![
            tinted("  Skip Links:      "@, Color::Dim),
            tinted(decimal(s.links as nat), Color::Accent),
        ],
        gauges_of(f).len() == 3,
        gauges_of(f)[0] == (" Phi (Integrated Information): "@ + f.phi@ + " "@, f.phi_color),
        gauges_of(f)[1] == (" Xi (Irrationality): "@ + f.xi@ + " "@, Color::Info),
        gauges_of(f)[2] == (" Order Parameter (r): "@ + f.order@ + " "@, Color::Success),
        loading_of(Some(s)) is None,
        loading_of(None) == Some(
            seq![tinted("Loading status... (polling kannaka status)"@, Color::Dim)],
        ),
{
}

/// A message stands behind the mark of its role, whole.
pub proof fn law_message_stands_behind_its_mark(content: Seq<char>)
    ensures
        message_row_of(MessageModel { role: Role::User, content }) == seq![
            tinted("> "@, Color::Accent),
            tinted(content, Color::Accent),
        ],
        message_row_of(MessageModel { role: Role::System, content }) == seq![
            tinted("\u{2192} "@, Color::Info),
            tinted(content, Color::Info),
        ],
        message_row_of(MessageModel { role: Role::Result, content }) == seq![
            tinted("\u{2713} "@, Color::Success),
            tinted(content, Color::Success),
        ],
        message_row_of(MessageModel { role: Role::Error, content }) == seq![
            tinted("\u{2717} "@, Color::Error),
            tinted(content, Color::Error),
        ],
{
}

/// What is seen of rows is what fits, up to the row that the scroll goes back to; without a
/// scroll it is the end.
pub proof fn law_window_ends_where_it_was_scrolled<T>(s: Seq<T>, scroll: nat, height: nat)
    ensures
        scroll >= s.len() ==> seen(s, scroll, height).len() == 0,
        scroll < s.len() && s.len() - scroll <= height ==> seen(s, scroll, height) == s.take(
            s.len() - scroll,
        ),
        scroll < s.len() && s.len() - scroll > height ==> seen(s, scroll, height) == s.subrange(
            s.len() - scroll - height,
            s.len() - scroll,
        ),
{
    if scroll >= s.len() {
        assert(s.take(0).len() == 0);
    } else if s.len() - scroll > height {
        assert(seen(s, scroll, height) =~= s.subrange(
            s.len() - scroll - height,
            s.len() - scroll,
        ));
    }
}

/// The log shows the last messages that fit, each in its own row.
pub proof fn law_log_shows_the_last_messages(ms: Seq<MessageModel>, height: nat, i: int)
    requires
        height <= ms.len(),
        0 <= i < height,
    ensures
        log_of(ms, 0, height).len() == height,
        log_of(ms, 0, height)[i] == message_row_of(ms[ms.len() - height + i]),
{
    let rows = ms.map_values(|m: MessageModel| message_row_of(m));
    law_window_ends_where_it_was_scrolled(rows, 0, height);
    assert(rows.take(rows.len() as int) =~= rows);
}

/// The bar of a memory has as many full cells as its amplitude has tenths, of ten.
pub proof fn law_bar_has_ten_cells(tenths: nat, i: int)
    requires
        0 <= i < 10,
    ensures
        bar_of(tenths).len() == 10,
        i < tenths ==> bar_of(tenths)[i] == '\u{2588}',
        i >= tenths ==> bar_of(tenths)[i] == '\u{2591}',
{
}

/// The memories are shown in their order, as many as there is room for over the counts,
/// which take six rows; each with its bar, the first 24 characters of its text and its
/// amplitude.
pub proof fn law_memories_are_shown(
    memories: Seq<MemoryModel>,
    marks: Seq<AmplitudeMark>,
    s: Option<StatusModel>,
    height: nat,
    i: int,
)
    requires
        marks.len() == memories.len(),
        0 <= i < memories.len(),
        i + 6 < height,
    ensures
        memories_of(memories, marks, s, height)[i].len() == 3,
        memories_of(memories, marks, s, height)[i][0] == tinted(
            bar_of(marks[i].tenths as nat),
            marks[i].color,
        ),
        memories_of(memories, marks, s, height)[i][2] == tinted(
            (if memories[i].content.len() <= 24 {
                memories[i].content
            } else {
                memories[i].content.take(24)
            }) + " ("@ + marks[i].text@ + ")"@,
            Color::Text,
        ),
{
    assert(memories_of(memories, marks, s, height)[i] == memory_row_of(memories[i], marks[i]));
}

/// The counts stand behind their labels; without a status they are 0.
pub proof fn law_counts_are_shown(s: StatusModel)
    ensures
        counts_of(Some(s)).len() == 5,
        counts_of(Some(s))[1] == seq![
            tinted("  Memories: "@ + decimal(s.memories as nat), Color::Dim),
        ],
        counts_of(Some(s))[2] == seq![
            tinted("  Clusters: "@ + decimal(s.clusters as nat), Color::Dim),
        ],
        counts_of(Some(s))[3] == seq![tinted("  Links: "@ + decimal(s.links as nat), Color::Dim)],
        counts_of(Some(s))[4] == seq![
            tinted("  Level: "@ + s.level, lowered_level_color(lowercase_of(s.level))),
        ],
        counts_of(None)[1] == seq![tinted("  Memories: "@ + decimal(0), Color::Dim)],
        counts_of(None)[2] == seq![tinted("  Clusters: "@ + decimal(0), Color::Dim)],
        counts_of(None)[3] == seq![tinted("  Links: "@ + decimal(0), Color::Dim)],
{
}

/// A line of the bus has its time, its subject in its column and its summary; the last lines
/// that fit are shown.
pub proof fn law_bus_lines_are_shown(
    l: BusLineModel,
    ts: Seq<char>,
    lines: Seq<BusLineModel>,
    height: nat,
)
    ensures
        bus_row_of(l, ts) == seq![
            tinted(ts + " "@, Color::Dim),
            strong(left_in(cut(l.subject, 28), 28) + " "@, subject_color(l.subject)),
            tinted(l.summary, Color::Text),
        ],
        lines.len() <= height ==> bus_lines_of(lines, height) == lines,
        0 < height < lines.len() ==> bus_lines_of(lines, height) == lines.skip(
            lines.len() - height,
        ),
        bus_label_of(BusStatus::Connecting) == ("connecting\u{2026}"@, Color::Warning),
        bus_label_of(BusStatus::Streaming) == ("streaming"@, Color::Success),
        bus_label_of(BusStatus::Failed).1 == Color::Error,
        bus_label_of(BusStatus::Off).1 == Color::Dim,
{
    if lines.len() <= height {
        assert(bus_lines_of(lines, height) =~= lines);
    }
}

/// The conversation is shown line by line, in its order, each behind who said it, with a
/// blank row behind it; a pending turn has a row of its own at the end.
pub proof fn law_conversation_is_shown(ls: Seq<ChatLineModel>, l: ChatLineModel, c: ChatModel)
    ensures
        conversation_of(Seq::empty()).len() == 0,
        conversation_of(ls.push(l)).len() == conversation_of(ls).len() + 2,
        conversation_of(ls.push(l)).take(conversation_of(ls).len() as int) == conversation_of(ls),
        conversation_of(ls.push(l)).last().len() == 0,
        ({
            let row = conversation_of(ls.push(l))[conversation_of(ls).len() as int];
            &&& row.len() == 2 && row[1] == tinted(l.text, Color::Text)
            &&& l.who == ChatWho::User ==> row[0] == strong("you "@, Color::Info)
            &&& l.who == ChatWho::Kannaka ==> row[0] == strong("kannaka "@, Color::Accent)
            &&& l.who == ChatWho::System ==> row[0] == tinted("\u{b7} "@, Color::Dim)
        }),
        !c.pending ==> chat_rows_of(c) == conversation_of(c.messages),
        c.pending ==> chat_rows_of(c) == conversation_of(c.messages).push(
            seq![
                tinted("kannaka "@ + spinner_of(c.tick) + " "@, Color::Accent),
                tinted("resonating\u{2026}"@, Color::Dim),
            ],
        ),
{
    assert(ls.push(l).drop_last() =~= ls);
    assert(conversation_of(ls.push(l)).take(conversation_of(ls).len() as int) =~= conversation_of(
        ls,
    ));
    if !c.pending {
        assert(chat_rows_of(c) =~= conversation_of(c.messages));
    } else {
        assert(chat_rows_of(c) =~= conversation_of(c.messages).push(
            seq![
                tinted("kannaka "@ + spinner_of(c.tick) + " "@, Color::Accent),
                tinted("resonating\u{2026}"@, Color::Dim),
            ],
        ));
    }
}

/// The spinner goes round in four steps.
pub proof fn law_spinner_goes_round(tick: usize)
    requires
        tick < usize::MAX - 4,
    ensures
        spinner_of((tick + 4) as usize) == spinner_of(tick),
        tick % 4 == 0 ==> spinner_of(tick) == "\u{2014}"@ && spinner_of((tick + 1) as usize)
            == "\\"@ && spinner_of((tick + 2) as usize) == "|"@ && spinner_of((tick + 3) as usize)
            == "/"@,
{
}

/// What the agent says is shown line by line, whole, the first behind its name.
pub proof fn law_answer_is_shown_line_by_line(text: Seq<char>, i: int)
    requires
        0 <= i < pieces(text, '\n').len(),
    ensures
        answer_of(text).len() == pieces(text, '\n').len(),
        i == 0 ==> answer_of(text)[0] == seq![
            strong("kannaka "@, Color::Accent),
            tinted(pieces(text, '\n')[0], Color::Text),
        ],
        i > 0 ==> answer_of(text)[i] == seq![
            tinted("        "@ + pieces(text, '\n')[i], Color::Text),
        ],
{
}

/// A call shows its tool and what it is about; a mark stands on it exactly where it is
/// dangerous, and a note exactly where it awaits a decision. Its colour tells whether it
/// failed, waits or is done.
pub proof fn law_call_shows_its_state(
    name: Seq<char>,
    summary: Seq<char>,
    danger: bool,
    is_error: bool,
    awaiting: bool,
)
    ensures
        ({
            let r = call_of(name, summary, danger, is_error, awaiting);
            &&& r[1] == strong(name, Color::Info)
            &&& r[2] == tinted(" "@ + cut(summary, 88), Color::Dim)
            &&& r[0].text == "  \u{2699} "@
            &&& is_error ==> r[0] == tinted("  \u{2699} "@, Color::Error)
            &&& !is_error && awaiting ==> r[0] == tinted("  \u{2699} "@, Color::Warning)
            &&& !is_error && !awaiting ==> r[0] == tinted("  \u{2699} "@, Color::Success)
            &&& danger ==> r[3] == tinted(" \u{26A0}"@, Color::Error)
            &&& awaiting ==> r.last() == strong("  (awaiting approval)"@, Color::Warning)
            &&& r.len() == 3 + (if danger {
                1int
            } else {
                0
            }) + (if awaiting {
                1int
            } else {
                0
            })
        }),
{
}

/// The first six lines of a result are shown, up to 104 characters each, in the colour of an
/// error exactly where it is one; one more row tells how many lines there are besides.
pub proof fn law_result_shows_six_lines(text: Seq<char>, is_error: bool, i: int)
    requires
        0 <= i < pieces(text, '\n').len(),
        i < 6,
    ensures
        ({
            let lines = pieces(text, '\n');
            let r = result_of(text, is_error);
            &&& is_error ==> r[i] == seq![tinted("      "@ + cut(lines[i], 104), Color::Error)]
            &&& !is_error ==> r[i] == seq![tinted("      "@ + cut(lines[i], 104), Color::Dim)]
            &&& lines.len() <= 6 ==> r.len() == lines.len()
            &&& lines.len() > 6 ==> r.len() == 7 && r[6] == seq![
                tinted(
                    "      \u{2026} (+"@ + decimal((lines.len() - 6) as nat) + " more lines)"@,
                    Color::Dim,
                ),
            ]
        }),
{
}

/// An entry of the transcript is shown as what it is: a turn of the user, an answer, a call
/// with its result behind it, or a notice; all of them in their order.
pub proof fn law_entries_are_shown_in_order(ls: Seq<LineModel>, l: LineModel, t: Seq<char>)
    ensures
        entries_of(Seq::empty()).len() == 0,
        entries_of(ls.push(l)) == entries_of(ls) + entry_of(l),
        entry_of(LineModel::User(t)) == seq![
            seq![strong("you \u{25B8} "@, Color::Info), tinted(t, Color::Text)],
        ],
        entry_of(LineModel::Assistant(t)) == answer_of(t),
        entry_of(LineModel::Notice(t)) == seq![seq![tinted("\u{b7} "@ + t, Color::Dim)]],
        l is Tool ==> entry_of(l)[0] == call_of(
            l->Tool_name,
            l->Tool_summary,
            l->Tool_danger,
            l->Tool_is_error,
            l->Tool_awaiting,
        ),
        l is Tool && l->Tool_result is None ==> entry_of(l).len() == 1,
        l is Tool && l->Tool_result is Some ==> entry_of(l).skip(1) == result_of(
            l->Tool_result->Some_0,
            l->Tool_is_error,
        ),
{
    assert(ls.push(l).drop_last() =~= ls);
    if l is Tool && l->Tool_result is Some {
        assert(entry_of(l).skip(1) =~= result_of(l->Tool_result->Some_0, l->Tool_is_error));
    }
}

/// A busy agent has a row of its own at the end of the transcript, which tells whether it
/// starts or works; another has none.
pub proof fn law_busy_agent_is_shown(h: HarnessModel)
    ensures
        ({
            let busy = h.status == HarnessStatus::Thinking || h.status == HarnessStatus::Starting;
            &&& !busy ==> transcript_of(h) == entries_of(h.lines)
            &&& busy ==> transcript_of(h).len() == entries_of(h.lines).len() + 1
            &&& h.status == HarnessStatus::Starting ==> transcript_of(h).last()[1] == tinted(
                "loading HRM\u{2026}"@,
                Color::Dim,
            )
            &&& h.status == HarnessStatus::Thinking ==> transcript_of(h).last()[1] == tinted(
                "working\u{2026}"@,
                Color::Dim,
            )
        }),
        agent_title_of(HarnessStatus::Off) == " Agent \u{b7} idle "@,
        agent_title_of(HarnessStatus::Starting) == " Agent \u{b7} starting "@,
        agent_title_of(HarnessStatus::Ready) == " Agent \u{b7} ready "@,
        agent_title_of(HarnessStatus::Thinking) == " Agent \u{b7} working "@,
        agent_title_of(HarnessStatus::AwaitingApproval) == " Agent \u{b7} needs approval "@,
        agent_title_of(HarnessStatus::Closed) == " Agent \u{b7} closed "@,
{
    if h.status != HarnessStatus::Thinking && h.status != HarnessStatus::Starting {
        assert(transcript_of(h) =~= entries_of(h.lines));
    }
}

/// The strip shows the mode, the model and the tokens that went in and came out; a busy
/// agent's tells how to stop it.
pub proof fn law_strip_shows_the_agent(h: HarnessModel)
    ensures
        ({
            let r = strip_of(h);
            let busy = h.status == HarnessStatus::Thinking || h.status == HarnessStatus::Starting;
            &&& r.len() == 8
            &&& r[1].text == h.mode + " "@
            &&& h.mode == "yolo"@ ==> r[1].style.fg == Some(Color::Error)
            &&& h.model.len() > 0 ==> r[3].text == h.model + " "@
            &&& h.model.len() == 0 ==> r[3].text == "(config)"@ + " "@
            &&& r[5].text == "\u{2191}"@ + decimal(h.usage_in as nat) + " \u{2193}"@ + decimal(
                h.usage_out as nat,
            ) + " "@
            &&& busy ==> r[7] == strong(
                "Esc or /stop to cancel \u{2502} Ctrl+C quit"@,
                Color::Warning,
            )
            &&& !busy ==> r[7] == tinted(
                "Enter run \u{2502} /stop /mode /yolo /plan /clear /model /qos /help"@,
                Color::Dim,
            )
        }),
{
}

/// The box of a request shows its tool and what it asks for, and a warning exactly where it
/// is dangerous, in the colour of danger then; without a request there is no box. It names
/// the keys that decide.
pub proof fn law_request_is_shown(h: HarnessModel, p: ApprovalModel)
    ensures
        h.pending is None ==> question_of(h) is None,
        h.pending == Some(p) ==> question_of(h) == Some(
            (if p.danger {
                Color::Error
            } else {
                Color::Warning
            }, approval_of(p)),
        ),
        ({
            let r = approval_of(p);
            &&& r[1] == seq![tinted("  tool  "@, Color::Dim), strong(p.name, Color::Info)]
            &&& r[2] == seq![
                tinted("  cmd   "@, Color::Dim),
                tinted(cut(p.summary, 60), Color::Text),
            ]
            &&& p.danger ==> r.len() == 6 && r[3] == seq![
                strong(
                    "  \u{26A0} destructive command \u{2014} review carefully"@,
                    Color::Error,
                ),
            ]
            &&& !p.danger ==> r.len() == 5
            &&& r.last().len() == 6
            &&& r.last()[0].text == "   a "@ && r.last()[1].text == " allow once   "@
            &&& r.last()[2].text == " s "@ && r.last()[3].text == " allow always   "@
            &&& r.last()[4].text == " d "@ && r.last()[5].text == " deny (Esc) "@
        }),
{
}

/// An app is shown with its mark, its name in its column and its address.
pub proof fn law_app_is_shown(a: CosmosAppModel)
    ensures
        app_row_of(a).len() == 3,
        a.up ==> app_row_of(a)[0] == strong("  \u{2713} "@, Color::Success),
        !a.up ==> app_row_of(a)[0] == strong("  \u{2717} "@, Color::Error),
        app_row_of(a)[1].text == left_in(cut(a.name, 24), 24),
        app_row_of(a)[2] == tinted(" "@ + a.url, Color::Dim),
{
}

/// The apps that are up are counted.
pub proof fn law_apps_are_counted(apps: Seq<CosmosAppModel>, a: CosmosAppModel)
    ensures
        up_count(Seq::empty()) == 0,
        up_count(apps.push(a)) == up_count(apps) + (if a.up {
            1nat
        } else {
            0
        }),
{
    assert(apps.push(a).drop_last() =~= apps);
}

/// The constellation shows how many of its apps are up and all of them in their order; an
/// error is shown in its place, and without apps whether they are being asked for.
pub proof fn law_constellation_shows_its_apps(c: CosmosModel, i: int)
    requires
        0 <= i < c.apps.len() || c.apps.len() == 0,
    ensures
        c.error matches Some(e) ==> apps_of(c) == seq![seq![tinted("  "@ + e, Color::Error)]],
        c.error is None && c.apps.len() > 0 ==> apps_of(c).len() == c.apps.len() + 2
            && apps_of(c)[0] == seq![
            strong(
                "  "@ + decimal(up_count(c.apps)) + "/"@ + decimal(c.apps.len()) + " apps up"@,
                Color::Dim,
            ),
        ] && apps_of(c)[i + 2] == app_row_of(c.apps[i]),
        c.error is None && c.apps.len() == 0 && c.pending ==> apps_of(c) == seq![
            seq![tinted("  polling kannaka constellation\u{2026}"@, Color::Dim)],
        ],
        c.error is None && c.apps.len() == 0 && !c.pending ==> apps_of(c) == seq![
            seq![tinted("  no constellation data \u{2014} press 'r' to refresh"@, Color::Dim)],
        ],
        cosmos_keys_of(true).last() == tinted(" polling\u{2026} "@, Color::Warning),
        cosmos_keys_of(false).last() == tinted(" idle "@, Color::Dim),
{
}

/// The radio shows its lines in their order.
pub proof fn law_radio_shows_its_lines(lines: Seq<Seq<char>>, i: int)
    requires
        0 <= i < lines.len(),
    ensures
        radio_of(lines).len() == lines.len(),
        radio_of(lines)[i].len() == 1 && radio_of(lines)[i][0].text == "  "@ + lines[i],
        radio_of(Seq::empty()) == seq![
            seq![tinted("  radio offline or not yet polled"@, Color::Dim)],
        ],
{
}

/// A dream that runs shows its mode and how long it runs, in seconds; one that ended its mode
/// and what it said, and one that failed its error.
pub proof fn law_dream_run_is_shown(
    mode: Seq<char>,
    started: u64,
    ended: u64,
    summary: Seq<char>,
    now: u64,
    took: Seq<char>,
)
    requires
        started <= now,
    ensures
        ({
            let r = run_panel_of(DreamRunModel::Running { mode, started }, now, took);
            &&& r.0 == " Local Dream \u{b7} running "@ && r.1 == Color::Warning
            &&& r.2[0][1] == strong(mode, Color::Warning)
            &&& r.2[0][2].text == "    elapsed: "@ + decimal(
                ((now - started) / 1_000_000_000) as nat,
            ) + "s"@
        }),
        ({
            let r = run_panel_of(DreamRunModel::Done { mode, took: ended, summary }, now, took);
            &&& r.0 == " Local Dream \u{b7} complete "@ && r.1 == Color::Success
            &&& r.2[0][1] == strong(mode, Color::Success)
            &&& r.2[0][2].text == "    took: "@ + took + "s"@
            &&& r.2[1] == seq![
                tinted(
                    "  "@ + cut(replace_all(summary, "\n"@, " \u{b7} "@), 200),
                    Color::Text,
                ),
            ]
        }),
        ({
            let r = run_panel_of(DreamRunModel::Failed { mode, error: summary }, now, took);
            &&& r.0 == " Local Dream \u{b7} failed "@ && r.1 == Color::Error
            &&& r.2[0][1] == strong(mode, Color::Error)
            &&& r.2[1] == seq![tinted("  "@ + cut(summary, 200), Color::Error)]
        }),
        ({
            let r = run_panel_of(DreamRunModel::Idle, now, took);
            r.0 == " Local Dream \u{b7} idle "@ && r.1 == Color::Dim
        }),
{
}

/// A dream of the bus is shown with a star exactly where something emerged, its agent and
/// its figures, each in its own column.
pub proof fn law_dream_is_shown(d: DreamModel, c: Change, ts: Seq<char>)
    ensures
        ({
            let r = dream_row_of(d, c, ts);
            &&& r.len() == 6
            &&& d.emerged ==> r[0].text == "\u{2605} "@
            &&& !d.emerged ==> r[0].text == "  "@
            &&& r[1].text == ts + " "@
            &&& r[2].text == left_in(cut(d.agent_id, 14), 14) + " "@
            &&& r[3].text == right_in(decimal(d.cycles as nat), 6) + "  "@
            &&& r[4] == tinted(right_in(c.text@, 5) + " "@, c.color)
            &&& r[5].text == right_in(decimal(d.strengthened as nat), 5) + "  "@ + right_in(
                decimal(d.pruned as nat),
                5,
            ) + "  "@ + right_in(decimal(d.new_connections as nat), 5) + "  "@ + right_in(
                decimal(d.hallucinations as nat),
                5,
            )
        }),
{
}

/// The newest dreams are shown, as many as fit.
pub proof fn law_newest_dreams_are_shown(dreams: Seq<DreamModel>, height: nat)
    ensures
        dreams.len() <= height ==> shown_dreams(dreams, height) == dreams,
        0 < height < dreams.len() ==> shown_dreams(dreams, height) == dreams.take(height as int),
{
    if dreams.len() <= height {
        assert(shown_dreams(dreams, height) =~= dreams);
    }
}

/// An agent is shown with its figures, each in its own column; one that is silent for two
/// minutes is dimmed and marked, another has the colour of its hand.
pub proof fn law_agent_is_shown(a: SnapshotModel, f: AgentFigures, now: u64)
    requires
        a.last_seen <= now,
    ensures
        ({
            let r = agent_row_of(a, f, now);
            let fresh = now - a.last_seen < 120 * 1_000_000_000;
            &&& r.len() == 3
            &&& fresh ==> r[0].text == "  "@ && r[1] == strong(
                left_in(cut(a.agent_id, 14), 14),
                handed_color(a.handedness, f.phi_color),
            )
            &&& !fresh ==> r[0].text == "\u{b7} "@ && r[1] == strong(
                left_in(cut(a.agent_id, 14), 14),
                Color::Dim,
            )
            &&& r[2].text == " "@ + right_in(f.phi@, 5) + " "@ + right_in(f.theta@, 5) + " "@
                + right_in(f.r@, 4) + " "@ + right_in(decimal(a.memory_count as nat), 5)
            &&& shade_of(a, now, f.phi_color) == (if fresh {
                handed_color(a.handedness, f.phi_color)
            } else {
                Color::Dim
            })
        }),
{
}

/// The placeholder of the constellation stands exactly as long as no agent is known, and the
/// title counts them.
pub proof fn law_constellation_counts_its_agents(b: BusModel, n: nat)
    ensures
        placeholder_of(b) is Some <==> b.agents.len() == 0,
        plot_title_of(1) == " Constellation \u{b7} "@ + decimal(1) + " agent"@ + ""@ + " "@,
        n != 1 ==> plot_title_of(n) == " Constellation \u{b7} "@ + decimal(n) + " agent"@ + "s"@
            + " "@,
{
}

/// Each hand and each mode has its own colour.
pub proof fn law_hands_and_modes_have_their_colours(s: Seq<char>, c: Color)
    ensures
        handed_color("left"@, c) == Color::Rgb(255, 120, 120),
        handed_color("right"@, c) == Color::Rgb(120, 200, 255),
        handed_color("chiral"@, c) == Color::Rgb(255, 180, 100),
        s != "left"@ && s != "right"@ && s != "chiral"@ ==> handed_color(s, c) == c,
        mode_color_of("yolo"@) == Color::Error,
        mode_color_of("plan"@) == Color::Info,
        mode_color_of("auto-edit"@) == Color::Warning,
        s != "yolo"@ && s != "plan"@ && s != "auto-edit"@ ==> mode_color_of(s) == Color::Success,
{
    reveal_strlit("left");
    reveal_strlit("right");
    reveal_strlit("chiral");
    assert("left"@.len() == 4);
    assert("right"@.len() == 5);
    assert("chiral"@.len() == 6);
    reveal_strlit("yolo");
    reveal_strlit("plan");
    reveal_strlit("auto-edit");
    assert("yolo"@.len() == 4);
    assert("plan"@.len() == 4);
    assert("auto-edit"@.len() == 9);
    assert("yolo"@[0] != "plan"@[0]);
}

/// Each level has its own colour.
pub proof fn law_levels_have_their_colours(s: Seq<char>)
    ensures
        s == "resonant"@ || s == "transcendent"@ || s == "awakened"@ ==> lowered_level_color(s)
            == Color::Success,
        s == "coherent"@ || s == "synchronized"@ ==> lowered_level_color(s) == Color::Info,
        s == "emerging"@ || s == "developing"@ ==> lowered_level_color(s) == Color::Warning,
        s != "resonant"@ && s != "transcendent"@ && s != "awakened"@ && s != "coherent"@ && s
            != "synchronized"@ && s != "emerging"@ && s != "developing"@ ==> lowered_level_color(s)
            == Color::Dim,
{
    reveal_strlit("resonant");
    reveal_strlit("transcendent");
    reveal_strlit("awakened");
    reveal_strlit("coherent");
    reveal_strlit("synchronized");
    reveal_strlit("emerging");
    reveal_strlit("developing");
    assert("resonant"@.len() == 8);
    assert("transcendent"@.len() == 12);
    assert("awakened"@.len() == 8);
    assert("coherent"@.len() == 8);
    assert("synchronized"@.len() == 12);
    assert("emerging"@.len() == 8);
    assert("developing"@.len() == 10);
    assert("resonant"@[0] != "awakened"@[0]);
    assert("resonant"@[0] != "coherent"@[0]);
    assert("resonant"@[0] != "emerging"@[0]);
    assert("transcendent"@[0] != "synchronized"@[0]);
    assert("awakened"@[0] != "coherent"@[0]);
    assert("awakened"@[0] != "emerging"@[0]);
    assert("coherent"@[0] != "emerging"@[0]);
}

/// Phases of the queen are dimmed, and an error of the terminal itself is red.
pub proof fn law_subjects_have_their_colours(id: Seq<char>)
    ensures
        subject_color("QUEEN.phase."@ + id) == Color::Dim,
        subject_color("tui.error"@) == Color::Error,
        subject_color("KANNAKA.dreams"@) == Color::Warning,
        subject_color("KANNAKA.memory.new"@) == Color::Success,
        subject_color("KANNAKA.consciousness"@) == Color::Accent,
        subject_color("KANNAKA.substrate.phi"@) == Color::Info,
{
    let s = "QUEEN.phase."@ + id;
    assert(s.subrange(0, "QUEEN.phase."@.len() as int) =~= "QUEEN.phase."@);
    reveal_strlit("tui.error");
    reveal_strlit("KANNAKA.dreams");
    reveal_strlit("KANNAKA.memory.new");
    reveal_strlit("KANNAKA.consciousness");
    reveal_strlit("KANNAKA.substrate.phi");
    assert("tui.error"@.len() == 9);
    assert("KANNAKA.dreams"@.len() == 14);
    assert("KANNAKA.memory.new"@.len() == 18);
    assert("KANNAKA.consciousness"@.len() == 21);
    assert("KANNAKA.substrate.phi"@.len() == 21);
    assert("KANNAKA.consciousness"@[8] != "KANNAKA.substrate.phi"@[8]);
    reveal_strlit("QUEEN.phase.");
    reveal_strlit("QUEEN.");
    reveal_strlit("KANNAKA.");
    reveal_strlit("RADIO.");
    reveal_strlit("KAX.");
    reveal_strlit("EYE.");
    assert(!starts("tui.error"@, "QUEEN.phase."@)) by {
        if starts("tui.error"@, "QUEEN.phase."@) {
            assert("tui.error"@.subrange(0, 12)[0] == "QUEEN.phase."@[0]);
        }
    }
    assert(!starts("tui.error"@, "QUEEN."@)) by {
        if starts("tui.error"@, "QUEEN."@) {
            assert("tui.error"@.subrange(0, 6)[0] == "QUEEN."@[0]);
        }
    }
    assert(!starts("tui.error"@, "KANNAKA."@)) by {
        if starts("tui.error"@, "KANNAKA."@) {
            assert("tui.error"@.subrange(0, 8)[0] == "KANNAKA."@[0]);
        }
    }
    assert(!starts("tui.error"@, "RADIO."@)) by {
        if starts("tui.error"@, "RADIO."@) {
            assert("tui.error"@.subrange(0, 6)[0] == "RADIO."@[0]);
        }
    }
    assert(!starts("tui.error"@, "KAX."@)) by {
        if starts("tui.error"@, "KAX."@) {
            assert("tui.error"@.subrange(0, 4)[0] == "KAX."@[0]);
        }
    }
    assert(!starts("tui.error"@, "EYE."@)) by {
        if starts("tui.error"@, "EYE."@) {
            assert("tui.error"@.subrange(0, 4)[0] == "EYE."@[0]);
        }
    }
    assert(!starts("KANNAKA.dreams"@, "QUEEN.phase."@)) by {
        if starts("KANNAKA.dreams"@, "QUEEN.phase."@) {
            assert("KANNAKA.dreams"@.subrange(0, 12)[0] == "QUEEN.phase."@[0]);
        }
    }
    assert(!starts("KANNAKA.dreams"@, "QUEEN."@)) by {
        if starts("KANNAKA.dreams"@, "QUEEN."@) {
            assert("KANNAKA.dreams"@.subrange(0, 6)[0] == "QUEEN."@[0]);
        }
    }
    assert(!starts("KANNAKA.dreams"@, "RADIO."@)) by {
        if starts("KANNAKA.dreams"@, "RADIO."@) {
            assert("KANNAKA.dreams"@.subrange(0, 6)[0] == "RADIO."@[0]);
        }
    }
    assert(!starts("KANNAKA.dreams"@, "KAX."@)) by {
        if starts("KANNAKA.dreams"@, "KAX."@) {
            assert("KANNAKA.dreams"@.subrange(0, 4)[2] == "KAX."@[2]);
        }
    }
    assert(!starts("KANNAKA.dreams"@, "EYE."@)) by {
        if starts("KANNAKA.dreams"@, "EYE."@) {
            assert("KANNAKA.dreams"@.subrange(0, 4)[0] == "EYE."@[0]);
        }
    }
    assert(!starts("KANNAKA.memory.new"@, "QUEEN.phase."@)) by {
        if starts("KANNAKA.memory.new"@, "QUEEN.phase."@) {
            assert("KANNAKA.memory.new"@.subrange(0, 12)[0] == "QUEEN.phase."@[0]);
        }
    }
    assert(!starts("KANNAKA.memory.new"@, "QUEEN."@)) by {
        if starts("KANNAKA.memory.new"@, "QUEEN."@) {
            assert("KANNAKA.memory.new"@.subrange(0, 6)[0] == "QUEEN."@[0]);
        }
    }
    assert(!starts("KANNAKA.memory.new"@, "RADIO."@)) by {
        if starts("KANNAKA.memory.new"@, "RADIO."@) {
            assert("KANNAKA.memory.new"@.subrange(0, 6)[0] == "RADIO."@[0]);
        }
    }
    assert(!starts("KANNAKA.memory.new"@, "KAX."@)) by {
        if starts("KANNAKA.memory.new"@, "KAX."@) {
            assert("KANNAKA.memory.new"@.subrange(0, 4)[2] == "KAX."@[2]);
        }
    }
    assert(!starts("KANNAKA.memory.new"@, "EYE."@)) by {
        if starts("KANNAKA.memory.new"@, "EYE."@) {
            assert("KANNAKA.memory.new"@.subrange(0, 4)[0] == "EYE."@[0]);
        }
    }
    assert(!starts("KANNAKA.consciousness"@, "QUEEN.phase."@)) by {
        if starts("KANNAKA.consciousness"@, "QUEEN.phase."@) {
            assert("KANNAKA.consciousness"@.subrange(0, 12)[0] == "QUEEN.phase."@[0]);
        }
    }
    assert(!starts("KANNAKA.consciousness"@, "QUEEN."@)) by {
        if starts("KANNAKA.consciousness"@, "QUEEN."@) {
            assert("KANNAKA.consciousness"@.subrange(0, 6)[0] == "QUEEN."@[0]);
        }
    }
    assert(!starts("KANNAKA.consciousness"@, "RADIO."@)) by {
        if starts("KANNAKA.consciousness"@, "RADIO."@) {
            assert("KANNAKA.consciousness"@.subrange(0, 6)[0] == "RADIO."@[0]);
        }
    }
    assert(!starts("KANNAKA.consciousness"@, "KAX."@)) by {
        if starts("KANNAKA.consciousness"@, "KAX."@) {
            assert("KANNAKA.consciousness"@.subrange(0, 4)[2] == "KAX."@[2]);
        }
    }
    assert(!starts("KANNAKA.consciousness"@, "EYE."@)) by {
        if starts("KANNAKA.consciousness"@, "EYE."@) {
            assert("KANNAKA.consciousness"@.subrange(0, 4)[0] == "EYE."@[0]);
        }
    }
    assert(!starts("KANNAKA.substrate.phi"@, "QUEEN.phase."@)) by {
        if starts("KANNAKA.substrate.phi"@, "QUEEN.phase."@) {
            assert("KANNAKA.substrate.phi"@.subrange(0, 12)[0] == "QUEEN.phase."@[0]);
        }
    }
    assert(!starts("KANNAKA.substrate.phi"@, "QUEEN."@)) by {
        if starts("KANNAKA.substrate.phi"@, "QUEEN."@) {
            assert("KANNAKA.substrate.phi"@.subrange(0, 6)[0] == "QUEEN."@[0]);
        }
    }
    assert(!starts("KANNAKA.substrate.phi"@, "RADIO."@)) by {
        if starts("KANNAKA.substrate.phi"@, "RADIO."@) {
            assert("KANNAKA.substrate.phi"@.subrange(0, 6)[0] == "RADIO."@[0]);
        }
    }
    assert(!starts("KANNAKA.substrate.phi"@, "KAX."@)) by {
        if starts("KANNAKA.substrate.phi"@, "KAX."@) {
            assert("KANNAKA.substrate.phi"@.subrange(0, 4)[2] == "KAX."@[2]);
        }
    }
    assert(!starts("KANNAKA.substrate.phi"@, "EYE."@)) by {
        if starts("KANNAKA.substrate.phi"@, "EYE."@) {
            assert("KANNAKA.substrate.phi"@.subrange(0, 4)[0] == "EYE."@[0]);
        }
    }
}

/// Each colour of the palette has its own parts.
pub proof fn law_colours_have_their_parts(r: u8, g: u8, b: u8)
    ensures
        parts_of(Color::Bg) == (10u8, 10u8, 26u8),
        parts_of(Color::Accent) == (123u8, 104u8, 238u8),
        parts_of(Color::Success) == (74u8, 222u8, 128u8),
        parts_of(Color::Error) == (248u8, 113u8, 113u8),
        parts_of(Color::Warning) == (251u8, 191u8, 36u8),
        parts_of(Color::Info) == (0u8, 229u8, 255u8),
        parts_of(Color::Text) == (224u8, 224u8, 224u8),
        parts_of(Color::Dim) == (102u8, 102u8, 102u8),
        parts_of(Color::Rgb(r, g, b)) == (r, g, b),
{
}

/// The placeholder of the constellation tells what is waited for.
pub proof fn law_placeholder_tells_what_is_waited_for()
    ensures
        waiting_of(BusStatus::Off)[3] == seq![
            tinted("  Waiting for the bus to start\u{2026}"@, Color::Dim),
        ],
        waiting_of(BusStatus::Connecting)[3] == seq![
            tinted("  Connecting to the swarm\u{2026}"@, Color::Dim),
        ],
        waiting_of(BusStatus::Streaming)[3] == seq![
            tinted("  Streaming \u{2014} no agents have reported phase yet"@, Color::Dim),
        ],
        waiting_of(BusStatus::Failed)[3] == seq![
            tinted("  Bus failed \u{2014} see logs"@, Color::Dim),
        ],
{
}

proof fn lemma_pieces_behind(a: Seq<char>, c: char, b: Seq<char>)
    requires
        forall|i: int| 0 <= i < b.len() ==> #[trigger] b[i] != c,
    ensures
        pieces(a + (seq![c] + b), c) == pieces(a, c).push(b),
    decreases b.len(),
{
    let s = a + (seq![c] + b);
    if b.len() == 0 {
        assert(s.drop_last() =~= a);
        assert(s.last() == c);
        assert(b =~= Seq::empty());
    } else {
        let d = b.drop_last();
        assert forall|i: int| 0 <= i < d.len() implies #[trigger] d[i] != c by {
            assert(d[i] == b[i]);
        }
        lemma_pieces_behind(a, c, d);
        assert(s.drop_last() =~= a + (seq![c] + d));
        assert(s.last() == b[b.len() - 1]);
        assert(pieces(a, c).push(d).drop_last() =~= pieces(a, c));
        assert(d.push(b.last()) =~= b);
    }
}

/// A row of the help is made of its marked parts, in their order: each is its text, whole, in
/// the style of its mark. What stands before the first mark is left out.
pub proof fn law_marked_parts_are_shown(a: Seq<char>, m: char, t: Seq<char>)
    requires
        m != '^',
        forall|i: int| 0 <= i < t.len() ==> #[trigger] t[i] != '^',
    ensures
        marked_row(a + (seq!['^', m] + t)) == marked_row(a).push(
            SpanModel { text: t, style: mark_style(m) },
        ),
        marked_row(Seq::empty()).len() == 0,
{
    let b = seq![m] + t;
    assert forall|i: int| 0 <= i < b.len() implies #[trigger] b[i] != '^' by {
        if i > 0 {
            assert(b[i] == t[i - 1]);
        }
    }
    lemma_pieces_behind(a, '^', b);
    assert(seq!['^', m] + t =~= seq!['^'] + b);
    assert(b.skip(1) =~= t);
    law_pieces_make_up_the_text(a, '^');
    let r = marked_row(a + (seq!['^', m] + t));
    assert(r =~= marked_row(a).push(SpanModel { text: t, style: mark_style(m) }));
}

/// The help begins with the version; below it stand the lines of its text, in their order.
pub proof fn law_help_begins_with_the_version(version: Seq<char>, i: int)
    requires
        0 <= i < pieces(HELP@, '\n').len(),
    ensures
        help_of(version).len() == pieces(HELP@, '\n').len() + 1,
        help_of(version)[0] == seq![
            strong(" Kannaka TUI \u{b7} v"@ + version, Color::Accent),
        ],
        help_of(version)[i + 1] == marked_row(pieces(HELP@, '\n')[i]),
{
}

} // verus!
