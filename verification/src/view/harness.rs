//! The Agent tab.

use vstd::prelude::*;
use crate::harness::{
    is_busy, line_models, AgentLine, ApprovalModel, Harness, HarnessModel, HarnessStatus,
    LineModel, PendingApproval,
};
use crate::palette::{mode_color, mode_color_of, Color};
use crate::text::{
    cat2, cat3, cat5, cut, decimal, decimal_text, pieces, split_char, texts, truncate,
};
use crate::view::chat::{spinner, spinner_of};
use crate::view::rows::{
    blank, bold, ink, keep_seen, keycap, no_rows, put, rows_of, seen, sp, Row, SpanModel,
};

verus! {

/// The most lines of a tool's result that are shown.
pub const RESULT_LINES: usize = 6;

/// An answer of the agent, line by line.
pub open spec fn answer_of(text: Seq<char>) -> Seq<Seq<SpanModel>> {
    let lines = pieces(text, '\n');
    Seq::new(
        lines.len(),
        |i: int|
            if i == 0 {
                seq![sp("kannaka "@, bold(Color::Accent)), sp(lines[0], ink(Color::Text))]
            } else {
                seq![sp("        "@ + lines[i], ink(Color::Text))]
            },
    )
}

/// The colour of the mark before a tool call.
pub open spec fn call_color(is_error: bool, awaiting: bool) -> Color {
    if is_error {
        Color::Error
    } else if awaiting {
        Color::Warning
    } else {
        Color::Success
    }
}

/// The row of a tool call.
pub open spec fn call_of(
    name: Seq<char>,
    summary: Seq<char>,
    danger: bool,
    is_error: bool,
    awaiting: bool,
) -> Seq<SpanModel> {
    let head = seq![
        sp("  \u{2699} "@, ink(call_color(is_error, awaiting))),
        sp(name, bold(Color::Info)),
        sp(" "@ + cut(summary, 88), ink(Color::Dim)),
    ];
    let warned = if danger {
        head.push(sp(" \u{26A0}"@, ink(Color::Error)))
    } else {
        head
    };
    if awaiting {
        warned.push(sp("  (awaiting approval)"@, bold(Color::Warning)))
    } else {
        warned
    }
}

/// The result of a tool call: its first lines, and how many more there are.
pub open spec fn result_of(text: Seq<char>, is_error: bool) -> Seq<Seq<SpanModel>> {
    let lines = pieces(text, '\n');
    let n = if lines.len() <= RESULT_LINES {
        lines.len()
    } else {
        RESULT_LINES as nat
    };
    let color = if is_error {
        Color::Error
    } else {
        Color::Dim
    };
    Seq::new(n, |i: int| seq![sp("      "@ + cut(lines[i], 104), ink(color))]) + (if lines.len()
        > RESULT_LINES {
        seq![
            seq![
                sp(
                    "      \u{2026} (+"@ + decimal((lines.len() - RESULT_LINES) as nat)
                        + " more lines)"@,
                    ink(Color::Dim),
                ),
            ],
        ]
    } else {
        Seq::empty()
    })
}

/// The rows of one entry of the transcript.
pub open spec fn entry_of(l: LineModel) -> Seq<Seq<SpanModel>> {
    match l {
        LineModel::User(t) => seq![
            seq![sp("you \u{25B8} "@, bold(Color::Info)), sp(t, ink(Color::Text))],
        ],
        LineModel::Assistant(t) => answer_of(t),
        LineModel::Tool { name, summary, danger, result, is_error, awaiting, .. } => seq![
            call_of(name, summary, danger, is_error, awaiting),
        ] + (match result {
            Some(r) => result_of(r, is_error),
            None => Seq::empty(),
        }),
        LineModel::Notice(t) => seq![seq![sp("\u{b7} "@ + t, ink(Color::Dim))]],
    }
}

/// The rows of the entries of the transcript.
pub open spec fn entries_of(ls: Seq<LineModel>) -> Seq<Seq<SpanModel>>
    decreases ls.len(),
{
    if ls.len() == 0 {
        Seq::empty()
    } else {
        entries_of(ls.drop_last()) + entry_of(ls.last())
    }
}

/// The rows of the transcript: its entries, and the spinner while the agent is at
/// work.
pub open spec fn transcript_of(h: HarnessModel) -> Seq<Seq<SpanModel>> {
    entries_of(h.lines) + (if is_busy(h.status) {
        seq![
            seq![
                sp("kannaka "@ + spinner_of(h.tick) + " "@, ink(Color::Accent)),
                sp(
                    if h.status == HarnessStatus::Starting {
                        "loading HRM\u{2026}"@
                    } else {
                        "working\u{2026}"@
                    },
                    ink(Color::Dim),
                ),
            ],
        ]
    } else {
        Seq::empty()
    })
}

/// Appends an answer of the agent ([`answer_of`]).
fn put_answer(rows: &mut Vec<Row>, text: &str)
    ensures
        rows_of(final(rows)@) == rows_of(old(rows)@) + answer_of(text@),
{
    let lines = split_char(text, '\n');
    let n: usize = lines.len();
    let ghost want = answer_of(text@);
    let ghost had = rows_of(rows@);
    let mut i: usize = 0;
    while i < n
        invariant
            n == lines@.len(),
            texts(lines@) == pieces(text@, '\n'),
            i <= n,
            want == answer_of(text@),
            rows_of(rows@) =~= had + want.take(i as int),
        decreases n - i,
    {
        assert(texts(lines@)[i as int] == lines@[i as int]@);
        if i == 0 {
            let row = Row::new().with("kannaka ", bold(Color::Accent)).with(
                lines[i].as_str(),
                ink(Color::Text),
            );
            assert(row@ =~= want[0]);
            put(rows, row);
        } else {
            put(rows, Row::of(cat2("        ", lines[i].as_str()).as_str(), ink(Color::Text)));
        }
        assert(want.take(i + 1) =~= want.take(i as int).push(want[i as int]));
        i = i + 1;
    }
    assert(want.take(n as int) =~= want);
}

/// The row of a tool call ([`call_of`]).
fn call_row(name: &str, summary: &str, danger: bool, is_error: bool, awaiting: bool) -> (r: Row)
    ensures
        r@ == call_of(name@, summary@, danger, is_error, awaiting),
{
    let color = if is_error {
        Color::Error
    } else if awaiting {
        Color::Warning
    } else {
        Color::Success
    };
    let mut row = Row::new().with("  \u{2699} ", ink(color)).with(name, bold(Color::Info)).with(
        cat2(" ", truncate(summary, 88).as_str()).as_str(),
        ink(Color::Dim),
    );
    if danger {
        row = row.with(" \u{26A0}", ink(Color::Error));
    }
    if awaiting {
        row = row.with("  (awaiting approval)", bold(Color::Warning));
    }
    row
}

/// Appends the result of a tool call ([`result_of`]).
fn put_result(rows: &mut Vec<Row>, text: &str, is_error: bool)
    ensures
        rows_of(final(rows)@) == rows_of(old(rows)@) + result_of(text@, is_error),
{
    let lines = split_char(text, '\n');
    let total: usize = lines.len();
    let n: usize = if total <= RESULT_LINES {
        total
    } else {
        RESULT_LINES
    };
    let color = if is_error {
        Color::Error
    } else {
        Color::Dim
    };
    let ghost want = result_of(text@, is_error);
    let ghost had = rows_of(rows@);
    let mut i: usize = 0;
    while i < n
        invariant
            i <= n <= total,
            total == lines@.len(),
            n <= want.len(),
            texts(lines@) == pieces(text@, '\n'),
            n == (if total <= RESULT_LINES { total } else { RESULT_LINES }),
            want == result_of(text@, is_error),
            color == (if is_error { Color::Error } else { Color::Dim }),
            rows_of(rows@) =~= had + want.take(i as int),
        decreases n - i,
    {
        assert(texts(lines@)[i as int] == lines@[i as int]@);
        put(
            rows,
            Row::of(
                cat2("      ", truncate(lines[i].as_str(), 104).as_str()).as_str(),
                ink(color),
            ),
        );
        assert(want[i as int] == seq![sp("      "@ + cut(lines@[i as int]@, 104), ink(color))]);
        assert(want.take(i + 1) =~= want.take(i as int).push(want[i as int]));
        i = i + 1;
    }
    if total > RESULT_LINES {
        let more = decimal_text((total - RESULT_LINES) as u64);
        put(
            rows,
            Row::of(
                cat3("      \u{2026} (+", more.as_str(), " more lines)").as_str(),
                ink(Color::Dim),
            ),
        );
        assert(want =~= want.take(n as int).push(want[n as int]));
    } else {
        assert(want =~= want.take(n as int));
    }
    assert(rows_of(rows@) =~= had + want);
}

/// Appends one entry of the transcript ([`entry_of`]).
fn put_entry(rows: &mut Vec<Row>, l: &AgentLine)
    ensures
        rows_of(final(rows)@) == rows_of(old(rows)@) + entry_of(l@),
{
    match l {
        AgentLine::User(t) => {
            put(
                rows,
                Row::new().with("you \u{25B8} ", bold(Color::Info)).with(
                    t.as_str(),
                    ink(Color::Text),
                ),
            );
            assert(rows_of(rows@) =~~= rows_of(old(rows)@) + entry_of(l@));
        },
        AgentLine::Assistant(t) => {
            put_answer(rows, t.as_str());
        },
        AgentLine::Tool { name, summary, danger, result, is_error, awaiting, .. } => {
            put(rows, call_row(name.as_str(), summary.as_str(), *danger, *is_error, *awaiting));
            match result {
                Some(r) => {
                    put_result(rows, r.as_str(), *is_error);
                },
                None => {},
            }
            assert(rows_of(rows@) =~= rows_of(old(rows)@) + entry_of(l@));
        },
        AgentLine::Notice(t) => {
            put(rows, Row::of(cat2("\u{b7} ", t.as_str()).as_str(), ink(Color::Dim)));
            assert(rows_of(rows@) =~= rows_of(old(rows)@) + entry_of(l@));
        },
    }
}

/// The rows of the transcript that are seen in a body of `height` cells, always one.
pub fn transcript_rows(h: &Harness, scroll: usize, height: usize) -> (r: Vec<Row>)
    ensures
        rows_of(r@) == seen(
            transcript_of(h@),
            scroll as nat,
            if height == 0 {
                1
            } else {
                height as nat
            },
        ),
{
    let ghost models = line_models(h.lines@);
    let n: usize = h.lines.len();
    let mut rows = no_rows();
    let mut i: usize = 0;
    assert(models.take(0) =~= Seq::<LineModel>::empty());
    while i < n
        invariant
            n == h.lines@.len(),
            i <= n,
            models == line_models(h.lines@),
            rows_of(rows@) == entries_of(models.take(i as int)),
        decreases n - i,
    {
        proof {
            assert(models.take(i + 1).drop_last() =~= models.take(i as int));
            assert(models.take(i + 1).last() == h.lines@[i as int]@);
        }
        put_entry(&mut rows, &h.lines[i]);
        i = i + 1;
    }
    assert(models.take(n as int) =~= models);
    if h.busy() {
        let label = if h.status == HarnessStatus::Starting {
            "loading HRM\u{2026}"
        } else {
            "working\u{2026}"
        };
        put(
            &mut rows,
            Row::new().with(
                cat3("kannaka ", spinner(h.tick), " ").as_str(),
                ink(Color::Accent),
            ).with(label, ink(Color::Dim)),
        );
    }
    assert(rows_of(rows@) =~~= transcript_of(h@));
    keep_seen(
        &mut rows,
        scroll,
        if height == 0 {
            1
        } else {
            height
        },
    );
    rows
}

/// The title of the tab.
pub open spec fn agent_title_of(s: HarnessStatus) -> Seq<char> {
    match s {
        HarnessStatus::Off => " Agent \u{b7} idle "@,
        HarnessStatus::Starting => " Agent \u{b7} starting "@,
        HarnessStatus::Ready => " Agent \u{b7} ready "@,
        HarnessStatus::Thinking => " Agent \u{b7} working "@,
        HarnessStatus::AwaitingApproval => " Agent \u{b7} needs approval "@,
        HarnessStatus::Closed => " Agent \u{b7} closed "@,
    }
}

/// The title of the tab ([`agent_title_of`]).
pub fn agent_title(s: HarnessStatus) -> (r: &'static str)
    ensures
        r@ == agent_title_of(s),
{
    match s {
        HarnessStatus::Off => " Agent \u{b7} idle ",
        HarnessStatus::Starting => " Agent \u{b7} starting ",
        HarnessStatus::Ready => " Agent \u{b7} ready ",
        HarnessStatus::Thinking => " Agent \u{b7} working ",
        HarnessStatus::AwaitingApproval => " Agent \u{b7} needs approval ",
        HarnessStatus::Closed => " Agent \u{b7} closed ",
    }
}

/// The strip under the transcript: the mode, the model, the tokens and what the keys
/// do.
pub open spec fn strip_of(h: HarnessModel) -> Seq<SpanModel> {
    seq![
        sp(" mode "@, ink(Color::Dim)),
        sp(h.mode + " "@, bold(mode_color_of(h.mode))),
        sp("\u{2502} model "@, ink(Color::Dim)),
        sp(
            (if h.model.len() == 0 {
                "(config)"@
            } else {
                h.model
            }) + " "@,
            ink(Color::Text),
        ),
        sp("\u{2502} tokens "@, ink(Color::Dim)),
        sp(
            "\u{2191}"@ + decimal(h.usage_in as nat) + " \u{2193}"@ + decimal(
                h.usage_out as nat,
            ) + " "@,
            ink(Color::Info),
        ),
        sp("\u{2502} "@, ink(Color::Dim)),
        if is_busy(h.status) {
            sp("Esc or /stop to cancel \u{2502} Ctrl+C quit"@, bold(Color::Warning))
        } else {
            sp(
                "Enter run \u{2502} /stop /mode /yolo /plan /clear /model /qos /help"@,
                ink(Color::Dim),
            )
        },
    ]
}

/// The strip under the transcript ([`strip_of`]).
pub fn strip_row(h: &Harness) -> (r: Row)
    ensures
        r@ == strip_of(h@),
{
    let model = if h.model.as_str().is_empty() {
        "(config)"
    } else {
        h.model.as_str()
    };
    let tokens = cat5(
        "\u{2191}",
        decimal_text(h.usage_in).as_str(),
        " \u{2193}",
        decimal_text(h.usage_out).as_str(),
        " ",
    );
    let row = Row::new().with(" mode ", ink(Color::Dim)).with(
        cat2(h.mode.as_str(), " ").as_str(),
        bold(mode_color(h.mode.as_str())),
    ).with("\u{2502} model ", ink(Color::Dim)).with(
        cat2(model, " ").as_str(),
        ink(Color::Text),
    ).with("\u{2502} tokens ", ink(Color::Dim)).with(tokens.as_str(), ink(Color::Info)).with(
        "\u{2502} ",
        ink(Color::Dim),
    );
    if h.busy() {
        row.with("Esc or /stop to cancel \u{2502} Ctrl+C quit", bold(Color::Warning))
    } else {
        row.with(
            "Enter run \u{2502} /stop /mode /yolo /plan /clear /model /qos /help",
            ink(Color::Dim),
        )
    }
}

/// The colour of the box that asks for a decision.
pub open spec fn box_color_of(danger: bool) -> Color {
    if danger {
        Color::Error
    } else {
        Color::Warning
    }
}

/// The colour of the box that asks for a decision ([`box_color_of`]).
pub fn box_color(danger: bool) -> (r: Color)
    ensures
        r == box_color_of(danger),
{
    if danger {
        Color::Error
    } else {
        Color::Warning
    }
}

/// The keys that decide.
pub open spec fn decision_keys_of() -> Seq<SpanModel> {
    seq![
        sp("   a "@, keycap(Color::Success)),
        sp(" allow once   "@, ink(Color::Text)),
        sp(" s "@, keycap(Color::Info)),
        sp(" allow always   "@, ink(Color::Text)),
        sp(" d "@, keycap(Color::Error)),
        sp(" deny (Esc) "@, ink(Color::Text)),
    ]
}

/// The keys that decide ([`decision_keys_of`]).
fn decision_keys() -> (r: Row)
    ensures
        r@ == decision_keys_of(),
{
    Row::new().with("   a ", keycap(Color::Success)).with(" allow once   ", ink(Color::Text)).with(
        " s ",
        keycap(Color::Info),
    ).with(" allow always   ", ink(Color::Text)).with(" d ", keycap(Color::Error)).with(
        " deny (Esc) ",
        ink(Color::Text),
    )
}

/// One label and its value in the box.
pub open spec fn labelled_of(label: Seq<char>, value: SpanModel) -> Seq<SpanModel> {
    seq![sp(label, ink(Color::Dim)), value]
}

/// The rows of the box that asks for a decision: a request that is dangerous says
/// so.
pub open spec fn approval_of(p: ApprovalModel) -> Seq<Seq<SpanModel>> {
    seq![
        blank(),
        labelled_of("  tool  "@, sp(p.name, bold(Color::Info))),
        labelled_of("  cmd   "@, sp(cut(p.summary, 60), ink(Color::Text))),
    ] + (if p.danger {
        seq![
            seq![
                sp(
                    "  \u{26A0} destructive command \u{2014} review carefully"@,
                    bold(Color::Error),
                ),
            ],
        ]
    } else {
        Seq::empty()
    }) + seq![blank(), decision_keys_of()]
}

/// The rows of the box that asks for a decision ([`approval_of`]).
pub fn approval_rows(p: &PendingApproval) -> (r: Vec<Row>)
    ensures
        rows_of(r@) == approval_of(p@),
{
    let mut rows = no_rows();
    put(&mut rows, Row::new());
    put(
        &mut rows,
        Row::new().with("  tool  ", ink(Color::Dim)).with(p.name.as_str(), bold(Color::Info)),
    );
    put(
        &mut rows,
        Row::new().with("  cmd   ", ink(Color::Dim)).with(
            truncate(p.summary.as_str(), 60).as_str(),
            ink(Color::Text),
        ),
    );
    if p.danger {
        put(
            &mut rows,
            Row::of(
                "  \u{26A0} destructive command \u{2014} review carefully",
                bold(Color::Error),
            ),
        );
    }
    put(&mut rows, Row::new());
    put(&mut rows, decision_keys());
    assert(rows_of(rows@) =~~= approval_of(p@));
    rows
}

/// The box that asks for a decision: its colour and its rows, exactly while a request
/// is pending.
pub open spec fn question_of(h: HarnessModel) -> Option<(Color, Seq<Seq<SpanModel>>)> {
    match h.pending {
        Some(p) => Some((box_color_of(p.danger), approval_of(p))),
        None => None,
    }
}

/// The box that asks for a decision ([`question_of`]).
pub fn question(h: &Harness) -> (r: Option<(Color, Vec<Row>)>)
    ensures
        match r {
            Some(q) => question_of(h@) == Some((q.0, rows_of(q.1@))),
            None => question_of(h@) is None,
        },
{
    match &h.pending {
        Some(p) => Some((box_color(p.danger), approval_rows(p))),
        None => None,
    }
}

/// A request that is dangerous is marked as such in its box.
pub proof fn law_danger_is_flagged(p: ApprovalModel)
    requires
        p.danger,
    ensures
        approval_of(p)[3] == seq![
            sp(
                "  \u{26A0} destructive command \u{2014} review carefully"@,
                bold(Color::Error),
            ),
        ],
        box_color_of(p.danger) == Color::Error,
{
}

} // verus!
