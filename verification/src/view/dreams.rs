//! The Dreams tab.

use vstd::prelude::*;
use crate::buffer::first_of;
use crate::bus::{dream_models, DreamRun, DreamRunModel};
use crate::clock::{elapsed, since};
use crate::palette::Color;
use crate::payload::{format_bus_ts, DreamEvent, DreamModel};
use crate::text::{
    cat2, cat3, cat4, cut, decimal, decimal_text, left_in, pad_left, pad_right, replace_all,
    replaced, right_in, truncate,
};
use crate::view::bus::fits_column;
use crate::view::rows::{
    blank, bold, ink, keycap, no_rows, put, rows_of, sp, Row, SpanModel,
};

verus! {

/// The panel of the dream that was last run here: its title, its colour and its rows.
pub struct RunPanel {
    pub title: &'static str,
    pub color: Color,
    pub rows: Vec<Row>,
}

/// The row that names the mode of a dream.
pub open spec fn mode_row_of(mode: Seq<char>, c: Color) -> Seq<SpanModel> {
    seq![sp("  Mode: "@, ink(Color::Dim)), sp(mode, bold(c))]
}

/// The whole seconds of a time in nanoseconds.
pub open spec fn whole_secs(ns: u64) -> nat {
    (ns / 1_000_000_000) as nat
}

/// The title, the colour and the rows of the panel. `took` is the time that the dream
/// took, in seconds with one decimal.
pub open spec fn run_panel_of(d: DreamRunModel, now: u64, took: Seq<char>) -> (
    Seq<char>,
    Color,
    Seq<Seq<SpanModel>>,
) {
    match d {
        DreamRunModel::Idle => (
            " Local Dream \u{b7} idle "@,
            Color::Dim,
            seq![
                seq![
                    sp(
                        "  Press 'd' for deep, 'l' for lite \u{2014} or type `dream` in the bar."@,
                        ink(Color::Dim),
                    ),
                ],
            ],
        ),
        DreamRunModel::Running { mode, started } => (
            " Local Dream \u{b7} running "@,
            Color::Warning,
            seq![
                mode_row_of(mode, Color::Warning).push(
                    sp(
                        "    elapsed: "@ + decimal(whole_secs(since(now, started))) + "s"@,
                        ink(Color::Dim),
                    ),
                ),
                seq![
                    sp(
                        "  Consolidating the medium \u{2014} TUI stays responsive while this runs."@,
                        ink(Color::Dim),
                    ),
                ],
            ],
        ),
        DreamRunModel::Done { mode, summary, .. } => (
            " Local Dream \u{b7} complete "@,
            Color::Success,
            seq![
                mode_row_of(mode, Color::Success).push(
                    sp("    took: "@ + took + "s"@, ink(Color::Dim)),
                ),
                seq![
                    sp(
                        "  "@ + cut(replace_all(summary, "\n"@, " \u{b7} "@), 200),
                        ink(Color::Text),
                    ),
                ],
            ],
        ),
        DreamRunModel::Failed { mode, error } => (
            " Local Dream \u{b7} failed "@,
            Color::Error,
            seq![
                mode_row_of(mode, Color::Error),
                seq![sp("  "@ + cut(error, 200), ink(Color::Error))],
            ],
        ),
    }
}

/// The panel of the dream that was last run here ([`run_panel_of`]).
pub fn run_panel(d: &DreamRun, now: u64, took: &str) -> (r: RunPanel)
    ensures
        (r.title@, r.color, rows_of(r.rows@)) == run_panel_of(d@, now, took@),
{
    proof {
        reveal_strlit("\n");
    }
    let mut rows = no_rows();
    let (title, color) = match d {
        DreamRun::Idle => {
            put(
                &mut rows,
                Row::of(
                    "  Press 'd' for deep, 'l' for lite \u{2014} or type `dream` in the bar.",
                    ink(Color::Dim),
                ),
            );
            (" Local Dream \u{b7} idle ", Color::Dim)
        },
        DreamRun::Running { mode, started } => {
            let secs: u64 = elapsed(now, *started) / 1_000_000_000;
            let words = cat3("    elapsed: ", decimal_text(secs).as_str(), "s");
            put(
                &mut rows,
                Row::new().with("  Mode: ", ink(Color::Dim)).with(
                    mode.as_str(),
                    bold(Color::Warning),
                ).with(words.as_str(), ink(Color::Dim)),
            );
            put(
                &mut rows,
                Row::of(
                    "  Consolidating the medium \u{2014} TUI stays responsive while this runs.",
                    ink(Color::Dim),
                ),
            );
            (" Local Dream \u{b7} running ", Color::Warning)
        },
        DreamRun::Done { mode, summary, .. } => {
            put(
                &mut rows,
                Row::new().with("  Mode: ", ink(Color::Dim)).with(
                    mode.as_str(),
                    bold(Color::Success),
                ).with(cat3("    took: ", took, "s").as_str(), ink(Color::Dim)),
            );
            let line = replaced(summary.as_str(), "\n", " \u{b7} ");
            put(
                &mut rows,
                Row::of(
                    cat2("  ", truncate(line.as_str(), 200).as_str()).as_str(),
                    ink(Color::Text),
                ),
            );
            (" Local Dream \u{b7} complete ", Color::Success)
        },
        DreamRun::Failed { mode, error } => {
            put(
                &mut rows,
                Row::new().with("  Mode: ", ink(Color::Dim)).with(mode.as_str(), bold(Color::Error)),
            );
            put(
                &mut rows,
                Row::of(
                    cat2("  ", truncate(error.as_str(), 200).as_str()).as_str(),
                    ink(Color::Error),
                ),
            );
            (" Local Dream \u{b7} failed ", Color::Error)
        },
    };
    assert(rows_of(rows@) =~~= run_panel_of(d@, now, took@).2);
    RunPanel { title, color, rows }
}

/// The change of a dream as it is shown: with its sign and three decimals, and its
/// colour.
pub struct Change {
    pub text: String,
    pub color: Color,
}

/// A dream of the history whose time column is `ts`.
pub open spec fn dream_row_of(d: DreamModel, c: Change, ts: Seq<char>) -> Seq<SpanModel> {
    seq![
        sp(
            if d.emerged {
                "\u{2605} "@
            } else {
                "  "@
            },
            ink(Color::Accent),
        ),
        sp(ts + " "@, ink(Color::Dim)),
        sp(left_in(cut(d.agent_id, 14), 14) + " "@, bold(Color::Accent)),
        sp(right_in(decimal(d.cycles as nat), 6) + "  "@, ink(Color::Text)),
        sp(right_in(c.text@, 5) + " "@, ink(c.color)),
        sp(
            right_in(decimal(d.strengthened as nat), 5) + "  "@ + right_in(
                decimal(d.pruned as nat),
                5,
            ) + "  "@ + right_in(decimal(d.new_connections as nat), 5) + "  "@ + right_in(
                decimal(d.hallucinations as nat),
                5,
            ),
            ink(Color::Text),
        ),
    ]
}

/// Whether `row` is the dream `d` with a time in its time column, or with blanks.
pub open spec fn is_dream_row(row: Seq<SpanModel>, d: DreamModel, c: Change) -> bool {
    exists|ts: Seq<char>| fits_column(d.ts_ms, ts) && row == #[trigger] dream_row_of(d, c, ts)
}

/// A number at the right of a field.
fn number_in(n: u64, w: usize) -> (r: String)
    ensures
        r@ == right_in(decimal(n as nat), w as nat),
{
    pad_left(decimal_text(n).as_str(), w)
}

/// A dream of the history ([`dream_row_of`]).
pub fn dream_row(d: &DreamEvent, c: &Change, ts: &str) -> (r: Row)
    ensures
        r@ == dream_row_of(d@, *c, ts@),
{
    let mark = if d.emerged {
        "\u{2605} "
    } else {
        "  "
    };
    let agent = pad_right(truncate(d.agent_id.as_str(), 14).as_str(), 14);
    let left = cat4(
        number_in(d.strengthened, 5).as_str(),
        "  ",
        number_in(d.pruned, 5).as_str(),
        "  ",
    );
    let counts = cat4(
        left.as_str(),
        number_in(d.new_connections, 5).as_str(),
        "  ",
        number_in(d.hallucinations, 5).as_str(),
    );
    Row::new().with(mark, ink(Color::Accent)).with(cat2(ts, " ").as_str(), ink(Color::Dim)).with(
        cat2(agent.as_str(), " ").as_str(),
        bold(Color::Accent),
    ).with(cat2(number_in(d.cycles, 6).as_str(), "  ").as_str(), ink(Color::Text)).with(
        cat2(pad_left(c.text.as_str(), 5).as_str(), " ").as_str(),
        ink(c.color),
    ).with(counts.as_str(), ink(Color::Text))
}

/// The heading over the history.
pub open spec fn history_head() -> Seq<Seq<SpanModel>> {
    seq![
        seq![
            sp(
                "  time     agent           cycles  +\u{3a6}    \u{394}str  \u{394}prn  \u{394}new  halluc"@,
                bold(Color::Dim),
            ),
        ],
        blank(),
    ]
}

/// The words where the history is empty.
pub open spec fn history_hint() -> Seq<Seq<SpanModel>> {
    seq![
        seq![
            sp(
                "  No KANNAKA.dreams events on the bus yet \u{2014} once any constellation node"@,
                ink(Color::Dim),
            ),
        ],
        seq![sp("  finishes a dream cycle, the report shows up here."@, ink(Color::Dim))],
    ]
}

/// The dreams that a body of `height` cells shows: the newest, and always one.
pub open spec fn shown_dreams(dreams: Seq<DreamModel>, height: nat) -> Seq<DreamModel> {
    first_of(
        dreams,
        if height == 0 {
            1
        } else {
            height
        },
    )
}

/// The history in a body of `height` cells: its heading, then the newest dreams or a
/// word that there are none. `changes` holds the change of each dream.
pub fn history_rows(dreams: &Vec<DreamEvent>, changes: &Vec<Change>, height: usize) -> (r: Vec<Row>)
    requires
        changes@.len() == dreams@.len(),
    ensures
        ({
            let shown = shown_dreams(dream_models(dreams@), height as nat);
            if shown.len() == 0 {
                rows_of(r@) == history_head() + history_hint()
            } else {
                &&& rows_of(r@).len() == 2 + shown.len()
                &&& rows_of(r@).take(2) == history_head()
                &&& forall|i: int|
                    0 <= i < shown.len() ==> is_dream_row(
                        rows_of(r@)[2 + i],
                        #[trigger] shown[i],
                        changes@[i],
                    )
            }
        }),
{
    let ghost models = dream_models(dreams@);
    let ghost shown = shown_dreams(models, height as nat);
    let room: usize = if height == 0 {
        1
    } else {
        height
    };
    let n: usize = if dreams.len() <= room {
        dreams.len()
    } else {
        room
    };
    assert(shown =~= models.take(n as int));
    let mut rows = no_rows();
    put(
        &mut rows,
        Row::of(
            "  time     agent           cycles  +\u{3a6}    \u{394}str  \u{394}prn  \u{394}new  halluc",
            bold(Color::Dim),
        ),
    );
    put(&mut rows, Row::new());
    assert(rows_of(rows@) =~= history_head());
    let mut i: usize = 0;
    while i < n
        invariant
            i <= n <= dreams@.len(),
            changes@.len() == dreams@.len(),
            models == dream_models(dreams@),
            shown == models.take(n as int),
            rows_of(rows@).len() == 2 + i,
            rows_of(rows@).take(2) =~= history_head(),
            forall|k: int|
                0 <= k < i ==> is_dream_row(
                    rows_of(rows@)[2 + k],
                    #[trigger] shown[k],
                    changes@[k],
                ),
        decreases n - i,
    {
        let ts = format_bus_ts(dreams[i].ts_ms);
        let row = dream_row(&dreams[i], &changes[i], ts.as_str());
        let ghost had = rows_of(rows@);
        proof {
            assert(shown[i as int] == dreams@[i as int]@);
            assert(fits_column(shown[i as int].ts_ms, ts@));
        }
        put(&mut rows, row);
        proof {
            let now = rows_of(rows@);
            assert(now.take(2) =~= had.take(2));
            assert(now[2 + i as int] == dream_row_of(shown[i as int], changes@[i as int], ts@));
            assert(is_dream_row(now[2 + i as int], shown[i as int], changes@[i as int]));
            assert forall|k: int| 0 <= k < i + 1 implies is_dream_row(
                now[2 + k],
                #[trigger] shown[k],
                changes@[k],
            ) by {
                if k < i {
                    assert(now[2 + k] == had[2 + k]);
                }
            }
        }
        i = i + 1;
    }
    if n == 0 {
        assert(rows_of(rows@) =~= history_head());
        put(
            &mut rows,
            Row::of(
                "  No KANNAKA.dreams events on the bus yet \u{2014} once any constellation node",
                ink(Color::Dim),
            ),
        );
        put(
            &mut rows,
            Row::of("  finishes a dream cycle, the report shows up here.", ink(Color::Dim)),
        );
        assert(rows_of(rows@) =~= history_head() + history_hint());
    }
    rows
}

/// The title over the history.
pub fn history_title(count: usize) -> (r: String)
    ensures
        r@ == " Recent Dreams \u{b7} "@ + decimal(count as nat) + " "@,
{
    cat3(" Recent Dreams \u{b7} ", decimal_text(count as u64).as_str(), " ")
}

/// The keys of the tab.
pub open spec fn dream_keys_of() -> Seq<SpanModel> {
    seq![
        sp(" d "@, keycap(Color::Success)),
        sp(" deep dream  "@, ink(Color::Dim)),
        sp(" l "@, keycap(Color::Info)),
        sp(" lite dream  "@, ink(Color::Dim)),
        sp(" \u{2605} "@, bold(Color::Accent)),
        sp(" emergence detected "@, ink(Color::Dim)),
    ]
}

/// The keys of the tab ([`dream_keys_of`]).
pub fn dream_keys() -> (r: Row)
    ensures
        r@ == dream_keys_of(),
{
    Row::new().with(" d ", keycap(Color::Success)).with(" deep dream  ", ink(Color::Dim)).with(
        " l ",
        keycap(Color::Info),
    ).with(" lite dream  ", ink(Color::Dim)).with(" \u{2605} ", bold(Color::Accent)).with(
        " emergence detected ",
        ink(Color::Dim),
    )
}

} // verus!
