//! The Bus tab.

use vstd::prelude::*;
use crate::buffer::last_of;
use crate::bus::{bus_line_models, Bus, BusStatus};
use crate::palette::{bus_subject_color, subject_color, Color};
use crate::payload::{calendar_covers, clock_shaped, format_bus_ts, BusLine, BusLineModel};
use crate::text::{cat2, cat5, cut, decimal, decimal_text, left_in, pad_right, truncate};
use crate::view::rows::{bold, ink, sp, Row, SpanModel};

verus! {

/// The words for the state of the stream, and their colour.
pub open spec fn bus_label_of(s: BusStatus) -> (Seq<char>, Color) {
    match s {
        BusStatus::Off => ("idle \u{2014} switch to this tab to start"@, Color::Dim),
        BusStatus::Connecting => ("connecting\u{2026}"@, Color::Warning),
        BusStatus::Streaming => ("streaming"@, Color::Success),
        BusStatus::Failed => (
            "failed \u{2014} check `kannaka swarm tail` manually"@,
            Color::Error,
        ),
    }
}

/// The words for the state of the stream, and their colour ([`bus_label_of`]).
pub fn bus_label(s: BusStatus) -> (r: (&'static str, Color))
    ensures
        (r.0@, r.1) == bus_label_of(s),
{
    match s {
        BusStatus::Off => ("idle \u{2014} switch to this tab to start", Color::Dim),
        BusStatus::Connecting => ("connecting\u{2026}", Color::Warning),
        BusStatus::Streaming => ("streaming", Color::Success),
        BusStatus::Failed => (
            "failed \u{2014} check `kannaka swarm tail` manually",
            Color::Error,
        ),
    }
}

/// The title of the tab.
pub fn bus_title(b: &Bus) -> (r: String)
    ensures
        r@ == " Bus \u{b7} "@ + bus_label_of(b.status).0 + " \u{b7} "@ + decimal(
            b.lines@.len(),
        ) + " msgs "@,
{
    let (label, _) = bus_label(b.status);
    cat5(
        " Bus \u{b7} ",
        label,
        " \u{b7} ",
        decimal_text(b.lines.len() as u64).as_str(),
        " msgs ",
    )
}

/// A line of the bus whose time column is `ts`.
pub open spec fn bus_row_of(l: BusLineModel, ts: Seq<char>) -> Seq<SpanModel> {
    seq![
        sp(ts + " "@, ink(Color::Dim)),
        sp(left_in(cut(l.subject, 28), 28) + " "@, bold(subject_color(l.subject))),
        sp(l.summary, ink(Color::Text)),
    ]
}

/// A line of the bus ([`bus_row_of`]).
pub fn bus_row(l: &BusLine, ts: &str) -> (r: Row)
    ensures
        r@ == bus_row_of(l@, ts@),
{
    let subject = pad_right(truncate(l.subject.as_str(), 28).as_str(), 28);
    Row::new().with(cat2(ts, " ").as_str(), ink(Color::Dim)).with(
        cat2(subject.as_str(), " ").as_str(),
        bold(bus_subject_color(l.subject.as_str())),
    ).with(l.summary.as_str(), ink(Color::Text))
}

/// Whether `ts` can stand in the time column of the timestamp `ts_ms`: a time of
/// day, or blanks where there is none.
pub open spec fn fits_column(ts_ms: i64, ts: Seq<char>) -> bool {
    if ts_ms == 0 || !calendar_covers(ts_ms) {
        ts == "        "@
    } else {
        clock_shaped(ts)
    }
}

/// Whether `row` is the line `l` with a time in its time column, or with blanks.
pub open spec fn is_bus_row(row: Seq<SpanModel>, l: BusLineModel) -> bool {
    exists|ts: Seq<char>| fits_column(l.ts_ms, ts) && row == #[trigger] bus_row_of(l, ts)
}

/// The lines that a body of `height` cells shows: the newest, and always one.
pub open spec fn bus_lines_of(lines: Seq<BusLineModel>, height: nat) -> Seq<BusLineModel> {
    last_of(
        lines,
        if height == 0 {
            1
        } else {
            height
        },
    )
}

/// The lines that a body of `height` cells shows, the newest at the bottom.
pub fn bus_rows(lines: &Vec<BusLine>, height: usize) -> (r: Vec<Row>)
    ensures
        ({
            let shown = bus_lines_of(bus_line_models(lines@), height as nat);
            &&& r@.len() == shown.len()
            &&& forall|i: int| 0 <= i < r@.len() ==> is_bus_row((#[trigger] r@[i])@, shown[i])
        }),
{
    let ghost models = bus_line_models(lines@);
    let n: usize = lines.len();
    let room: usize = if height == 0 {
        1
    } else {
        height
    };
    let from: usize = if n <= room {
        0
    } else {
        n - room
    };
    let ghost shown = bus_lines_of(models, height as nat);
    assert(shown =~= models.skip(from as int));
    let mut rows: Vec<Row> = Vec::new();
    let mut i: usize = from;
    while i < n
        invariant
            from <= i <= n,
            n == lines@.len(),
            models == bus_line_models(lines@),
            shown == models.skip(from as int),
            rows@.len() == i - from,
            forall|k: int| 0 <= k < rows@.len() ==> is_bus_row((#[trigger] rows@[k])@, shown[k]),
        decreases n - i,
    {
        let ts = format_bus_ts(lines[i].ts_ms);
        let row = bus_row(&lines[i], ts.as_str());
        proof {
            let l = shown[i - from];
            assert(l == lines@[i as int]@);
            assert(fits_column(l.ts_ms, ts@) && row@ == bus_row_of(l, ts@));
            assert(is_bus_row(row@, l));
        }
        rows.push(row);
        i = i + 1;
    }
    rows
}

} // verus!
