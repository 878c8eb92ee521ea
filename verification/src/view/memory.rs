//! The Memory tab: the message log, and the strongest memories.

use vstd::prelude::*;
use crate::buffer::first_of;
use crate::log::status_model;
use crate::palette::{level_color, lowercase_of, lowered_level_color, Color};
use crate::reports::{
    memory_models, message_models, MemoryEntry, MemoryModel, Message, MessageModel, Role, Status,
    StatusModel,
};
use crate::text::{cat2, cat4, decimal, decimal_text, head, repeated};
use crate::view::rows::{
    blank, ink, keep_seen, no_rows, plain, put, rows_of, seen, sp, Row, SpanModel,
};

verus! {

/// The mark before a line of the log, and the colour of the line.
pub open spec fn role_mark(r: Role) -> (Seq<char>, Color) {
    match r {
        Role::User => ("> "@, Color::Accent),
        Role::System => ("\u{2192} "@, Color::Info),
        Role::Result => ("\u{2713} "@, Color::Success),
        Role::Error => ("\u{2717} "@, Color::Error),
    }
}

/// A line of the log.
pub open spec fn message_row_of(m: MessageModel) -> Seq<SpanModel> {
    let mark = role_mark(m.role);
    seq![sp(mark.0, ink(mark.1)), sp(m.content, ink(mark.1))]
}

/// A line of the log ([`message_row_of`]).
pub fn message_row(m: &Message) -> (r: Row)
    ensures
        r@ == message_row_of(m@),
{
    let (mark, color) = match m.role {
        Role::User => ("> ", Color::Accent),
        Role::System => ("\u{2192} ", Color::Info),
        Role::Result => ("\u{2713} ", Color::Success),
        Role::Error => ("\u{2717} ", Color::Error),
    };
    Row::new().with(mark, ink(color)).with(m.content.as_str(), ink(color))
}

/// The lines of the log that are seen.
pub open spec fn log_of(messages: Seq<MessageModel>, scroll: nat, height: nat) -> Seq<
    Seq<SpanModel>,
> {
    seen(messages.map_values(|m: MessageModel| message_row_of(m)), scroll, height)
}

/// The lines of the log that are seen ([`log_of`]).
pub fn log_rows(messages: &Vec<Message>, scroll: usize, height: usize) -> (r: Vec<Row>)
    ensures
        rows_of(r@) == log_of(message_models(messages@), scroll as nat, height as nat),
{
    let mut rows = no_rows();
    let n: usize = messages.len();
    let mut i: usize = 0;
    let ghost all = message_models(messages@).map_values(|m: MessageModel| message_row_of(m));
    while i < n
        invariant
            n == messages@.len(),
            i <= n,
            all == message_models(messages@).map_values(|m: MessageModel| message_row_of(m)),
            rows_of(rows@) =~= all.take(i as int),
        decreases n - i,
    {
        put(&mut rows, message_row(&messages[i]));
        assert(all.take(i + 1) =~= all.take(i as int).push(all[i as int]));
        i = i + 1;
    }
    assert(all.take(n as int) =~= all);
    keep_seen(&mut rows, scroll, height);
    rows
}

/// An amplitude as it is shown: a bar of so many tenths, its colour, and the number
/// with two decimals.
pub struct AmplitudeMark {
    pub tenths: usize,
    pub color: Color,
    pub text: String,
}

/// A bar of ten cells, `tenths` of which are full.
pub open spec fn bar_of(tenths: nat) -> Seq<char> {
    let full = if tenths <= 10 {
        tenths
    } else {
        10
    };
    Seq::new(full, |i: int| '\u{2588}') + Seq::new((10 - full) as nat, |i: int| '\u{2591}')
}

/// A bar of ten cells ([`bar_of`]).
pub fn amplitude_bar(tenths: usize) -> (r: String)
    ensures
        r@ == bar_of(tenths as nat),
{
    let full: usize = if tenths <= 10 {
        tenths
    } else {
        10
    };
    cat2(repeated('\u{2588}', full).as_str(), repeated('\u{2591}', 10 - full).as_str())
}

/// A memory with its amplitude.
pub open spec fn memory_row_of(m: MemoryModel, a: AmplitudeMark) -> Seq<SpanModel> {
    seq![
        sp(bar_of(a.tenths as nat), ink(a.color)),
        sp(" "@, plain()),
        sp(first_of(m.content, 24) + " ("@ + a.text@ + ")"@, ink(Color::Text)),
    ]
}

/// A memory with its amplitude ([`memory_row_of`]).
pub fn memory_row(m: &MemoryEntry, a: &AmplitudeMark) -> (r: Row)
    ensures
        r@ == memory_row_of(m@, *a),
{
    let words = cat4(head(m.content.as_str(), 24).as_str(), " (", a.text.as_str(), ")");
    Row::new().with(amplitude_bar(a.tenths).as_str(), ink(a.color)).with(" ", plain()).with(
        words.as_str(),
        ink(Color::Text),
    )
}

/// The counts under the memories, all 0 where there is no status.
pub open spec fn counts_of(s: Option<StatusModel>) -> Seq<Seq<SpanModel>> {
    let (memories, clusters, links, level) = match s {
        Some(s) => (s.memories, s.clusters, s.links, s.level),
        None => (0, 0, 0, "Unknown"@),
    };
    seq![
        blank(),
        seq![sp("  Memories: "@ + decimal(memories as nat), ink(Color::Dim))],
        seq![sp("  Clusters: "@ + decimal(clusters as nat), ink(Color::Dim))],
        seq![sp("  Links: "@ + decimal(links as nat), ink(Color::Dim))],
        seq![sp("  Level: "@ + level, ink(lowered_level_color(lowercase_of(level))))],
    ]
}

/// The memories of a panel of `height` cells, as far as there is room, and the counts
/// under them.
pub open spec fn memories_of(
    memories: Seq<MemoryModel>,
    marks: Seq<AmplitudeMark>,
    s: Option<StatusModel>,
    height: nat,
) -> Seq<Seq<SpanModel>> {
    let room = if height >= 6 {
        (height - 6) as nat
    } else {
        0
    };
    let n = if memories.len() <= room {
        memories.len()
    } else {
        room
    };
    Seq::new(n, |i: int| memory_row_of(memories[i], marks[i])) + counts_of(s)
}

/// The memories and the counts under them ([`memories_of`]); `marks` holds the
/// amplitude of each memory.
pub fn memory_rows(
    memories: &Vec<MemoryEntry>,
    marks: &Vec<AmplitudeMark>,
    status: &Option<Status>,
    height: usize,
) -> (r: Vec<Row>)
    requires
        marks@.len() == memories@.len(),
    ensures
        rows_of(r@) == memories_of(
            memory_models(memories@),
            marks@,
            status_model(*status),
            height as nat,
        ),
{
    let ghost models = memory_models(memories@);
    let room: usize = if height >= 6 {
        height - 6
    } else {
        0
    };
    let n: usize = if memories.len() <= room {
        memories.len()
    } else {
        room
    };
    let mut rows = no_rows();
    let mut i: usize = 0;
    let ghost want = Seq::new(n as nat, |i: int| memory_row_of(models[i], marks@[i]));
    while i < n
        invariant
            i <= n <= memories@.len(),
            marks@.len() == memories@.len(),
            models == memory_models(memories@),
            want == Seq::new(n as nat, |i: int| memory_row_of(models[i], marks@[i])),
            rows_of(rows@) =~= want.take(i as int),
        decreases n - i,
    {
        put(&mut rows, memory_row(&memories[i], &marks[i]));
        assert(want.take(i + 1) =~= want.take(i as int).push(want[i as int]));
        i = i + 1;
    }
    assert(want.take(n as int) =~= want);
    let (memories_n, clusters, links, level): (u64, u64, u64, &str) = match status {
        Some(s) => (s.memories, s.clusters, s.links, s.level.as_str()),
        None => (0, 0, 0, "Unknown"),
    };
    put(&mut rows, Row::new());
    put(
        &mut rows,
        Row::of(cat2("  Memories: ", decimal_text(memories_n).as_str()).as_str(), ink(Color::Dim)),
    );
    put(
        &mut rows,
        Row::of(cat2("  Clusters: ", decimal_text(clusters).as_str()).as_str(), ink(Color::Dim)),
    );
    put(
        &mut rows,
        Row::of(cat2("  Links: ", decimal_text(links).as_str()).as_str(), ink(Color::Dim)),
    );
    put(&mut rows, Row::of(cat2("  Level: ", level).as_str(), ink(level_color(level))));
    assert(rows_of(rows@) =~= want + counts_of(status_model(*status)));
    rows
}

} // verus!
