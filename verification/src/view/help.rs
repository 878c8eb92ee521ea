//! The help.

use vstd::prelude::*;
use crate::palette::Color;
use crate::text::{cat2, from_chars, pieces, split_char, texts, to_chars};
use crate::view::rows::{
    bold, ink, no_rows, plain, put, rows_of, sp, Row, SpanModel, Style,
};

verus! {

/// The text of the help. A caret and a letter set the style of what follows
/// ([`mark_style`]).
pub const HELP: &'static str = "\n\
^h Tabs\n\
^t   Memory        ^dCommand history + recent resonant memories\n\
^t   Status        ^dLive Φ / Ξ / order-parameter gauges\n\
^t   Bus           ^dLive NATS pulse — every QUEEN/KANNAKA/RADIO/KAX/EYE event\n\
^t   Constellation ^dCanvas plot of every swarm agent on the unit circle\n\
^t   Dreams        ^dNon-blocking dream trigger + KANNAKA.dreams history\n\
^t   Chat          ^dPersistent chat with the HRM-loaded agent\n\
^t   Cosmos        ^dConstellation-wide app health + radio now-playing\n\
^t   Agent         ^dCoding-agent harness with tools + approvals (default)\n\
\n\
^h Agent harness (coding agent)\n\
^k   <task>^d              Type a task + Enter to run the agent\n\
^k   a^d / ^ks^d / ^kd^d          Approve once / always / deny (Esc=deny)\n\
^k   Esc^d / ^k/stop^d        Cancel a running/stuck turn\n\
^k   /yolo /plan /default /auto^d  Permission mode\n\
^k   /model <id>^d        Switch model   ^k/clear^d Reset\n\
^k   /qos^d               Boot QuantumOS on a qBraid Lab + watch window\n\
\n\
^h Navigation\n\
^k   Tab^d / ^kShift+Tab^d   Switch tabs\n\
^k   Up^d / ^kDown^d           Command history\n\
^k   PgUp^d / ^kPgDown^d       Scroll messages\n\
^k   F1^d                  Toggle help\n\
^k   q^d / ^kEsc^d / ^kCtrl+C^d    Quit (q/Esc only when input is empty)\n\
\n\
^h Dreams tab hotkeys (when input is empty)\n\
^k   d^d   Deep dream — full consolidation cycle (~30s)\n\
^k   l^d   Lite dream — quick pass\n\
^k   r^d   Bus: reconnect failed stream · Cosmos: refresh\n\
\n\
^h Chat tab plugin slash commands\n\
^k   /code <prompt>^d   exec kannaka-code (Rust agentic CLI)\n\
^k   /topus <prompt>^d  exec kannaktopus (multi-LLM orchestrator)\n\
^d   plugin stdout streams inline into chat as it runs\n\
\n\
^h Bus subject colors\n\
^A   ●^t KANNAKA.*     ^R●^t RADIO.*     ^K●^t KAX.*\n\
^E   ●^t EYE.*         ^Q●^t QUEEN.*     ^d●^t QUEEN.phase.*\n\
\n\
^h Command bar (Memory + Chat tabs)\n\
^t   remember ^t\"text\"        ^dStore a memory\n\
^t   recall ^t\"query\"         ^dResonance search (top-k 5)\n\
^t   search ^t\"query\"         ^dLiteral text search\n\
^t   forget ^t<id>            ^dDelete a memory\n\
^t   dream^d                  Run consolidation (non-blocking)\n\
^t   ask ^t\"question\"         ^dOne-shot LLM with HRM recall\n\
^t   hear ^t<file-or-url>     ^dAbsorb audio (mp3/wav/flac/stream)\n\
^t   see ^t<file-or-url>      ^dAbsorb visual input as a wavefront\n\
^t   relate ^d/ ^tneighbors ^t\"query\"   ^dGraph recall\n\
^d   also: clusters · topology · assess · stats · cmf · invariant · voice · swarm · boost · search · market\n\
^d   cosmos · constellation · radio → open the Cosmos tab\n\
^d   anything else → routed to chat (agent picks tools)\n\
\n\
^d Press any key to close";

/// The style that a letter behind a caret stands for: a heading, a key, plain text,
/// dim text, or the colour of a kind of subject on the bus.
#[verifier::allow_in_spec]
pub fn mark_style(c: char) -> Style
    returns
        (if c == 'h' {
            bold(Color::Info)
        } else if c == 'k' {
            bold(Color::Accent)
        } else if c == 't' {
            ink(Color::Text)
        } else if c == 'd' {
            ink(Color::Dim)
        } else if c == 'A' {
            ink(Color::Accent)
        } else if c == 'R' {
            ink(Color::Rgb(255, 100, 200))
        } else if c == 'K' {
            ink(Color::Rgb(100, 200, 255))
        } else if c == 'E' {
            ink(Color::Rgb(255, 200, 100))
        } else if c == 'Q' {
            ink(Color::Rgb(180, 140, 255))
        } else {
            plain()
        }),
{
    if c == 'h' {
        bold(Color::Info)
    } else if c == 'k' {
        bold(Color::Accent)
    } else if c == 't' {
        ink(Color::Text)
    } else if c == 'd' {
        ink(Color::Dim)
    } else if c == 'A' {
        ink(Color::Accent)
    } else if c == 'R' {
        ink(Color::Rgb(255, 100, 200))
    } else if c == 'K' {
        ink(Color::Rgb(100, 200, 255))
    } else if c == 'E' {
        ink(Color::Rgb(255, 200, 100))
    } else if c == 'Q' {
        ink(Color::Rgb(180, 140, 255))
    } else {
        plain()
    }
}

/// The piece of text behind a caret.
pub open spec fn marked_span(p: Seq<char>) -> SpanModel {
    if p.len() == 0 {
        sp(p, plain())
    } else {
        sp(p.skip(1), mark_style(p[0]))
    }
}

/// The row that a line of marked text stands for.
pub open spec fn marked_row(line: Seq<char>) -> Seq<SpanModel> {
    let ps = pieces(line, '^');
    Seq::new((ps.len() - 1) as nat, |i: int| marked_span(ps[i + 1]))
}

/// The rows of the help of the given version.
pub open spec fn help_of(version: Seq<char>) -> Seq<Seq<SpanModel>> {
    let lines = pieces(HELP@, '\n');
    seq![seq![sp(" Kannaka TUI \u{b7} v"@ + version, bold(Color::Accent))]] + Seq::new(
        lines.len(),
        |i: int| marked_row(lines[i]),
    )
}

/// The row that a line of marked text stands for ([`marked_row`]).
pub fn marked(line: &str) -> (r: Row)
    ensures
        r@ == marked_row(line@),
{
    let ps = split_char(line, '^');
    let n: usize = ps.len();
    let ghost want = marked_row(line@);
    let mut row = Row::new();
    let mut i: usize = 1;
    while i < n
        invariant
            1 <= i <= n,
            n == ps@.len(),
            texts(ps@) == pieces(line@, '^'),
            want == marked_row(line@),
            row@ =~= want.take(i - 1),
        decreases n - i,
    {
        assert(texts(ps@)[i as int] == ps@[i as int]@);
        let chars = to_chars(ps[i].as_str());
        if chars.len() == 0 {
            row = row.with(ps[i].as_str(), plain());
        } else {
            let rest = from_chars(&chars, 1, chars.len());
            assert(rest@ =~= ps@[i as int]@.skip(1));
            row = row.with(rest.as_str(), mark_style(chars[0]));
        }
        assert(want[i - 1] == marked_span(ps@[i as int]@));
        assert(want.take(i as int) =~= want.take(i - 1).push(want[i - 1]));
        i = i + 1;
    }
    assert(want.take(n - 1) =~= want);
    row
}

/// The rows of the help of the given version ([`help_of`]).
pub fn help_rows(version: &str) -> (r: Vec<Row>)
    ensures
        rows_of(r@) == help_of(version@),
{
    let lines = split_char(HELP, '\n');
    let n: usize = lines.len();
    let mut rows = no_rows();
    put(
        &mut rows,
        Row::of(cat2(" Kannaka TUI \u{b7} v", version).as_str(), bold(Color::Accent)),
    );
    let ghost head = rows_of(rows@);
    let ghost want = Seq::new(n as nat, |i: int| marked_row(pieces(HELP@, '\n')[i]));
    let mut i: usize = 0;
    while i < n
        invariant
            i <= n,
            n == lines@.len(),
            texts(lines@) == pieces(HELP@, '\n'),
            want == Seq::new(n as nat, |i: int| marked_row(pieces(HELP@, '\n')[i])),
            rows_of(rows@) =~= head + want.take(i as int),
        decreases n - i,
    {
        assert(texts(lines@)[i as int] == lines@[i as int]@);
        put(&mut rows, marked(lines[i].as_str()));
        assert(want.take(i + 1) =~= want.take(i as int).push(want[i as int]));
        i = i + 1;
    }
    assert(want.take(n as int) =~= want);
    assert(rows_of(rows@) =~= help_of(version@));
    rows
}

} // verus!
