//! The Constellation tab.

use vstd::prelude::*;
use crate::bus::{is_fresh, Bus, BusModel, BusStatus, AGENT_FRESH_WINDOW};
use crate::clock::elapsed;
use crate::palette::{agent_color, handed_color, Color};
use crate::payload::{AgentSnapshot, SnapshotModel};
use crate::text::{
    cat4, cat5, cut, decimal, decimal_text, left_in, pad_left, pad_right, right_in, truncate,
};
use crate::view::rows::{blank, bold, ink, no_rows, put, rows_of, sp, Row, SpanModel};

verus! {

/// The words for why no agent is shown.
pub open spec fn waiting_words(s: BusStatus) -> Seq<char> {
    match s {
        BusStatus::Off => "  Waiting for the bus to start\u{2026}"@,
        BusStatus::Connecting => "  Connecting to the swarm\u{2026}"@,
        BusStatus::Streaming => "  Streaming \u{2014} no agents have reported phase yet"@,
        BusStatus::Failed => "  Bus failed \u{2014} see logs"@,
    }
}

/// The rows while there is no agent.
pub open spec fn waiting_of(s: BusStatus) -> Seq<Seq<SpanModel>> {
    seq![
        blank(),
        seq![sp("  Constellation"@, bold(Color::Accent))],
        blank(),
        seq![sp(waiting_words(s), ink(Color::Dim))],
        blank(),
        seq![
            sp("  Each agent appears on the unit circle once it publishes a"@, ink(Color::Dim)),
        ],
        seq![
            sp("  QUEEN.phase.<agent_id> heartbeat. Radial distance encodes"@, ink(Color::Dim)),
        ],
        seq![
            sp("  the agent's coherence; color encodes handedness/\u{3a6}."@, ink(Color::Dim)),
        ],
    ]
}

/// The rows while there is no agent ([`waiting_of`]).
pub fn waiting_rows(s: BusStatus) -> (r: Vec<Row>)
    ensures
        rows_of(r@) == waiting_of(s),
{
    let words = match s {
        BusStatus::Off => "  Waiting for the bus to start\u{2026}",
        BusStatus::Connecting => "  Connecting to the swarm\u{2026}",
        BusStatus::Streaming => "  Streaming \u{2014} no agents have reported phase yet",
        BusStatus::Failed => "  Bus failed \u{2014} see logs",
    };
    let mut rows = no_rows();
    put(&mut rows, Row::new());
    put(&mut rows, Row::of("  Constellation", bold(Color::Accent)));
    put(&mut rows, Row::new());
    put(&mut rows, Row::of(words, ink(Color::Dim)));
    put(&mut rows, Row::new());
    put(
        &mut rows,
        Row::of("  Each agent appears on the unit circle once it publishes a", ink(Color::Dim)),
    );
    put(
        &mut rows,
        Row::of("  QUEEN.phase.<agent_id> heartbeat. Radial distance encodes", ink(Color::Dim)),
    );
    put(
        &mut rows,
        Row::of("  the agent's coherence; color encodes handedness/\u{3a6}.", ink(Color::Dim)),
    );
    assert(rows_of(rows@) =~~= waiting_of(s));
    rows
}

/// What stands in place of the plot: the rows of [`waiting_of`] exactly while there is
/// no agent.
pub open spec fn placeholder_of(b: BusModel) -> Option<Seq<Seq<SpanModel>>> {
    if b.agents.len() == 0 {
        Some(waiting_of(b.status))
    } else {
        None
    }
}

/// What stands in place of the plot ([`placeholder_of`]).
pub fn placeholder(b: &Bus) -> (r: Option<Vec<Row>>)
    ensures
        match r {
            Some(rows) => placeholder_of(b@) == Some(rows_of(rows@)),
            None => placeholder_of(b@) is None,
        },
{
    if b.agents.len() == 0 {
        Some(waiting_rows(b.status))
    } else {
        None
    }
}

/// The title over the plot.
pub open spec fn plot_title_of(count: nat) -> Seq<char> {
    " Constellation \u{b7} "@ + decimal(count) + " agent"@ + (if count == 1 {
        ""@
    } else {
        "s"@
    }) + " "@
}

/// The title over the plot ([`plot_title_of`]).
pub fn plot_title(count: usize) -> (r: String)
    ensures
        r@ == plot_title_of(count as nat),
{
    cat5(
        " Constellation \u{b7} ",
        decimal_text(count as u64).as_str(),
        " agent",
        if count == 1 {
            ""
        } else {
            "s"
        },
        " ",
    )
}

/// The colour of an agent: by its handedness, or by its measure, whose colour is
/// `by_phi`; dim where it has gone quiet.
pub open spec fn shade_of(a: SnapshotModel, now: u64, by_phi: Color) -> Color {
    if is_fresh(a, now) {
        handed_color(a.handedness, by_phi)
    } else {
        Color::Dim
    }
}

/// Whether an agent was heard from lately.
pub fn fresh(a: &AgentSnapshot, now: u64) -> (r: bool)
    ensures
        r == is_fresh(a@, now),
{
    elapsed(now, a.last_seen) < AGENT_FRESH_WINDOW
}

/// The colour of an agent ([`shade_of`]).
pub fn shade(a: &AgentSnapshot, now: u64, by_phi: Color) -> (r: Color)
    ensures
        r == shade_of(a@, now, by_phi),
{
    if fresh(a, now) {
        agent_color(a.handedness.as_str(), by_phi)
    } else {
        Color::Dim
    }
}

/// The label of an agent in the plot.
pub fn plot_label(a: &AgentSnapshot) -> (r: String)
    ensures
        r@ == cut(a.agent_id@, 14),
{
    truncate(a.agent_id.as_str(), 14)
}

/// The figures of an agent as they are shown: its measure with three decimals, its
/// angle and its distance with two, and the colour of the measure.
pub struct AgentFigures {
    pub phi: String,
    pub theta: String,
    pub r: String,
    pub phi_color: Color,
}

/// The row of an agent in the table.
pub open spec fn agent_row_of(a: SnapshotModel, f: AgentFigures, now: u64) -> Seq<SpanModel> {
    seq![
        sp(
            if is_fresh(a, now) {
                "  "@
            } else {
                "\u{b7} "@
            },
            ink(Color::Dim),
        ),
        sp(left_in(cut(a.agent_id, 14), 14), bold(shade_of(a, now, f.phi_color))),
        sp(
            " "@ + right_in(f.phi@, 5) + " "@ + right_in(f.theta@, 5) + " "@ + right_in(f.r@, 4)
                + " "@ + right_in(decimal(a.memory_count as nat), 5),
            ink(Color::Text),
        ),
    ]
}

/// The row of an agent in the table ([`agent_row_of`]).
pub fn agent_row(a: &AgentSnapshot, f: &AgentFigures, now: u64) -> (r: Row)
    ensures
        r@ == agent_row_of(a@, *f, now),
{
    let mark = if fresh(a, now) {
        "  "
    } else {
        "\u{b7} "
    };
    let id = pad_right(truncate(a.agent_id.as_str(), 14).as_str(), 14);
    let left = cat4(
        " ",
        pad_left(f.phi.as_str(), 5).as_str(),
        " ",
        pad_left(f.theta.as_str(), 5).as_str(),
    );
    let figures = cat5(
        left.as_str(),
        " ",
        pad_left(f.r.as_str(), 4).as_str(),
        " ",
        pad_left(decimal_text(a.memory_count).as_str(), 5).as_str(),
    );
    Row::new().with(mark, ink(Color::Dim)).with(
        id.as_str(),
        bold(shade(a, now, f.phi_color)),
    ).with(figures.as_str(), ink(Color::Text))
}

/// The heading of the table.
pub open spec fn table_head() -> Seq<SpanModel> {
    seq![
        sp("  agent"@, bold(Color::Dim)),
        sp("           \u{3a6}     \u{3b8}     r    mem"@, bold(Color::Dim)),
    ]
}

/// The table of the agents, in their order; `figures` holds those of each agent.
pub fn table_rows(agents: &Vec<AgentSnapshot>, figures: &Vec<AgentFigures>, now: u64) -> (r: Vec<
    Row,
>)
    requires
        figures@.len() == agents@.len(),
    ensures
        rows_of(r@) == seq![table_head()] + Seq::new(
            agents@.len(),
            |i: int| agent_row_of(agents@[i]@, figures@[i], now),
        ),
{
    let n: usize = agents.len();
    let ghost want = Seq::new(
        n as nat,
        |i: int| agent_row_of(agents@[i]@, figures@[i], now),
    );
    let mut rows = no_rows();
    put(
        &mut rows,
        Row::new().with("  agent", bold(Color::Dim)).with(
            "           \u{3a6}     \u{3b8}     r    mem",
            bold(Color::Dim),
        ),
    );
    assert(rows_of(rows@) =~~= seq![table_head()]);
    let mut i: usize = 0;
    while i < n
        invariant
            n == agents@.len(),
            figures@.len() == n,
            i <= n,
            want == Seq::new(n as nat, |i: int| agent_row_of(agents@[i]@, figures@[i], now)),
            rows_of(rows@) =~= seq![table_head()] + want.take(i as int),
        decreases n - i,
    {
        put(&mut rows, agent_row(&agents[i], &figures[i], now));
        assert(want.take(i + 1) =~= want.take(i as int).push(want[i as int]));
        i = i + 1;
    }
    assert(want.take(n as int) =~= want);
    rows
}

} // verus!
