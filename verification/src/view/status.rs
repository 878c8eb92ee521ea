//! The Status tab.

use vstd::prelude::*;
use crate::log::status_model;
use crate::palette::{level_color, lowercase_of, lowered_level_color, Color};
use crate::reports::{Status, StatusModel};
use crate::text::{cat3, decimal, decimal_text};
use crate::view::frame::Figures;
use crate::view::rows::{blank, bold, ink, no_rows, put, rows_of, sp, Row, SpanModel};

verus! {

/// The titles of the three gauges, and their colours.
pub open spec fn gauges_of(f: Figures) -> Seq<(Seq<char>, Color)> {
    seq![
        (" Phi (Integrated Information): "@ + f.phi@ + " "@, f.phi_color),
        (" Xi (Irrationality): "@ + f.xi@ + " "@, Color::Info),
        (" Order Parameter (r): "@ + f.order@ + " "@, Color::Success),
    ]
}

/// What each of the gauges says.
pub open spec fn gauge_models(v: Seq<(String, Color)>) -> Seq<(Seq<char>, Color)> {
    v.map_values(|g: (String, Color)| (g.0@, g.1))
}

/// The titles of the three gauges, and their colours ([`gauges_of`]).
pub fn gauges(f: &Figures) -> (r: Vec<(String, Color)>)
    ensures
        gauge_models(r@) == gauges_of(*f),
{
    let mut v: Vec<(String, Color)> = Vec::new();
    v.push((cat3(" Phi (Integrated Information): ", f.phi.as_str(), " "), f.phi_color));
    v.push((cat3(" Xi (Irrationality): ", f.xi.as_str(), " "), Color::Info));
    v.push((cat3(" Order Parameter (r): ", f.order.as_str(), " "), Color::Success));
    assert(gauge_models(v@) =~= gauges_of(*f));
    v
}

/// What stands in place of the figures while there are none.
pub open spec fn loading_of(s: Option<StatusModel>) -> Option<Seq<SpanModel>> {
    match s {
        Some(_) => None,
        None => Some(seq![sp("Loading status... (polling kannaka status)"@, ink(Color::Dim))]),
    }
}

/// What stands in place of the figures while there are none ([`loading_of`]).
pub fn loading_row(s: &Option<Status>) -> (r: Option<Row>)
    ensures
        match r {
            Some(row) => loading_of(status_model(*s)) == Some(row@),
            None => loading_of(status_model(*s)) is None,
        },
{
    match s {
        Some(_) => None,
        None => Some(Row::of("Loading status... (polling kannaka status)", ink(Color::Dim))),
    }
}

/// One figure with its label.
pub open spec fn figure_of(label: Seq<char>, n: u64, c: Color) -> Seq<SpanModel> {
    seq![sp(label, ink(Color::Dim)), sp(decimal(n as nat), ink(c))]
}

/// The figures beside the gauges.
pub open spec fn info_of(s: StatusModel) -> Seq<Seq<SpanModel>> {
    seq![
        blank(),
        seq![
            sp("  Consciousness Level: "@, ink(Color::Dim)),
            sp(s.level, bold(lowered_level_color(lowercase_of(s.level)))),
        ],
        blank(),
        figure_of("  Total Memories:  "@, s.memories, Color::Text),
        figure_of("  Active Memories: "@, s.active, Color::Success),
        figure_of("  Clusters:        "@, s.clusters, Color::Info),
        figure_of("  Skip Links:      "@, s.links, Color::Accent),
        blank(),
        seq![sp("  Polling every 5s on this tab"@, ink(Color::Dim))],
    ]
}

/// One figure with its label ([`figure_of`]).
fn figure(label: &str, n: u64, c: Color) -> (r: Row)
    ensures
        r@ == figure_of(label@, n, c),
{
    Row::new().with(label, ink(Color::Dim)).with(decimal_text(n).as_str(), ink(c))
}

/// The figures beside the gauges ([`info_of`]).
pub fn info_rows(s: &Status) -> (r: Vec<Row>)
    ensures
        rows_of(r@) == info_of(s@),
{
    let mut rows = no_rows();
    put(&mut rows, Row::new());
    put(
        &mut rows,
        Row::new().with("  Consciousness Level: ", ink(Color::Dim)).with(
            s.level.as_str(),
            bold(level_color(s.level.as_str())),
        ),
    );
    put(&mut rows, Row::new());
    put(&mut rows, figure("  Total Memories:  ", s.memories, Color::Text));
    put(&mut rows, figure("  Active Memories: ", s.active, Color::Success));
    put(&mut rows, figure("  Clusters:        ", s.clusters, Color::Info));
    put(&mut rows, figure("  Skip Links:      ", s.links, Color::Accent));
    put(&mut rows, Row::new());
    put(&mut rows, Row::of("  Polling every 5s on this tab", ink(Color::Dim)));
    assert(rows_of(rows@) =~~= info_of(s@));
    rows
}

} // verus!
