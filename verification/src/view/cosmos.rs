//! The Cosmos tab.

use vstd::prelude::*;
use crate::cosmos::{app_models, Cosmos, CosmosApp, CosmosAppModel, CosmosModel};
use crate::palette::Color;
use crate::text::{cat2, cat5, cut, decimal, decimal_text, left_in, pad_right, texts, truncate};
use crate::view::rows::{
    blank, bold, ink, keycap, no_rows, put, rows_of, sp, Row, SpanModel, Style,
};

verus! {

/// The colour of the radio.
#[verifier::allow_in_spec]
pub fn radio_pink() -> Color
    returns
        Color::Rgb(255, 100, 200),
{
    Color::Rgb(255, 100, 200)
}

/// The style of line `i` of the radio: what plays now stands out.
pub open spec fn radio_style(i: int) -> Style {
    if i == 0 {
        bold(radio_pink())
    } else {
        ink(Color::Dim)
    }
}

/// The rows of the radio.
pub open spec fn radio_of(lines: Seq<Seq<char>>) -> Seq<Seq<SpanModel>> {
    if lines.len() == 0 {
        seq![seq![sp("  radio offline or not yet polled"@, ink(Color::Dim))]]
    } else {
        Seq::new(lines.len(), |i: int| seq![sp("  "@ + lines[i], radio_style(i))])
    }
}

/// The rows of the radio ([`radio_of`]).
pub fn radio_rows(lines: &Vec<String>) -> (r: Vec<Row>)
    ensures
        rows_of(r@) == radio_of(texts(lines@)),
{
    let n: usize = lines.len();
    let mut rows = no_rows();
    if n == 0 {
        put(&mut rows, Row::of("  radio offline or not yet polled", ink(Color::Dim)));
        assert(rows_of(rows@) =~= radio_of(texts(lines@)));
        return rows;
    }
    let ghost want = radio_of(texts(lines@));
    let mut i: usize = 0;
    while i < n
        invariant
            n == lines@.len(),
            n > 0,
            i <= n,
            want == radio_of(texts(lines@)),
            rows_of(rows@) =~= want.take(i as int),
        decreases n - i,
    {
        let style = if i == 0 {
            bold(radio_pink())
        } else {
            ink(Color::Dim)
        };
        put(&mut rows, Row::of(cat2("  ", lines[i].as_str()).as_str(), style));
        assert(want[i as int] == seq![sp("  "@ + lines@[i as int]@, style)]);
        assert(want.take(i + 1) =~= want.take(i as int).push(want[i as int]));
        i = i + 1;
    }
    assert(want.take(n as int) =~= want);
    rows
}

/// How many of the apps are up.
pub open spec fn up_count(apps: Seq<CosmosAppModel>) -> nat
    decreases apps.len(),
{
    if apps.len() == 0 {
        0
    } else {
        up_count(apps.drop_last()) + (if apps.last().up {
            1nat
        } else {
            0
        })
    }
}

/// How many of the apps are up ([`up_count`]).
pub fn count_up(apps: &Vec<CosmosApp>) -> (r: usize)
    ensures
        r == up_count(app_models(apps@)),
        r <= apps@.len(),
{
    let ghost models = app_models(apps@);
    let n: usize = apps.len();
    let mut up: usize = 0;
    let mut i: usize = 0;
    assert(models.take(0) =~= Seq::<CosmosAppModel>::empty());
    while i < n
        invariant
            n == apps@.len(),
            i <= n,
            up <= i,
            models == app_models(apps@),
            up == up_count(models.take(i as int)),
        decreases n - i,
    {
        proof {
            assert(models.take(i + 1).drop_last() =~= models.take(i as int));
            assert(models.take(i + 1).last() == apps@[i as int]@);
        }
        if apps[i].up {
            up = up + 1;
        }
        i = i + 1;
    }
    assert(models.take(n as int) =~= models);
    up
}

/// The row of an app.
pub open spec fn app_row_of(a: CosmosAppModel) -> Seq<SpanModel> {
    seq![
        if a.up {
            sp("  \u{2713} "@, bold(Color::Success))
        } else {
            sp("  \u{2717} "@, bold(Color::Error))
        },
        sp(
            left_in(cut(a.name, 24), 24),
            bold(
                if a.up {
                    Color::Text
                } else {
                    Color::Dim
                },
            ),
        ),
        sp(" "@ + a.url, ink(Color::Dim)),
    ]
}

/// The row of an app ([`app_row_of`]).
pub fn app_row(a: &CosmosApp) -> (r: Row)
    ensures
        r@ == app_row_of(a@),
{
    let (mark, color, name_color) = if a.up {
        ("  \u{2713} ", Color::Success, Color::Text)
    } else {
        ("  \u{2717} ", Color::Error, Color::Dim)
    };
    let name = pad_right(truncate(a.name.as_str(), 24).as_str(), 24);
    Row::new().with(mark, bold(color)).with(name.as_str(), bold(name_color)).with(
        cat2(" ", a.url.as_str()).as_str(),
        ink(Color::Dim),
    )
}

/// The rows of the apps: why the last poll found nothing, or that there is nothing
/// yet, or how many are up and each of them.
pub open spec fn apps_of(c: CosmosModel) -> Seq<Seq<SpanModel>> {
    match c.error {
        Some(e) => seq![seq![sp("  "@ + e, ink(Color::Error))]],
        None => if c.apps.len() == 0 {
            seq![
                seq![
                    sp(
                        if c.pending {
                            "  polling kannaka constellation\u{2026}"@
                        } else {
                            "  no constellation data \u{2014} press 'r' to refresh"@
                        },
                        ink(Color::Dim),
                    ),
                ],
            ]
        } else {
            seq![
                seq![
                    sp(
                        "  "@ + decimal(up_count(c.apps)) + "/"@ + decimal(c.apps.len())
                            + " apps up"@,
                        bold(Color::Dim),
                    ),
                ],
                blank(),
            ] + c.apps.map_values(|a: CosmosAppModel| app_row_of(a))
        },
    }
}

/// The rows of the apps ([`apps_of`]).
pub fn app_rows(c: &Cosmos) -> (r: Vec<Row>)
    ensures
        rows_of(r@) == apps_of(c@),
{
    let mut rows = no_rows();
    match &c.error {
        Some(e) => {
            put(&mut rows, Row::of(cat2("  ", e.as_str()).as_str(), ink(Color::Error)));
            assert(rows_of(rows@) =~= apps_of(c@));
            return rows;
        },
        None => {},
    }
    let n: usize = c.apps.len();
    if n == 0 {
        let words = if c.pending {
            "  polling kannaka constellation\u{2026}"
        } else {
            "  no constellation data \u{2014} press 'r' to refresh"
        };
        put(&mut rows, Row::of(words, ink(Color::Dim)));
        assert(rows_of(rows@) =~= apps_of(c@));
        return rows;
    }
    let up = decimal_text(count_up(&c.apps) as u64);
    let total = decimal_text(n as u64);
    put(
        &mut rows,
        Row::of(
            cat5("  ", up.as_str(), "/", total.as_str(), " apps up").as_str(),
            bold(Color::Dim),
        ),
    );
    put(&mut rows, Row::new());
    let ghost head = rows_of(rows@);
    let ghost want = app_models(c.apps@).map_values(|a: CosmosAppModel| app_row_of(a));
    let mut i: usize = 0;
    while i < n
        invariant
            n == c.apps@.len(),
            i <= n,
            want == app_models(c.apps@).map_values(|a: CosmosAppModel| app_row_of(a)),
            rows_of(rows@) =~= head + want.take(i as int),
        decreases n - i,
    {
        put(&mut rows, app_row(&c.apps[i]));
        assert(want.take(i + 1) =~= want.take(i as int).push(want[i as int]));
        i = i + 1;
    }
    assert(want.take(n as int) =~= want);
    assert(rows_of(rows@) =~~= apps_of(c@));
    rows
}

/// The keys of the tab, and whether a poll is under way.
pub open spec fn cosmos_keys_of(pending: bool) -> Seq<SpanModel> {
    seq![
        sp(" r "@, keycap(Color::Info)),
        sp(" refresh   "@, ink(Color::Dim)),
        sp("\u{2713}"@, ink(Color::Success)),
        sp(" up   "@, ink(Color::Dim)),
        sp("\u{2717}"@, ink(Color::Error)),
        sp(" down  "@, ink(Color::Dim)),
        if pending {
            sp(" polling\u{2026} "@, ink(Color::Warning))
        } else {
            sp(" idle "@, ink(Color::Dim))
        },
    ]
}

/// The keys of the tab ([`cosmos_keys_of`]).
pub fn cosmos_keys(pending: bool) -> (r: Row)
    ensures
        r@ == cosmos_keys_of(pending),
{
    let (words, color) = if pending {
        (" polling\u{2026} ", Color::Warning)
    } else {
        (" idle ", Color::Dim)
    };
    Row::new().with(" r ", keycap(Color::Info)).with(" refresh   ", ink(Color::Dim)).with(
        "\u{2713}",
        ink(Color::Success),
    ).with(" up   ", ink(Color::Dim)).with("\u{2717}", ink(Color::Error)).with(
        " down  ",
        ink(Color::Dim),
    ).with(words, ink(color))
}

} // verus!
