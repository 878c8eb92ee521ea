//! Rows of styled text.

use vstd::prelude::*;
use crate::buffer::{keep_last, last_of, lemma_last_of_map};
use crate::palette::Color;

verus! {

/// How a piece of text looks.
#[derive(Clone, Copy, PartialEq, Eq, Structural, Debug)]
pub struct Style {
    pub fg: Option<Color>,
    pub bg: Option<Color>,
    pub bold: bool,
}

/// Text as it comes.
#[verifier::allow_in_spec]
pub fn plain() -> Style
    returns
        (Style { fg: None, bg: None, bold: false }),
{
    Style { fg: None, bg: None, bold: false }
}

/// Text in a colour.
#[verifier::allow_in_spec]
pub fn ink(fg: Color) -> Style
    returns
        (Style { fg: Some(fg), bg: None, bold: false }),
{
    Style { fg: Some(fg), bg: None, bold: false }
}

/// Bold text in a colour.
#[verifier::allow_in_spec]
pub fn bold(fg: Color) -> Style
    returns
        (Style { fg: Some(fg), bg: None, bold: true }),
{
    Style { fg: Some(fg), bg: None, bold: true }
}

/// The bold cap of a key, on a colour.
#[verifier::allow_in_spec]
pub fn keycap(bg: Color) -> Style
    returns
        (Style { fg: Some(Color::Bg), bg: Some(bg), bold: true }),
{
    Style { fg: Some(Color::Bg), bg: Some(bg), bold: true }
}

/// A piece of text in one style.
pub struct Span {
    pub text: String,
    pub style: Style,
}

/// What a [`Span`] says.
pub ghost struct SpanModel {
    pub text: Seq<char>,
    pub style: Style,
}

impl View for Span {
    type V = SpanModel;

    open spec fn view(&self) -> SpanModel {
        SpanModel { text: self.text@, style: self.style }
    }
}

/// A piece of text in one style.
pub open spec fn sp(text: Seq<char>, style: Style) -> SpanModel {
    SpanModel { text, style }
}

/// One row.
pub struct Row {
    pub spans: Vec<Span>,
}

impl View for Row {
    type V = Seq<SpanModel>;

    open spec fn view(&self) -> Seq<SpanModel> {
        self.spans@.map_values(|s: Span| s@)
    }
}

/// What each of the rows says.
pub open spec fn rows_of(v: Seq<Row>) -> Seq<Seq<SpanModel>> {
    v.map_values(|r: Row| r@)
}

/// A row without text.
pub open spec fn blank() -> Seq<SpanModel> {
    Seq::empty()
}

impl Row {
    /// A row without text.
    pub fn new() -> (r: Row)
        ensures
            r@ == Seq::<SpanModel>::empty(),
    {
        let r = Row { spans: Vec::new() };
        assert(r@ =~= Seq::<SpanModel>::empty());
        r
    }

    /// The row with one more piece of text.
    pub fn with(self, text: &str, style: Style) -> (r: Row)
        ensures
            r@ == self@.push(sp(text@, style)),
    {
        let mut spans = self.spans;
        spans.push(Span { text: text.to_owned(), style });
        let r = Row { spans };
        assert(r@ =~= self@.push(sp(text@, style)));
        r
    }

    /// A row of one piece of text.
    pub fn of(text: &str, style: Style) -> (r: Row)
        ensures
            r@ == seq![sp(text@, style)],
    {
        Row::new().with(text, style)
    }
}

/// Appends a row.
pub fn put(rows: &mut Vec<Row>, r: Row)
    ensures
        rows_of(final(rows)@) == rows_of(old(rows)@).push(r@),
{
    rows.push(r);
    assert(rows_of(rows@) =~= rows_of(old(rows)@).push(r@));
}

/// No rows.
pub fn no_rows() -> (r: Vec<Row>)
    ensures
        rows_of(r@) == Seq::<Seq<SpanModel>>::empty(),
{
    let r: Vec<Row> = Vec::new();
    assert(rows_of(r@) =~= Seq::<Seq<SpanModel>>::empty());
    r
}

/// What is seen of `s` in a window of `height` entries that is scrolled up from the
/// end by `scroll`.
pub open spec fn seen<T>(s: Seq<T>, scroll: nat, height: nat) -> Seq<T> {
    last_of(
        s.take(
            if scroll >= s.len() {
                0
            } else {
                s.len() - scroll
            },
        ),
        height,
    )
}

/// Keeps the rows that are seen ([`seen`]).
pub fn keep_seen(rows: &mut Vec<Row>, scroll: usize, height: usize)
    ensures
        rows_of(final(rows)@) == seen(rows_of(old(rows)@), scroll as nat, height as nat),
{
    let n: usize = rows.len();
    let to: usize = if scroll >= n {
        0
    } else {
        n - scroll
    };
    rows.truncate(to);
    let ghost part = rows@;
    assert(part =~= old(rows)@.take(to as int));
    keep_last(rows, height);
    proof {
        lemma_last_of_map(part, height as nat, |r: Row| r@);
        assert(rows_of(part) =~= rows_of(old(rows)@).take(to as int));
    }
}

/// A window shows at most its height, and without scrolling the newest entries.
pub proof fn law_window_shows_the_end<T>(s: Seq<T>, scroll: nat, height: nat)
    ensures
        seen(s, scroll, height).len() <= height,
        seen(s, scroll, height).len() <= s.len(),
        height > 0 && s.len() > scroll ==> seen(s, scroll, height).last() == s[s.len() - 1
            - scroll],
        seen(s, 0, height) == last_of(s, height),
{
    assert(s.take(s.len() as int) =~= s);
}

} // verus!
