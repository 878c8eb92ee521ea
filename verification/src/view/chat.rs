//! The Chat tab.

use vstd::prelude::*;
use crate::chat::{chat_models, Chat, ChatLine, ChatLineModel, ChatModel, ChatWho};
use crate::palette::Color;
use crate::text::cat3;
use crate::view::rows::{
    blank, bold, ink, keep_seen, no_rows, put, rows_of, seen, sp, Row, SpanModel, Style,
};

verus! {

/// The spinner after so many ticks.
pub open spec fn spinner_of(tick: usize) -> Seq<char> {
    if tick % 4 == 0 {
        "\u{2014}"@
    } else if tick % 4 == 1 {
        "\\"@
    } else if tick % 4 == 2 {
        "|"@
    } else {
        "/"@
    }
}

/// The spinner after so many ticks ([`spinner_of`]).
pub fn spinner(tick: usize) -> (r: &'static str)
    ensures
        r@ == spinner_of(tick),
{
    match tick % 4 {
        0 => "\u{2014}",
        1 => "\\",
        2 => "|",
        _ => "/",
    }
}

/// The label before a line, with its style.
pub open spec fn who_label(w: ChatWho) -> (Seq<char>, Style) {
    match w {
        ChatWho::User => ("you "@, bold(Color::Info)),
        ChatWho::Kannaka => ("kannaka "@, bold(Color::Accent)),
        ChatWho::System => ("\u{b7} "@, ink(Color::Dim)),
    }
}

/// A line of the conversation.
pub open spec fn chat_row_of(l: ChatLineModel) -> Seq<SpanModel> {
    let label = who_label(l.who);
    seq![sp(label.0, label.1), sp(l.text, ink(Color::Text))]
}

/// A line of the conversation ([`chat_row_of`]).
pub fn chat_row(l: &ChatLine) -> (r: Row)
    ensures
        r@ == chat_row_of(l@),
{
    let (label, style) = match l.who {
        ChatWho::User => ("you ", bold(Color::Info)),
        ChatWho::Kannaka => ("kannaka ", bold(Color::Accent)),
        ChatWho::System => ("\u{b7} ", ink(Color::Dim)),
    };
    Row::new().with(label, style).with(l.text.as_str(), ink(Color::Text))
}

/// The lines of the conversation, each with a blank row under it.
pub open spec fn conversation_of(ls: Seq<ChatLineModel>) -> Seq<Seq<SpanModel>>
    decreases ls.len(),
{
    if ls.len() == 0 {
        Seq::empty()
    } else {
        conversation_of(ls.drop_last()).push(chat_row_of(ls.last())).push(blank())
    }
}

/// The rows of the chat: the conversation, and the spinner while a turn is under way.
pub open spec fn chat_rows_of(c: ChatModel) -> Seq<Seq<SpanModel>> {
    conversation_of(c.messages) + (if c.pending {
        seq![
            seq![
                sp("kannaka "@ + spinner_of(c.tick) + " "@, ink(Color::Accent)),
                sp("resonating\u{2026}"@, ink(Color::Dim)),
            ],
        ]
    } else {
        Seq::empty()
    })
}

/// The rows of the chat that are seen in a body of `height` cells.
pub fn chat_rows(c: &Chat, scroll: usize, height: usize) -> (r: Vec<Row>)
    ensures
        rows_of(r@) == seen(chat_rows_of(c@), scroll as nat, height as nat),
{
    let ghost models = chat_models(c.messages@);
    let n: usize = c.messages.len();
    let mut rows = no_rows();
    let mut i: usize = 0;
    assert(models.take(0) =~= Seq::<ChatLineModel>::empty());
    while i < n
        invariant
            n == c.messages@.len(),
            i <= n,
            models == chat_models(c.messages@),
            rows_of(rows@) == conversation_of(models.take(i as int)),
        decreases n - i,
    {
        proof {
            assert(models.take(i + 1).drop_last() =~= models.take(i as int));
            assert(models.take(i + 1).last() == c.messages@[i as int]@);
        }
        put(&mut rows, chat_row(&c.messages[i]));
        put(&mut rows, Row::new());
        i = i + 1;
    }
    assert(models.take(n as int) =~= models);
    if c.pending {
        put(
            &mut rows,
            Row::new().with(
                cat3("kannaka ", spinner(c.tick), " ").as_str(),
                ink(Color::Accent),
            ).with("resonating\u{2026}", ink(Color::Dim)),
        );
    }
    assert(rows_of(rows@) =~~= chat_rows_of(c@));
    keep_seen(&mut rows, scroll, height);
    rows
}

/// The title of the tab.
pub fn chat_title(pending: bool) -> (r: &'static str)
    ensures
        r@ == if pending {
            " Chat \u{b7} thinking\u{2026} "@
        } else {
            " Chat "@
        },
{
    if pending {
        " Chat \u{b7} thinking\u{2026} "
    } else {
        " Chat "
    }
}

} // verus!
