//! What holds of the text building blocks.

use vstd::prelude::*;
use crate::text::{
    before, cut, decimal, digit, join, left_in, lemma_line_end, lemma_word_end, peel, pieces,
    right_in, split_lines, split_words, trim, trim_end, trim_start, white,
};

verus! {

/// Whether every character of `s` is white space.
pub open spec fn all_white(s: Seq<char>) -> bool {
    forall|i: int| 0 <= i < s.len() ==> white(#[trigger] s[i])
}

/// Whether neither end of `s` is white space.
pub open spec fn neat(s: Seq<char>) -> bool {
    s.len() > 0 ==> !white(s[0]) && !white(s.last())
}

proof fn lemma_trim_start(s: Seq<char>) -> (a: Seq<char>)
    ensures
        all_white(a),
        s == a + trim_start(s),
        trim_start(s).len() > 0 ==> !white(trim_start(s)[0]),
    decreases s.len(),
{
    if s.len() > 0 && white(s[0]) {
        let b = lemma_trim_start(s.drop_first());
        let a = seq![s[0]] + b;
        assert(s =~= seq![s[0]] + s.drop_first());
        assert(s =~= a + trim_start(s));
        assert forall|i: int| 0 <= i < a.len() implies white(#[trigger] a[i]) by {
            if i > 0 {
                assert(a[i] == b[i - 1]);
            }
        }
        a
    } else {
        assert(s =~= Seq::<char>::empty() + s);
        Seq::empty()
    }
}

proof fn lemma_trim_end(s: Seq<char>) -> (b: Seq<char>)
    ensures
        all_white(b),
        s == trim_end(s) + b,
        trim_end(s).len() > 0 ==> !white(trim_end(s).last()),
    decreases s.len(),
{
    if s.len() > 0 && white(s.last()) {
        let a = lemma_trim_end(s.drop_last());
        let b = a.push(s.last());
        assert(s =~= s.drop_last().push(s.last()));
        assert(s =~= trim_end(s) + b);
        assert forall|i: int| 0 <= i < b.len() implies white(#[trigger] b[i]) by {
            if i < a.len() {
                assert(b[i] == a[i]);
            }
        }
        b
    } else {
        assert(s =~= s + Seq::<char>::empty());
        Seq::empty()
    }
}

/// Trimming takes white space off either end and nothing else, and leaves none there.
pub proof fn law_trim_takes_only_white_space(s: Seq<char>) -> (r: (Seq<char>, Seq<char>))
    ensures
        all_white(r.0),
        all_white(r.1),
        s == r.0 + trim(s) + r.1,
        neat(trim(s)),
{
    let a = lemma_trim_start(s);
    let b = lemma_trim_end(trim_start(s));
    assert(s =~= a + trim(s) + b);
    if trim(s).len() > 0 {
        assert(trim_start(s)[0] == trim(s)[0]);
    }
    (a, b)
}

/// White space round a neat text is all that trimming takes.
pub proof fn law_trim_undoes_padding(a: Seq<char>, t: Seq<char>, b: Seq<char>)
    requires
        all_white(a),
        all_white(b),
        neat(t),
    ensures
        trim(a + t + b) == t,
        trim(t) == t,
{
    lemma_trim_of(a, t, b);
    lemma_trim_of(Seq::empty(), t, Seq::empty());
    assert(Seq::<char>::empty() + t + Seq::<char>::empty() =~= t);
}

proof fn lemma_trim_of(a: Seq<char>, t: Seq<char>, b: Seq<char>)
    requires
        all_white(a),
        all_white(b),
        neat(t),
    ensures
        trim(a + t + b) == t,
{
    let s = a + t + b;
    if t.len() == 0 {
        assert(all_white(s)) by {
            assert forall|i: int| 0 <= i < s.len() implies white(#[trigger] s[i]) by {
                if i < a.len() {
                    assert(s[i] == a[i]);
                } else {
                    assert(s[i] == b[i - a.len()]);
                }
            }
        }
        crate::text::lemma_trim_start_skips(s, s.len() as int);
        assert(s.subrange(s.len() as int, s.len() as int) =~= t);
    } else {
        assert(forall|j: int| 0 <= j < a.len() ==> #[trigger] s[j] == a[j]);
        crate::text::lemma_trim_start_skips(s, a.len() as int);
        let r = s.subrange(a.len() as int, s.len() as int);
        assert(r =~= t + b);
        assert(r[0] == t[0]);
        assert(forall|j: int| t.len() <= j < r.len() ==> #[trigger] r[j] == b[j - t.len()]);
        crate::text::lemma_trim_end_skips(r, t.len() as int);
        assert(r.subrange(0, t.len() as int) =~= t);
    }
}

/// Quotes round a text without quotes at its ends are all that peeling takes.
pub proof fn law_peel_undoes_quoting(t: Seq<char>, q: char)
    requires
        t.len() > 0 ==> t[0] != q && t.last() != q,
    ensures
        peel(t, q) == t,
        peel(seq![q] + t + seq![q], q) == t,
{
    let s = seq![q] + t + seq![q];
    if t.len() == 0 {
        assert(s =~= seq![q, q]);
        crate::text::lemma_peel_start_skips(s, q, 2);
        assert(s.subrange(2, 2) =~= t);
    } else {
        crate::text::lemma_peel_start_skips(s, q, 1);
        let r = s.subrange(1, s.len() as int);
        assert(r =~= t.push(q));
        assert(r[0] == t[0]);
        crate::text::lemma_peel_end_skips(r, q, t.len() as int);
        assert(r.subrange(0, t.len() as int) =~= t);
    }
}

/// A cut text that was too long keeps its start, and shows that more followed.
pub proof fn law_cut_keeps_the_start(s: Seq<char>, max: nat)
    requires
        max > 0,
    ensures
        s.len() <= max ==> cut(s, max) == s,
        s.len() > max ==> cut(s, max).len() == max && cut(s, max).last() == '\u{2026}',
        forall|i: int| 0 <= i < max - 1 && i < s.len() ==> #[trigger] cut(s, max)[i] == s[i],
{
}

/// Whether `w` is a word: something, and nothing white in it.
pub open spec fn is_word(w: Seq<char>) -> bool {
    w.len() > 0 && forall|i: int| 0 <= i < w.len() ==> !white(#[trigger] w[i])
}

/// Whether all of the texts are words.
pub open spec fn are_words(ws: Seq<Seq<char>>) -> bool {
    forall|i: int| 0 <= i < ws.len() ==> is_word(#[trigger] ws[i])
}

/// The first word of a text, and the words of what follows it.
pub proof fn law_words_are_taken_one_by_one(w: Seq<char>, rest: Seq<char>)
    requires
        is_word(w),
        rest.len() > 0 ==> white(rest[0]),
    ensures
        split_words(w + rest) == seq![w] + split_words(rest),
{
    let s = w + rest;
    assert(forall|j: int| 0 <= j < w.len() ==> #[trigger] s[j] == w[j]);
    lemma_word_end(s, w.len() as int);
    assert(s.take(w.len() as int) =~= w);
    assert(s.skip(w.len() as int) =~= rest);
}

pub(crate) proof fn lemma_join_front(ws: Seq<Seq<char>>, sep: Seq<char>)
    requires
        ws.len() >= 2,
    ensures
        join(ws, sep) == ws[0] + sep + join(ws.skip(1), sep),
    decreases ws.len(),
{
    reveal_with_fuel(join, 2);
    if ws.len() == 2 {
        assert(ws.drop_last() =~= seq![ws[0]]);
        assert(ws.skip(1) =~= seq![ws[1]]);
    } else {
        lemma_join_front(ws.drop_last(), sep);
        assert(ws.drop_last().skip(1) =~= ws.skip(1).drop_last());
        assert(ws.skip(1).last() == ws.last());
        assert(join(ws, sep) =~= ws[0] + sep + join(ws.skip(1), sep));
    }
}

/// Words with one blank between each two are those words again.
pub proof fn law_words_undo_blanks(ws: Seq<Seq<char>>)
    requires
        are_words(ws),
    ensures
        split_words(join(ws, " "@)) == ws,
    decreases ws.len(),
{
    reveal_strlit(" ");
    if ws.len() == 0 {
    } else if ws.len() == 1 {
        law_words_are_taken_one_by_one(ws[0], Seq::empty());
        assert(ws[0] + Seq::<char>::empty() =~= ws[0]);
        assert(split_words(Seq::<char>::empty()) =~= Seq::empty());
        assert(seq![ws[0]] + Seq::<Seq<char>>::empty() =~= ws);
    } else {
        let rest = ws.skip(1);
        lemma_join_front(ws, " "@);
        assert forall|i: int| 0 <= i < rest.len() implies is_word(#[trigger] rest[i]) by {
            assert(rest[i] == ws[i + 1]);
        }
        law_words_undo_blanks(rest);
        let tail = " "@ + join(rest, " "@);
        law_words_are_taken_one_by_one(ws[0], tail);
        assert(ws[0] + " "@ + join(rest, " "@) =~= ws[0] + tail);
        assert(tail.drop_first() =~= join(rest, " "@));
        assert(split_words(tail) == split_words(tail.drop_first()));
        assert(seq![ws[0]] + rest =~= ws);
    }
}

/// Whether `l` can be a line: no line feed in it, and no carriage return at its end.
pub open spec fn is_line(l: Seq<char>) -> bool {
    (forall|i: int| 0 <= i < l.len() ==> #[trigger] l[i] != '\n') && (l.len() > 0 ==> l.last()
        != '\r')
}

/// Whether all of the texts can be lines.
pub open spec fn are_lines(ls: Seq<Seq<char>>) -> bool {
    forall|i: int| 0 <= i < ls.len() ==> is_line(#[trigger] ls[i])
}

/// Lines, each with a line feed behind it.
pub open spec fn ended(ls: Seq<Seq<char>>) -> Seq<char>
    decreases ls.len(),
{
    if ls.len() == 0 {
        Seq::empty()
    } else {
        ls[0] + seq!['\n'] + ended(ls.skip(1))
    }
}

/// Lines that each end in a line feed are read as those lines again.
pub proof fn law_lines_undo_line_feeds(ls: Seq<Seq<char>>)
    requires
        are_lines(ls),
    ensures
        split_lines(ended(ls)) == ls,
    decreases ls.len(),
{
    if ls.len() > 0 {
        let rest = ls.skip(1);
        let s = ended(ls);
        assert forall|i: int| 0 <= i < rest.len() implies is_line(#[trigger] rest[i]) by {
            assert(rest[i] == ls[i + 1]);
        }
        law_lines_undo_line_feeds(rest);
        let n = ls[0].len() as int;
        assert(forall|j: int| 0 <= j < n ==> #[trigger] s[j] == ls[0][j]);
        assert(s[n] == '\n');
        lemma_line_end(s, n);
        assert(s.take(n) =~= ls[0]);
        assert(s.skip(n + 1) =~= ended(rest));
        assert(seq![ls[0]] + rest =~= ls);
    } else {
        assert(split_lines(Seq::<char>::empty()) =~= ls);
    }
}

/// The pieces between the separators hold none of them, and with the separators put
/// back they are the text again.
pub proof fn law_pieces_make_up_the_text(s: Seq<char>, c: char)
    ensures
        pieces(s, c).len() > 0,
        join(pieces(s, c), seq![c]) == s,
        forall|i: int, j: int|
            #![trigger pieces(s, c)[i][j]]
            0 <= i < pieces(s, c).len() && 0 <= j < pieces(s, c)[i].len() ==> pieces(s, c)[i][j]
                != c,
    decreases s.len(),
{
    let ps = pieces(s, c);
    if s.len() == 0 {
        assert(join(ps, seq![c]) =~= s);
    } else {
        let t = s.drop_last();
        let qs = pieces(t, c);
        law_pieces_make_up_the_text(t, c);
        if s.last() == c {
            assert(ps.drop_last() =~= qs);
            assert(ps.last() =~= Seq::<char>::empty());
            assert(join(ps, seq![c]) =~= join(qs, seq![c]) + seq![c] + Seq::<char>::empty());
            assert(join(ps, seq![c]) =~= s);
        } else {
            assert(ps.drop_last() =~= qs.drop_last());
            assert(ps.last() =~= qs.last().push(s.last()));
            assert(s =~= t.push(s.last()));
            if qs.len() == 1 {
                assert(qs[0] == t);
                assert(ps.len() == 1 && ps[0] =~= s);
            } else {
                assert(join(ps, seq![c]) =~= join(qs.drop_last(), seq![c]) + seq![c] + ps.last());
                assert(join(qs, seq![c]) =~= join(qs.drop_last(), seq![c]) + seq![c] + qs.last());
                assert(join(ps, seq![c]) =~= s);
            }
            assert forall|i: int, j: int|
                #![trigger ps[i][j]]
                0 <= i < ps.len() && 0 <= j < ps[i].len() implies ps[i][j] != c by {
                if i < ps.len() - 1 {
                    assert(ps[i] == qs[i]);
                    assert(qs[i][j] != c);
                } else if j < qs.last().len() {
                    assert(ps[i][j] == qs[qs.len() - 1][j]);
                }
            }
        }
    }
}

/// The number that decimal digits spell.
pub open spec fn spelled(s: Seq<char>) -> nat
    decreases s.len(),
{
    if s.len() == 0 {
        0
    } else {
        spelled(s.drop_last()) * 10 + (s.last() as int - '0' as int) as nat
    }
}

/// The decimal digits of a number spell that number: nothing but digits, and no zero
/// in front of others.
pub proof fn law_digits_spell_the_number(n: nat)
    ensures
        spelled(decimal(n)) == n,
        decimal(n).len() > 0,
        forall|i: int| 0 <= i < decimal(n).len() ==> '0' <= #[trigger] decimal(n)[i] <= '9',
        decimal(n).len() > 1 ==> decimal(n)[0] != '0',
    decreases n,
{
    reveal_with_fuel(spelled, 2);
    if n >= 10 {
        law_digits_spell_the_number(n / 10);
        let d = decimal(n / 10);
        let s = decimal(n);
        assert(s.drop_last() =~= d);
        assert(s.last() == digit(n % 10));
        assert(s[0] == d[0]);
        if d.len() == 1 {
            assert(d[0] == digit(n / 10)) by {
                if n / 10 >= 10 {
                    law_digits_spell_the_number(n / 10 / 10);
                }
            }
        }
    }
}

/// A text in a column keeps all of its characters, with blanks on one side of it up to
/// the width of the column.
pub proof fn law_columns_keep_the_text(s: Seq<char>, w: nat)
    ensures
        s.len() <= w ==> left_in(s, w).len() == w && right_in(s, w).len() == w,
        left_in(s, w).take(s.len() as int) == s,
        right_in(s, w).skip(right_in(s, w).len() - s.len()) == s,
        forall|i: int| s.len() <= i < left_in(s, w).len() ==> #[trigger] left_in(s, w)[i] == ' ',
        forall|i: int|
            0 <= i < right_in(s, w).len() - s.len() ==> #[trigger] right_in(s, w)[i] == ' ',
{
    assert(left_in(s, w).take(s.len() as int) =~= s);
    assert(right_in(s, w).skip(right_in(s, w).len() - s.len()) =~= s);
}

/// Texts are ordered as in a dictionary: by the first character in which they differ, and a
/// text before its continuations.
pub proof fn law_order_is_that_of_a_dictionary(
    p: Seq<char>,
    x: char,
    s: Seq<char>,
    y: char,
    t: Seq<char>,
)
    ensures
        x != y ==> (before(p + (seq![x] + s), p + (seq![y] + t)) <==> (x as int) < (y as int)),
        before(p, p + (seq![x] + s)),
        !before(p + (seq![x] + s), p),
        !before(p, p),
    decreases p.len(),
{
    reveal_with_fuel(before, 2);
    let a = p + (seq![x] + s);
    let b = p + (seq![y] + t);
    if p.len() == 0 {
        assert(a[0] == x && b[0] == y);
        assert(a =~= seq![x] + s);
    } else {
        law_order_is_that_of_a_dictionary(p.skip(1), x, s, y, t);
        assert(a.skip(1) =~= p.skip(1) + (seq![x] + s));
        assert(b.skip(1) =~= p.skip(1) + (seq![y] + t));
        assert(a[0] == p[0] && b[0] == p[0]);
    }
}

/// Blanks, tabs and line breaks are white space, and no character that is printed in ASCII
/// is.
pub proof fn law_printed_characters_are_not_white(c: char)
    ensures
        c == ' ' || c == '\t' || c == '\n' || c == '\r' ==> white(c),
        0x21 <= (c as u32) <= 0x7e ==> !white(c),
{
}

/// A line ends before its line feed, or before the carriage return that stands before that;
/// what follows the last line feed is a line too.
pub proof fn law_line_ends_may_have_two_characters(l: Seq<char>, rest: Seq<char>)
    requires
        forall|i: int| 0 <= i < l.len() ==> #[trigger] l[i] != '\n',
    ensures
        split_lines(l + seq!['\r', '\n'] + rest) == seq![l] + split_lines(rest),
        l.len() > 0 ==> split_lines(l) == seq![l],
        split_lines(Seq::empty()).len() == 0,
{
    let s = l + seq!['\r', '\n'] + rest;
    let n = l.len() as int + 1;
    assert forall|j: int| 0 <= j < n implies #[trigger] s[j] != '\n' by {
        if j < l.len() {
            assert(s[j] == l[j]);
        }
    }
    lemma_line_end(s, n);
    assert(s.take(n) =~= l.push('\r'));
    assert(l.push('\r').drop_last() =~= l);
    assert(s.skip(n + 1) =~= rest);
    if l.len() > 0 {
        lemma_line_end(l, l.len() as int);
    }
}

} // verus!
