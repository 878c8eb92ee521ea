//! The input bar: one line of text with a cursor, and the lines that were sent.

use vstd::prelude::*;
use crate::buffer::{keep_last, last_of, lemma_last_of_map};
use crate::clock::{elapsed, since};
use crate::text::{
    control, insert_at, inserted, is_control, removed, replace_all, replaced, texts, to_chars,
};

verus! {

/// The most lines that the history keeps.
pub const HISTORY_CAP: usize = 500;

/// A line break this soon after pasted text, in nanoseconds, belongs to it.
pub const PASTE_WINDOW: u64 = 150_000_000;

/// The input bar.
pub struct Bar {
    pub input: String,
    /// Where the cursor stands: before the character with this index.
    pub cursor: usize,
    /// The lines that were sent, the newest last.
    pub history: Vec<String>,
    /// The line of the history that was called up last.
    pub history_idx: Option<usize>,
    /// When text was last pasted, in nanoseconds.
    pub last_paste_at: Option<u64>,
}

/// What a [`Bar`] says.
#[verifier::ext_equal]
pub ghost struct BarModel {
    pub input: Seq<char>,
    pub cursor: nat,
    pub history: Seq<Seq<char>>,
    pub history_idx: Option<usize>,
    pub last_paste_at: Option<u64>,
}

impl View for Bar {
    type V = BarModel;

    open spec fn view(&self) -> BarModel {
        BarModel {
            input: self.input@,
            cursor: self.cursor as nat,
            history: texts(self.history@),
            history_idx: self.history_idx,
            last_paste_at: self.last_paste_at,
        }
    }
}

/// What a character becomes when it is pasted: line breaks and tabs become
/// blanks, other control characters nothing.
pub open spec fn pasted_char(c: char) -> Seq<char> {
    if c == '\n' || c == '\r' || c == '\t' {
        seq![' ']
    } else if control(c) {
        Seq::empty()
    } else {
        seq![c]
    }
}

/// What a text becomes when it is pasted, character by character.
pub open spec fn pasted_chars(s: Seq<char>) -> Seq<char>
    decreases s.len(),
{
    if s.len() == 0 {
        Seq::empty()
    } else {
        pasted_chars(s.drop_last()) + pasted_char(s.last())
    }
}

/// A text without the marks that a terminal may put round pasted text.
pub open spec fn unmarked(s: Seq<char>) -> Seq<char> {
    replace_all(
        replace_all(
            replace_all(replace_all(s, "\u{1b}[200~"@, ""@), "\u{1b}[201~"@, ""@),
            "[200~"@,
            ""@,
        ),
        "[201~"@,
        ""@,
    )
}

/// What a text becomes when it is pasted.
pub open spec fn paste_text(s: Seq<char>) -> Seq<char> {
    pasted_chars(unmarked(s))
}

/// What a text becomes when it is pasted ([`paste_text`]).
pub fn clean_paste(text: &str) -> (r: String)
    ensures
        r@ == paste_text(text@),
{
    proof {
        reveal_strlit("\u{1b}[200~");
        reveal_strlit("\u{1b}[201~");
        reveal_strlit("[200~");
        reveal_strlit("[201~");
    }
    let a = replaced(text, "\u{1b}[200~", "");
    let b = replaced(a.as_str(), "\u{1b}[201~", "");
    let c = replaced(b.as_str(), "[200~", "");
    let d = replaced(c.as_str(), "[201~", "");
    let v = to_chars(d.as_str());
    let mut out = String::new();
    let mut i: usize = 0;
    assert(v@.take(0) =~= Seq::<char>::empty());
    assert(out@ =~= Seq::<char>::empty());
    while i < v.len()
        invariant
            i <= v@.len(),
            out@ == pasted_chars(v@.take(i as int)),
        decreases v.len() - i,
    {
        let ch: char = v[i];
        proof {
            assert(v@.take(i + 1).drop_last() =~= v@.take(i as int));
            assert(v@.take(i + 1).last() == ch);
        }
        let ghost had = out@;
        if ch == '\n' || ch == '\r' || ch == '\t' {
            out.push(' ');
            assert(out@ =~= had + seq![' ']);
        } else if !is_control(ch) {
            out.push(ch);
            assert(out@ =~= had + seq![ch]);
        } else {
            assert(out@ =~= had + Seq::<char>::empty());
        }
        i = i + 1;
    }
    assert(v@.take(v@.len() as int) =~= v@);
    out
}

impl BarModel {
    /// An empty bar.
    pub open spec fn initial() -> BarModel {
        BarModel {
            input: Seq::empty(),
            cursor: 0,
            history: Seq::empty(),
            history_idx: None,
            last_paste_at: None,
        }
    }

    /// Whether the cursor stands in the text, the line called up in the history,
    /// and the history keeps to its bound.
    pub open spec fn wf(self) -> bool {
        &&& self.cursor <= self.input.len()
        &&& self.history.len() <= HISTORY_CAP
        &&& self.history_idx is Some ==> self.history_idx->Some_0 < self.history.len()
    }

    /// With `t` put in at the cursor, which then stands behind it.
    pub open spec fn with_text(self, t: Seq<char>) -> BarModel {
        BarModel {
            input: insert_at(self.input, self.cursor as int, t),
            cursor: self.cursor + t.len(),
            ..self
        }
    }

    /// Without the character before the cursor.
    pub open spec fn backspaced(self) -> BarModel {
        if self.cursor > 0 {
            BarModel {
                input: self.input.remove(self.cursor - 1),
                cursor: (self.cursor - 1) as nat,
                ..self
            }
        } else {
            self
        }
    }

    /// Without the character at the cursor.
    pub open spec fn deleted(self) -> BarModel {
        if self.cursor < self.input.len() {
            BarModel { input: self.input.remove(self.cursor as int), ..self }
        } else {
            self
        }
    }

    /// With the cursor one character further left.
    pub open spec fn moved_left(self) -> BarModel {
        BarModel {
            cursor: if self.cursor > 0 {
                (self.cursor - 1) as nat
            } else {
                0
            },
            ..self
        }
    }

    /// With the cursor one character further right.
    pub open spec fn moved_right(self) -> BarModel {
        BarModel {
            cursor: if self.cursor < self.input.len() {
                self.cursor + 1
            } else {
                self.cursor
            },
            ..self
        }
    }

    /// With the cursor at the start.
    pub open spec fn moved_home(self) -> BarModel {
        BarModel { cursor: 0, ..self }
    }

    /// With the cursor at the end.
    pub open spec fn moved_end(self) -> BarModel {
        BarModel { cursor: self.input.len(), ..self }
    }

    /// Without text.
    pub open spec fn emptied(self) -> BarModel {
        BarModel { input: Seq::empty(), cursor: 0, ..self }
    }

    /// With line `i` of the history called up.
    pub open spec fn showing(self, i: usize) -> BarModel {
        BarModel {
            history_idx: Some(i),
            input: self.history[i as int],
            cursor: self.history[i as int].len(),
            ..self
        }
    }

    /// With the line before called up: the newest at first, and the oldest at last.
    pub open spec fn older(self) -> BarModel {
        if self.history.len() == 0 {
            self
        } else {
            match self.history_idx {
                Some(i) => self.showing(
                    if i > 0 {
                        (i - 1) as usize
                    } else {
                        i
                    },
                ),
                None => self.showing((self.history.len() - 1) as usize),
            }
        }
    }

    /// With the line after called up, and none after the newest.
    pub open spec fn newer(self) -> BarModel {
        match self.history_idx {
            Some(i) => if i + 1 < self.history.len() {
                self.showing((i + 1) as usize)
            } else {
                BarModel { history_idx: None, ..self.emptied() }
            },
            None => self,
        }
    }

    /// With one more line in the history.
    pub open spec fn remembering(self, line: Seq<char>) -> BarModel {
        BarModel {
            history: last_of(self.history.push(line), HISTORY_CAP as nat),
            history_idx: None,
            ..self
        }
    }

    /// With pasted text put in.
    pub open spec fn pasted(self, text: Seq<char>, now: u64) -> BarModel {
        let t = paste_text(text);
        let s = BarModel { last_paste_at: Some(now), ..self };
        if t.len() == 0 {
            s
        } else {
            BarModel { history_idx: None, ..s.with_text(t) }
        }
    }

    /// Whether a line break now belongs to pasted text.
    pub open spec fn pasting(self, now: u64) -> bool {
        match self.last_paste_at {
            Some(t) => since(now, t) < PASTE_WINDOW,
            None => false,
        }
    }

    /// With the line break of pasted text put in.
    pub open spec fn pasted_break(self, now: u64) -> BarModel {
        BarModel { last_paste_at: Some(now), ..self.with_text(seq![' ']) }
    }
}

impl Bar {
    /// An empty bar.
    pub fn new() -> (r: Bar)
        ensures
            r@ == BarModel::initial(),
    {
        let r = Bar {
            input: String::new(),
            cursor: 0,
            history: Vec::new(),
            history_idx: None,
            last_paste_at: None,
        };
        assert(r@ =~= BarModel::initial());
        r
    }

    /// Whether there is no text.
    pub fn is_empty(&self) -> (r: bool)
        ensures
            r == (self@.input.len() == 0),
    {
        self.input.as_str().is_empty()
    }

    /// Puts text in at the cursor.
    fn put(&mut self, t: &str)
        requires
            old(self)@.wf(),
        ensures
            final(self)@ == old(self)@.with_text(t@),
    {
        let more: usize = t.unicode_len();
        self.input = inserted(self.input.as_str(), self.cursor, t);
        let n: usize = self.input.as_str().unicode_len();
        assert(self.cursor + more <= n);
        self.cursor = self.cursor + more;
    }

    /// Puts a typed character in at the cursor.
    pub fn typed(&mut self, c: char)
        requires
            old(self)@.wf(),
        ensures
            final(self)@ == old(self)@.with_text(seq![c]),
    {
        let mut t = String::new();
        t.push(c);
        assert(t@ =~= seq![c]);
        self.put(t.as_str());
    }

    /// Takes the character before the cursor out.
    pub fn backspace(&mut self)
        requires
            old(self)@.wf(),
        ensures
            final(self)@ == old(self)@.backspaced(),
    {
        if self.cursor > 0 {
            self.cursor = self.cursor - 1;
            self.input = removed(self.input.as_str(), self.cursor);
        }
    }

    /// Takes the character at the cursor out.
    pub fn delete(&mut self)
        requires
            old(self)@.wf(),
        ensures
            final(self)@ == old(self)@.deleted(),
    {
        if self.cursor < self.input.as_str().unicode_len() {
            self.input = removed(self.input.as_str(), self.cursor);
        }
    }

    /// Moves the cursor left.
    pub fn left(&mut self)
        ensures
            final(self)@ == old(self)@.moved_left(),
    {
        if self.cursor > 0 {
            self.cursor = self.cursor - 1;
        }
    }

    /// Moves the cursor right.
    pub fn right(&mut self)
        ensures
            final(self)@ == old(self)@.moved_right(),
    {
        if self.cursor < self.input.as_str().unicode_len() {
            self.cursor = self.cursor + 1;
        }
    }

    /// Moves the cursor to the start.
    pub fn home(&mut self)
        ensures
            final(self)@ == old(self)@.moved_home(),
    {
        self.cursor = 0;
    }

    /// Moves the cursor to the end.
    pub fn end(&mut self)
        ensures
            final(self)@ == old(self)@.moved_end(),
    {
        self.cursor = self.input.as_str().unicode_len();
    }

    /// Takes all text out.
    pub fn clear(&mut self)
        ensures
            final(self)@ == old(self)@.emptied(),
    {
        self.input = String::new();
        self.cursor = 0;
        assert(self@ =~= old(self)@.emptied());
    }

    /// Calls line `i` of the history up.
    fn show(&mut self, i: usize)
        requires
            i < old(self)@.history.len(),
        ensures
            final(self)@ == old(self)@.showing(i),
    {
        self.history_idx = Some(i);
        self.input = self.history[i].clone();
        self.cursor = self.input.as_str().unicode_len();
    }

    /// Calls the line before up.
    pub fn up(&mut self)
        requires
            old(self)@.wf(),
        ensures
            final(self)@ == old(self)@.older(),
    {
        let n: usize = self.history.len();
        if n > 0 {
            let i: usize = match self.history_idx {
                Some(i) => if i > 0 {
                    i - 1
                } else {
                    i
                },
                None => n - 1,
            };
            self.show(i);
        }
    }

    /// Calls the line after up.
    pub fn down(&mut self)
        requires
            old(self)@.wf(),
        ensures
            final(self)@ == old(self)@.newer(),
    {
        match self.history_idx {
            Some(i) => {
                if i + 1 < self.history.len() {
                    self.show(i + 1);
                } else {
                    self.history_idx = None;
                    self.clear();
                }
            },
            None => {},
        }
    }

    /// Puts a line into the history, dropping the oldest past the bound.
    pub fn remember(&mut self, line: &str)
        ensures
            final(self)@ == old(self)@.remembering(line@),
    {
        let line = line.to_owned();
        self.history.push(line);
        self.history_idx = None;
        keep_last(&mut self.history, HISTORY_CAP);
        proof {
            let f = |s: String| s@;
            let all = old(self).history@.push(line);
            lemma_last_of_map(all, HISTORY_CAP as nat, f);
            assert(all.map_values(f) =~= texts(old(self).history@).push(line@));
        }
    }

    /// Puts pasted text in at the cursor, as one line.
    pub fn paste(&mut self, text: &str, now: u64)
        requires
            old(self)@.wf(),
        ensures
            final(self)@ == old(self)@.pasted(text@, now),
    {
        self.last_paste_at = Some(now);
        let t = clean_paste(text);
        if !t.as_str().is_empty() {
            self.history_idx = None;
            self.put(t.as_str());
        }
    }

    /// Whether a line break now belongs to pasted text.
    pub fn is_pasting(&self, now: u64) -> (r: bool)
        ensures
            r == self@.pasting(now),
    {
        match self.last_paste_at {
            Some(t) => elapsed(now, t) < PASTE_WINDOW,
            None => false,
        }
    }

    /// Puts the line break of pasted text in, as a blank.
    pub fn paste_break(&mut self, now: u64)
        requires
            old(self)@.wf(),
        ensures
            final(self)@ == old(self)@.pasted_break(now),
    {
        self.last_paste_at = Some(now);
        self.typed(' ');
    }
}

/// Every step keeps the cursor in the text, the line called up in the history, and
/// the history within its bound.
pub proof fn law_bar_stays_well_formed(b: BarModel)
    requires
        b.wf(),
    ensures
        forall|t: Seq<char>| (#[trigger] b.with_text(t)).wf(),
        forall|l: Seq<char>| (#[trigger] b.remembering(l)).wf(),
        forall|t: Seq<char>, now: u64| (#[trigger] b.pasted(t, now)).wf(),
        forall|now: u64| (#[trigger] b.pasted_break(now)).wf(),
        b.backspaced().wf(),
        b.deleted().wf(),
        b.moved_left().wf(),
        b.moved_right().wf(),
        b.moved_home().wf(),
        b.moved_end().wf(),
        b.emptied().wf(),
        b.older().wf(),
        b.newer().wf(),
        BarModel::initial().wf(),
{
}

/// Pasted text is one line: it holds no control character, so neither a line break
/// nor a tab.
pub proof fn law_pasted_text_is_one_line(s: Seq<char>)
    ensures
        forall|i: int| 0 <= i < paste_text(s).len() ==> !control(#[trigger] paste_text(s)[i]),
{
    lemma_pasted_chars_plain(unmarked(s));
}

proof fn lemma_pasted_chars_plain(s: Seq<char>)
    ensures
        forall|i: int| 0 <= i < pasted_chars(s).len() ==> !control(#[trigger] pasted_chars(s)[i]),
    decreases s.len(),
{
    if s.len() > 0 {
        lemma_pasted_chars_plain(s.drop_last());
        let had = pasted_chars(s.drop_last());
        let more = pasted_char(s.last());
        assert forall|i: int| 0 <= i < pasted_chars(s).len() implies !control(
            #[trigger] pasted_chars(s)[i],
        ) by {
            if i < had.len() {
                assert(pasted_chars(s)[i] == had[i]);
            } else {
                assert(pasted_chars(s)[i] == more[i - had.len()]);
            }
        }
    }
}

/// Text without marks and control characters is pasted as it is.
pub proof fn law_plain_text_is_pasted_as_it_is(s: Seq<char>)
    requires
        unmarked(s) == s,
        forall|i: int| 0 <= i < s.len() ==> !control(#[trigger] s[i]),
    ensures
        paste_text(s) == s,
{
    lemma_plain_chars(s);
}

proof fn lemma_plain_chars(s: Seq<char>)
    requires
        forall|i: int| 0 <= i < s.len() ==> !control(#[trigger] s[i]),
    ensures
        pasted_chars(s) == s,
    decreases s.len(),
{
    if s.len() > 0 {
        let t = s.drop_last();
        assert forall|i: int| 0 <= i < t.len() implies !control(#[trigger] t[i]) by {
            assert(t[i] == s[i]);
        }
        lemma_plain_chars(t);
        assert(!control(s[s.len() - 1]));
        assert(pasted_chars(s) =~= s);
    } else {
        assert(pasted_chars(s) =~= s);
    }
}

/// A backspace takes back what was typed.
pub proof fn law_backspace_undoes_typing(b: BarModel, c: char)
    requires
        b.wf(),
    ensures
        b.with_text(seq![c]).backspaced() == b,
{
    assert(b.with_text(seq![c]).backspaced().input =~= b.input);
}

/// Going one line newer takes back going one line older.
pub proof fn law_newer_undoes_older(b: BarModel, i: usize)
    requires
        b.wf(),
        b.history_idx == Some(i),
        0 < i,
        b == b.showing(i),
    ensures
        b.older().newer() == b,
{
}

} // verus!
