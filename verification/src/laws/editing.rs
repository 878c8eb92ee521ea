//! What holds of the bar and of the keys that edit it.

use vstd::prelude::*;
use crate::action::ActionModel;
use crate::app::{AppModel, Tab};
use crate::bar::{paste_text, pasted_chars, unmarked, BarModel};
use crate::keys::{burst_text, Key, KeyPress, Mods};
use crate::laws::approval::plain_key;
use crate::text::{insert_at, replace_all, starts};

verus! {

/// What is typed stands where the cursor was, with the cursor behind it; what stood round
/// it stays.
pub proof fn law_typing_goes_to_the_cursor(b: BarModel, t: Seq<char>)
    requires
        b.wf(),
    ensures
        ({
            let r = b.with_text(t);
            &&& r.input.len() == b.input.len() + t.len()
            &&& r.input.subrange(b.cursor as int, (b.cursor + t.len()) as int) == t
            &&& r.input.take(b.cursor as int) == b.input.take(b.cursor as int)
            &&& r.input.skip((b.cursor + t.len()) as int) == b.input.skip(b.cursor as int)
            &&& r.cursor == b.cursor + t.len()
            &&& r.history == b.history && r.history_idx == b.history_idx
        }),
{
    let r = b.with_text(t);
    assert(r.input.subrange(b.cursor as int, (b.cursor + t.len()) as int) =~= t);
    assert(r.input.take(b.cursor as int) =~= b.input.take(b.cursor as int));
    assert(r.input.skip((b.cursor + t.len()) as int) =~= b.input.skip(b.cursor as int));
}

/// Typing one text after another is typing both at once.
pub proof fn law_typing_adds_up(b: BarModel, s: Seq<char>, t: Seq<char>)
    requires
        b.wf(),
    ensures
        b.with_text(s).with_text(t) == b.with_text(s + t),
{
    let c = b.cursor as int;
    assert(insert_at(insert_at(b.input, c, s), c + s.len(), t) =~= insert_at(b.input, c, s + t));
}

/// The cursor moves by one, or to an end, and stays in the text; the text stays. Deleting
/// after a step to the left is deleting backwards.
pub proof fn law_cursor_moves_within_the_text(b: BarModel)
    requires
        b.wf(),
    ensures
        b.cursor > 0 ==> b.moved_left() == (BarModel { cursor: (b.cursor - 1) as nat, ..b })
            && b.moved_left().moved_right() == b && b.moved_left().deleted() == b.backspaced(),
        b.cursor < b.input.len() ==> b.moved_right() == (BarModel { cursor: b.cursor + 1, ..b })
            && b.moved_right().moved_left() == b && b.moved_right().backspaced() == b.deleted(),
        b.cursor == 0 ==> b.moved_left() == b && b.backspaced() == b,
        b.cursor == b.input.len() ==> b.moved_right() == b && b.deleted() == b,
        b.moved_home() == (BarModel { cursor: 0, ..b }),
        b.moved_end() == (BarModel { cursor: b.input.len(), ..b }),
{
}

/// Deleting takes the one character at the cursor, and deleting backwards the one before
/// it.
pub proof fn law_deleting_takes_one(b: BarModel)
    requires
        b.wf(),
    ensures
        b.cursor < b.input.len() ==> b.deleted().input == b.input.take(b.cursor as int)
            + b.input.skip(b.cursor as int + 1) && b.deleted().cursor == b.cursor,
        b.cursor > 0 ==> b.backspaced().input == b.input.take(b.cursor - 1) + b.input.skip(
            b.cursor as int,
        ) && b.backspaced().cursor == b.cursor - 1,
{
    if b.cursor < b.input.len() {
        assert(b.deleted().input =~= b.input.take(b.cursor as int) + b.input.skip(b.cursor as int + 1));
    }
    if b.cursor > 0 {
        assert(b.backspaced().input =~= b.input.take(b.cursor - 1) + b.input.skip(
            b.cursor as int,
        ));
    }
}

/// A line that was sent is the newest of the history, which keeps the last 500, and the walk
/// through it starts anew.
pub proof fn law_history_keeps_the_newest(b: BarModel, line: Seq<char>)
    requires
        b.wf(),
    ensures
        ({
            let r = b.remembering(line);
            &&& r.history.last() == line && r.history_idx is None
            &&& b.history.len() < 500 ==> r.history.drop_last() == b.history
            &&& b.history.len() == 500 ==> r.history.drop_last() == b.history.skip(1)
            &&& r.input == b.input && r.cursor == b.cursor
            &&& r.older().input == line && r.older().cursor == line.len()
        }),
{
    let all = b.history.push(line);
    if b.history.len() < 500 {
        assert(all.drop_last() =~= b.history);
    } else {
        assert(b.remembering(line).history =~= all.skip(1));
        assert(all.skip(1).drop_last() =~= b.history.skip(1));
    }
}

/// The walk through the history goes from the newest line to the oldest and back, with the
/// cursor behind the line; past the newest the bar is empty.
pub proof fn law_history_is_walked_line_by_line(b: BarModel, i: usize)
    requires
        b.wf(),
        i < b.history.len(),
    ensures
        ({
            let at = BarModel { history_idx: Some(i), ..b };
            let off = BarModel { history_idx: None, ..b };
            &&& off.older().input == b.history.last() && off.older().history_idx == Some(
                (b.history.len() - 1) as usize,
            )
            &&& i > 0 ==> at.older().input == b.history[i - 1] && at.older().history_idx == Some(
                (i - 1) as usize,
            )
            &&& i == 0 ==> at.older().input == b.history[0] && at.older().history_idx == Some(
                0usize,
            )
            &&& i + 1 < b.history.len() ==> at.newer().input == b.history[i + 1]
                && at.newer().history_idx == Some((i + 1) as usize)
            &&& i + 1 == b.history.len() ==> at.newer().input.len() == 0 && at.newer().history_idx
                is None
            &&& off.newer() == off
            &&& at.older().cursor == at.older().input.len()
            &&& at.newer().cursor == at.newer().input.len()
            &&& off.older().cursor == off.older().input.len()
            &&& at.older().history == b.history && at.newer().history == b.history
        }),
{
}

proof fn lemma_nothing_to_replace(s: Seq<char>, p: Seq<char>, c: char, with: Seq<char>)
    requires
        p.len() > 0,
        p[0] == c,
        forall|i: int| 0 <= i < s.len() ==> #[trigger] s[i] != c,
    ensures
        replace_all(s, p, with) == s,
    decreases s.len(),
{
    if s.len() > 0 {
        if starts(s, p) {
            assert(s.subrange(0, p.len() as int)[0] == s[0]);
        }
        let r = s.drop_first();
        assert forall|i: int| 0 <= i < r.len() implies #[trigger] r[i] != c by {
            assert(r[i] == s[i + 1]);
        }
        lemma_nothing_to_replace(r, p, c, with);
        assert(seq![s[0]] + r =~= s);
    }
}

/// What stands before the first mark stays, and the rest is replaced as by itself.
pub proof fn law_replacing_goes_on_behind(s: Seq<char>, q: Seq<char>, p: Seq<char>, c: char, with: Seq<char>)
    requires
        p.len() > 0,
        p[0] == c,
        forall|i: int| 0 <= i < s.len() ==> #[trigger] s[i] != c,
    ensures
        replace_all(s + q, p, with) == s + replace_all(q, p, with),
    decreases s.len(),
{
    let all = s + q;
    if s.len() == 0 {
        assert(all =~= q);
        assert(s + replace_all(q, p, with) =~= replace_all(q, p, with));
    } else {
        assert(all[0] == s[0]);
        if starts(all, p) {
            assert(all.subrange(0, p.len() as int)[0] == all[0]);
        }
        let r = s.drop_first();
        assert forall|i: int| 0 <= i < r.len() implies #[trigger] r[i] != c by {
            assert(r[i] == s[i + 1]);
        }
        assert(all.drop_first() =~= r + q);
        law_replacing_goes_on_behind(r, q, p, c, with);
        assert(seq![s[0]] + (r + replace_all(q, p, with)) =~= s + replace_all(q, p, with));
    }
}

/// Every occurrence is replaced, from the left to the right.
pub proof fn law_every_occurrence_is_replaced(p: Seq<char>, q: Seq<char>, with: Seq<char>)
    requires
        p.len() > 0,
    ensures
        replace_all(p + q, p, with) == with + replace_all(q, p, with),
{
    let all = p + q;
    assert(all.subrange(0, p.len() as int) =~= p);
    assert(all.skip(p.len() as int) =~= q);
}

/// The marks that a terminal puts round a paste are taken off: a text without brackets and
/// escapes in it comes through them as it is.
pub proof fn law_paste_marks_are_taken_off(t: Seq<char>)
    requires
        forall|i: int| 0 <= i < t.len() ==> #[trigger] t[i] != '\u{1b}' && t[i] != '[',
    ensures
        paste_text("\u{1b}[200~"@ + t + "\u{1b}[201~"@) == paste_text(t),
        paste_text("[200~"@ + t + "[201~"@) == paste_text(t),
        paste_text(t) == pasted_chars(t),
{
    let eb = "\u{1b}[200~"@;
    let ee = "\u{1b}[201~"@;
    let b = "[200~"@;
    let e = "[201~"@;
    reveal_strlit("\u{1b}[200~");
    reveal_strlit("\u{1b}[201~");
    reveal_strlit("[200~");
    reveal_strlit("[201~");
    reveal_strlit("");
    let no = ""@;
    assert(no =~= Seq::<char>::empty());
    assert(eb[0] == '\u{1b}' && ee[0] == '\u{1b}' && b[0] == '[' && e[0] == '[');
    lemma_nothing_to_replace(t, eb, '\u{1b}', no);
    lemma_nothing_to_replace(t, ee, '\u{1b}', no);
    lemma_nothing_to_replace(t, b, '[', no);
    lemma_nothing_to_replace(t, e, '[', no);
    assert(unmarked(t) == t);
    // Both marks with their escapes.
    let s = eb + t + ee;
    assert(s =~= eb + (t + ee));
    law_every_occurrence_is_replaced(eb, t + ee, no);
    law_replacing_goes_on_behind(t, ee, eb, '\u{1b}', no);
    assert(replace_all(ee, eb, no) == ee) by {
        assert(ee[4] != eb[4]);
        lemma_other_mark(ee, eb, '\u{1b}', no);
    }
    assert(no + (t + ee) =~= t + ee);
    assert(replace_all(s, eb, no) == t + ee);
    law_replacing_goes_on_behind(t, ee, ee, '\u{1b}', no);
    law_every_occurrence_is_replaced(ee, Seq::empty(), no);
    assert(ee + Seq::<char>::empty() =~= ee);
    assert(replace_all(Seq::<char>::empty(), ee, no) =~= Seq::<char>::empty());
    assert(replace_all(ee, ee, no) =~= Seq::<char>::empty());
    assert(t + Seq::<char>::empty() =~= t);
    assert(unmarked(s) == t);
    // Both marks without them.
    let u = b + t + e;
    assert(u =~= b + (t + e));
    assert forall|i: int| 0 <= i < u.len() implies #[trigger] u[i] != '\u{1b}' by {
        if i < b.len() {
            assert(u[i] == b[i]);
        } else if i < b.len() + t.len() {
            assert(u[i] == t[i - b.len()]);
        } else {
            assert(u[i] == e[i - b.len() - t.len()]);
        }
    }
    lemma_nothing_to_replace(u, eb, '\u{1b}', no);
    lemma_nothing_to_replace(u, ee, '\u{1b}', no);
    law_every_occurrence_is_replaced(b, t + e, no);
    law_replacing_goes_on_behind(t, e, b, '[', no);
    assert(replace_all(e, b, no) == e) by {
        assert(e[3] != b[3]);
        lemma_other_mark(e, b, '[', no);
    }
    assert(no + (t + e) =~= t + e);
    law_replacing_goes_on_behind(t, e, e, '[', no);
    law_every_occurrence_is_replaced(e, Seq::empty(), no);
    assert(e + Seq::<char>::empty() =~= e);
    assert(replace_all(Seq::<char>::empty(), e, no) =~= Seq::<char>::empty());
    assert(replace_all(e, e, no) =~= Seq::<char>::empty());
    assert(unmarked(u) == t);
}

proof fn lemma_other_mark(s: Seq<char>, p: Seq<char>, c: char, with: Seq<char>)
    requires
        s.len() > 0,
        p.len() == s.len(),
        p[0] == c,
        s != p,
        forall|i: int| 1 <= i < s.len() ==> #[trigger] s[i] != c,
    ensures
        replace_all(s, p, with) == s,
{
    assert(s.subrange(0, s.len() as int) =~= s);
    let r = s.drop_first();
    assert forall|i: int| 0 <= i < r.len() implies #[trigger] r[i] != c by {
        assert(r[i] == s[i + 1]);
    }
    lemma_nothing_to_replace(r, p, c, with);
    assert(seq![s[0]] + r =~= s);
}

/// A paste comes in character by character: a line break or a tab is a blank, another
/// control character nothing, and any other character itself.
pub proof fn law_paste_comes_in_by_the_character(s: Seq<char>, c: char)
    ensures
        pasted_chars(Seq::empty()).len() == 0,
        c == '\n' || c == '\r' || c == '\t' ==> pasted_chars(s.push(c)) == pasted_chars(s).push(
            ' ',
        ),
        (c as u32) >= 0x20 && (c as u32) < 0x7f ==> pasted_chars(s.push(c)) == pasted_chars(
            s,
        ).push(c),
        (c as u32) > 0x9f ==> pasted_chars(s.push(c)) == pasted_chars(s).push(c),
        (c as u32) < 0x20 && c != '\n' && c != '\r' && c != '\t' ==> pasted_chars(s.push(c))
            == pasted_chars(s),
        0x7f <= (c as u32) <= 0x9f ==> pasted_chars(s.push(c)) == pasted_chars(s),
{
    assert(s.push(c).drop_last() =~= s);
}

/// A paste goes to the cursor and ends the walk through the history; for 150 milliseconds a
/// line break belongs to it.
pub proof fn law_paste_goes_to_the_cursor(b: BarModel, text: Seq<char>, then: u64, now: u64)
    requires
        b.wf(),
        then <= now,
    ensures
        ({
            let r = b.pasted(text, then);
            &&& r.input == b.with_text(paste_text(text)).input
            &&& r.cursor == b.cursor + paste_text(text).len()
            &&& paste_text(text).len() > 0 ==> r.history_idx is None
            &&& r.pasting(now) <==> now - then < 150 * 1_000_000
            &&& r.history == b.history
        }),
        b.last_paste_at is None ==> !b.pasting(now),
        b.pasted_break(now).input == b.with_text(seq![' ']).input,
        b.pasted_break(now).cursor == b.cursor + 1,
        b.pasted_break(now).last_paste_at == Some(now),
{
    if paste_text(text).len() == 0 {
        assert(insert_at(b.input, b.cursor as int, paste_text(text)) =~= b.input);
    }
}

/// The text of a burst of keys is what they would type, in their order; a line break and a
/// tab are blanks.
pub proof fn law_burst_is_what_was_typed(keys: Seq<KeyPress>, k: KeyPress)
    ensures
        burst_text(Seq::empty()).len() == 0,
        k.key matches Key::Char(c) ==> burst_text(keys.push(k)) == burst_text(keys).push(c),
        k.key == Key::Enter || k.key == Key::Tab ==> burst_text(keys.push(k)) == burst_text(
            keys,
        ).push(' '),
        k.key !is Char && k.key != Key::Enter && k.key != Key::Tab ==> burst_text(keys.push(k))
            == burst_text(keys),
{
    assert(keys.push(k).drop_last() =~= keys);
}

/// Whether a key edits: no help covers the bar, and there is something in it.
pub open spec fn is_edited(s: AppModel) -> bool {
    !s.show_help && s.bar.input.len() > 0
}

/// Each editing key does to the bar what is written on it, and nothing else.
pub proof fn law_editing_keys(s: AppModel, c: char, now: u64)
    requires
        is_edited(s),
    ensures
        s.keyed(plain_key(Key::Char(c)), now) == changed(s, s.bar.with_text(seq![c])),
        s.keyed(KeyPress { mods: Mods::Shift, key: Key::Char(c) }, now) == changed(
            s,
            s.bar.with_text(seq![c]),
        ),
        s.keyed(plain_key(Key::Backspace), now) == changed(s, s.bar.backspaced()),
        s.keyed(plain_key(Key::Delete), now) == changed(s, s.bar.deleted()),
        s.keyed(plain_key(Key::Left), now) == changed(s, s.bar.moved_left()),
        s.keyed(plain_key(Key::Right), now) == changed(s, s.bar.moved_right()),
        s.keyed(plain_key(Key::Home), now) == changed(s, s.bar.moved_home()),
        s.keyed(plain_key(Key::End), now) == changed(s, s.bar.moved_end()),
        s.keyed(plain_key(Key::Up), now) == changed(s, s.bar.older()),
        s.keyed(plain_key(Key::Down), now) == changed(s, s.bar.newer()),
        s.keyed(plain_key(Key::Esc), now) == changed(s, s.bar),
{
}

/// The application with another bar, and nothing to do.
pub open spec fn changed(s: AppModel, bar: BarModel) -> (AppModel, Seq<ActionModel>) {
    (AppModel { bar, ..s }, Seq::empty())
}

/// Control-C quits, F1 shows the help, and the page keys scroll by five rows, whatever is in
/// the bar.
pub proof fn law_keys_of_every_tab(s: AppModel, now: u64)
    requires
        !s.show_help,
    ensures
        s.keyed(KeyPress { mods: Mods::Control, key: Key::Char('c') }, now) == (
            AppModel { should_quit: true, ..s },
            Seq::<ActionModel>::empty(),
        ),
        s.keyed(plain_key(Key::F(1)), now) == (
            AppModel { show_help: true, ..s },
            Seq::<ActionModel>::empty(),
        ),
        s.keyed(plain_key(Key::PageUp), now).1.len() == 0,
        s.keyed(plain_key(Key::PageDown), now).1.len() == 0,
        s.scroll + 5 <= usize::MAX ==> s.keyed(plain_key(Key::PageUp), now).0 == (AppModel {
            scroll: (s.scroll + 5) as usize,
            ..s
        }),
        s.scroll >= 5 ==> s.keyed(plain_key(Key::PageDown), now).0 == (AppModel {
            scroll: (s.scroll - 5) as usize,
            ..s
        }),
        s.scroll < 5 ==> s.keyed(plain_key(Key::PageDown), now).0 == (AppModel { scroll: 0, ..s }),
{
}

/// A key with Control or another modifier is no hot key: a letter is typed, but for the one
/// that quits, and Tab does nothing.
pub proof fn law_modified_keys_are_no_hot_keys(s: AppModel, mods: Mods, c: char, n: u8, now: u64)
    requires
        !s.show_help,
        mods != Mods::Plain,
    ensures
        mods != Mods::Control || c != 'c' ==> s.keyed(KeyPress { mods, key: Key::Char(c) }, now)
            == changed(s, s.bar.with_text(seq![c])),
        s.keyed(KeyPress { mods, key: Key::Esc }, now) == changed(s, s.bar),
        s.keyed(KeyPress { mods, key: Key::Tab }, now) == changed(s, s.bar),
        mods != Mods::Shift ==> s.keyed(KeyPress { mods, key: Key::BackTab }, now) == changed(
            s,
            s.bar,
        ),
        n != 1 ==> s.keyed(KeyPress { mods, key: Key::F(n) }, now) == changed(s, s.bar),
{
}

/// Several keys at once are one paste of what they spell, if they spell anything, and are
/// taken one by one else; one key is that key.
pub proof fn law_burst_is_one_paste(s: AppModel, keys: Seq<KeyPress>, k: KeyPress, now: u64)
    ensures
        s.burst(seq![k], now) == s.keyed(k, now),
        keys.len() > 1 && burst_text(keys).len() > 0 ==> s.burst(keys, now) == changed(
            s,
            s.bar.pasted(burst_text(keys), now),
        ),
        keys.len() > 1 && burst_text(keys).len() == 0 ==> s.burst(keys, now) == s.keyed_all(
            keys,
            now,
        ),
        s.keyed_all(Seq::empty(), now) == (s, Seq::<ActionModel>::empty()),
        s.keyed_all(keys.push(k), now) == (
            s.keyed_all(keys, now).0.keyed(k, now).0,
            s.keyed_all(keys, now).1 + s.keyed_all(keys, now).0.keyed(k, now).1,
        ),
{
    assert(keys.push(k).drop_last() =~= keys);
    assert(keys.push(k).last() == k);
    let a = s.keyed_all(keys, now);
    assert(keys.push(k).len() > 0);
    reveal(AppModel::next_key);
    let b = a.0.next_key(k, now);
    assert(b == a.0.keyed(k, now));
    assert(s.keyed_all(keys.push(k), now) == (b.0, a.1 + b.1));
}

/// The tabs stand in one order, which Tab walks forwards and BackTab backwards.
pub proof fn law_tabs_stand_in_one_order(s: AppModel, now: u64)
    requires
        !s.show_help,
    ensures
        ({
            let next = s.keyed(plain_key(Key::Tab), now).0.tab;
            let prev = s.keyed(plain_key(Key::BackTab), now).0.tab;
            &&& s.tab == Tab::Memory ==> next == Tab::Status && prev == Tab::Agent
            &&& s.tab == Tab::Status ==> next == Tab::Bus && prev == Tab::Memory
            &&& s.tab == Tab::Bus ==> next == Tab::Constellation && prev == Tab::Status
            &&& s.tab == Tab::Constellation ==> next == Tab::Dreams && prev == Tab::Bus
            &&& s.tab == Tab::Dreams ==> next == Tab::Chat && prev == Tab::Constellation
            &&& s.tab == Tab::Chat ==> next == Tab::Cosmos && prev == Tab::Dreams
            &&& s.tab == Tab::Cosmos ==> next == Tab::Agent && prev == Tab::Chat
            &&& s.tab == Tab::Agent ==> next == Tab::Memory && prev == Tab::Cosmos
            &&& s.keyed(KeyPress { mods: Mods::Shift, key: Key::BackTab }, now).0.tab == prev
            &&& s.keyed(plain_key(Key::Tab), now).0.bar == s.bar
            &&& s.keyed(plain_key(Key::Tab), now).0.scroll == 0
        }),
{
}

} // verus!
