//! Keys, and bursts of them.

use vstd::prelude::*;

verus! {

/// A key.
#[derive(Clone, Copy, PartialEq, Eq, Structural, Debug)]
pub enum Key {
    Char(char),
    Enter,
    Tab,
    BackTab,
    Backspace,
    Delete,
    Left,
    Right,
    Up,
    Down,
    Home,
    End,
    PageUp,
    PageDown,
    Esc,
    /// A function key.
    F(u8),
    Other,
}

/// The modifiers held with a key.
#[derive(Clone, Copy, PartialEq, Eq, Structural, Debug)]
pub enum Mods {
    Plain,
    Shift,
    Control,
    Other,
}

/// A key that was pressed.
#[derive(Clone, Copy, PartialEq, Eq, Structural, Debug)]
pub struct KeyPress {
    pub mods: Mods,
    pub key: Key,
}

impl KeyPress {
    /// Whether this is the letter `lower` or `upper`, with no modifier.
    pub open spec fn spec_letter(self, lower: char, upper: char) -> bool {
        self.mods == Mods::Plain && (self.key == Key::Char(lower) || self.key == Key::Char(upper))
    }

    /// Whether this is the letter `lower` or `upper`, with no modifier.
    pub fn is_letter(&self, lower: char, upper: char) -> (r: bool)
        ensures
            r == self.spec_letter(lower, upper),
    {
        match (self.mods, self.key) {
            (Mods::Plain, Key::Char(c)) => c == lower || c == upper,
            _ => false,
        }
    }

    /// Whether this is Escape, with no modifier.
    pub open spec fn spec_esc(self) -> bool {
        self.mods == Mods::Plain && self.key == Key::Esc
    }

    /// Whether this is Escape, with no modifier.
    pub fn is_esc(&self) -> (r: bool)
        ensures
            r == self.spec_esc(),
    {
        match (self.mods, self.key) {
            (Mods::Plain, Key::Esc) => true,
            _ => false,
        }
    }
}

/// The text that a key stands for in a burst: line breaks and tabs are blanks.
pub open spec fn burst_char(k: KeyPress) -> Seq<char> {
    match k.key {
        Key::Char(c) => seq![c],
        Key::Enter | Key::Tab => seq![' '],
        _ => Seq::empty(),
    }
}

/// The text that a burst of keys stands for.
pub open spec fn burst_text(keys: Seq<KeyPress>) -> Seq<char>
    decreases keys.len(),
{
    if keys.len() == 0 {
        Seq::empty()
    } else {
        burst_text(keys.drop_last()) + burst_char(keys.last())
    }
}

/// Appends the text that a key stands for in a burst ([`burst_char`]).
pub fn key_burst_char(k: &KeyPress, buf: &mut String)
    ensures
        final(buf)@ == old(buf)@ + burst_char(*k),
{
    match k.key {
        Key::Char(c) => {
            buf.push(c);
        },
        Key::Enter | Key::Tab => {
            buf.push(' ');
        },
        _ => {},
    }
    assert(buf@ =~= old(buf)@ + burst_char(*k));
}

/// The text that a burst of keys stands for ([`burst_text`]).
pub fn burst_of(keys: &Vec<KeyPress>) -> (r: String)
    ensures
        r@ == burst_text(keys@),
{
    let mut out = String::new();
    let mut i: usize = 0;
    assert(keys@.take(0) =~= Seq::<KeyPress>::empty());
    assert(out@ =~= Seq::<char>::empty());
    while i < keys.len()
        invariant
            i <= keys@.len(),
            out@ == burst_text(keys@.take(i as int)),
        decreases keys.len() - i,
    {
        proof {
            assert(keys@.take(i + 1).drop_last() =~= keys@.take(i as int));
            assert(keys@.take(i + 1).last() == keys@[i as int]);
        }
        key_burst_char(&keys[i], &mut out);
        i = i + 1;
    }
    assert(keys@.take(keys@.len() as int) =~= keys@);
    out
}

} // verus!
