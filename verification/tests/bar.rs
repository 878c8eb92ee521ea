use kannaka_tui::bar::{clean_paste, Bar, HISTORY_CAP, PASTE_WINDOW};

fn typed(text: &str) -> Bar {
    let mut b = Bar::new();
    for c in text.chars() {
        b.typed(c);
    }
    b
}

#[test]
fn typing_goes_in_at_the_cursor() {
    let mut b = typed("h\u{e9}lo");
    b.left();
    b.typed('l');
    assert_eq!((b.input.as_str(), b.cursor), ("h\u{e9}llo", 4));
    b.home();
    b.delete();
    assert_eq!((b.input.as_str(), b.cursor), ("\u{e9}llo", 0));
    b.backspace();
    b.left();
    assert_eq!(b.cursor, 0);
    b.end();
    b.right();
    b.delete();
    assert_eq!((b.input.as_str(), b.cursor), ("\u{e9}llo", 4));
    b.backspace();
    assert_eq!((b.input.as_str(), b.cursor), ("\u{e9}ll", 3));
    b.clear();
    assert!(b.is_empty() && b.cursor == 0);
}

#[test]
fn a_backspace_takes_back_what_was_typed() {
    let mut b = typed("ab");
    b.left();
    b.typed('\u{1f310}');
    b.backspace();
    assert_eq!((b.input.as_str(), b.cursor), ("ab", 1));
}

#[test]
fn the_history_is_walked_and_bounded() {
    let mut b = Bar::new();
    b.up();
    b.down();
    assert!(b.is_empty());
    b.remember("one");
    b.remember("two");
    b.up();
    assert_eq!((b.input.as_str(), b.cursor), ("two", 3));
    b.up();
    b.up();
    assert_eq!(b.input, "one");
    b.down();
    assert_eq!(b.input, "two");
    b.down();
    assert!(b.is_empty() && b.history_idx.is_none());
    for i in 0..HISTORY_CAP + 3 {
        b.remember(&i.to_string());
    }
    assert_eq!(b.history.len(), 500);
    assert_eq!(b.history[0], "3");
    assert_eq!(b.history[499], "502");
}

#[test]
fn pasted_text_is_one_line() {
    assert_eq!(clean_paste("a\r\nb\tc"), "a  b c");
    assert_eq!(clean_paste("\u{1b}[200~x\u{1b}[201~"), "x");
    assert_eq!(clean_paste("[200~x[201~\u{7}\u{85}"), "x");
    assert_eq!(clean_paste("\u{1b}\u{7f}"), "");
    assert_eq!(clean_paste("caf\u{e9}"), "caf\u{e9}");
}

#[test]
fn a_paste_goes_in_at_the_cursor() {
    let mut b = typed("ad");
    b.left();
    b.remember("old");
    b.history_idx = Some(0);
    b.paste("b\nc", 1_000);
    assert_eq!((b.input.as_str(), b.cursor), ("ab cd", 4));
    assert!(b.history_idx.is_none());
    assert!(b.is_pasting(1_000 + PASTE_WINDOW - 1));
    assert!(!b.is_pasting(1_000 + PASTE_WINDOW));
    b.paste_break(2_000);
    assert_eq!((b.input.as_str(), b.cursor), ("ab c d", 5));
    assert_eq!(b.last_paste_at, Some(2_000));
    let mut e = Bar::new();
    e.history_idx = None;
    e.paste("\u{0}", 7);
    assert!(e.is_empty());
    assert_eq!(e.last_paste_at, Some(7));
}
