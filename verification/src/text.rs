//! Plain-text building blocks: every function here speaks of a string as the
//! sequence of its characters.

use vstd::prelude::*;
use crate::buffer::first_of;
use vstd::utf8::{encode_scalar, encode_utf8, is_char_boundary};

verus! {

/// Whether `c` has the Unicode `White_Space` property.
pub open spec fn white(c: char) -> bool {
    let u = c as u32;
    ||| 0x09 <= u <= 0x0d
    ||| u == 0x20
    ||| u == 0x85
    ||| u == 0xa0
    ||| u == 0x1680
    ||| 0x2000 <= u <= 0x200a
    ||| u == 0x2028
    ||| u == 0x2029
    ||| u == 0x202f
    ||| u == 0x205f
    ||| u == 0x3000
}

/// Whether `c` is a control character (Unicode general category `Cc`).
pub open spec fn control(c: char) -> bool {
    let u = c as u32;
    u <= 0x1f || 0x7f <= u <= 0x9f
}

/// Decides [`white`].
pub fn is_white_space(c: char) -> (r: bool)
    ensures
        r == white(c),
{
    let u: u32 = c as u32;
    (0x09 <= u && u <= 0x0d) || u == 0x20 || u == 0x85 || u == 0xa0 || u == 0x1680
        || (0x2000 <= u && u <= 0x200a) || u == 0x2028 || u == 0x2029 || u == 0x202f
        || u == 0x205f || u == 0x3000
}

/// Decides [`control`].
pub fn is_control(c: char) -> (r: bool)
    ensures
        r == control(c),
{
    let u: u32 = c as u32;
    u <= 0x1f || (0x7f <= u && u <= 0x9f)
}

/// `s` without its leading white space.
pub open spec fn trim_start(s: Seq<char>) -> Seq<char>
    decreases s.len(),
{
    if s.len() > 0 && white(s[0]) {
        trim_start(s.drop_first())
    } else {
        s
    }
}

/// `s` without its trailing white space.
pub open spec fn trim_end(s: Seq<char>) -> Seq<char>
    decreases s.len(),
{
    if s.len() > 0 && white(s.last()) {
        trim_end(s.drop_last())
    } else {
        s
    }
}

/// `s` without the white space at either end.
pub open spec fn trim(s: Seq<char>) -> Seq<char> {
    trim_end(trim_start(s))
}

/// `s` without the copies of `q` at its start.
pub open spec fn peel_start(s: Seq<char>, q: char) -> Seq<char>
    decreases s.len(),
{
    if s.len() > 0 && s[0] == q {
        peel_start(s.drop_first(), q)
    } else {
        s
    }
}

/// `s` without the copies of `q` at its end.
pub open spec fn peel_end(s: Seq<char>, q: char) -> Seq<char>
    decreases s.len(),
{
    if s.len() > 0 && s.last() == q {
        peel_end(s.drop_last(), q)
    } else {
        s
    }
}

/// `s` without the copies of `q` at either end.
pub open spec fn peel(s: Seq<char>, q: char) -> Seq<char> {
    peel_end(peel_start(s, q), q)
}

/// Whether `s` starts with `p`.
pub open spec fn starts(s: Seq<char>, p: Seq<char>) -> bool {
    p.len() <= s.len() && s.subrange(0, p.len() as int) == p
}

/// What follows the prefix `p` of `s`, where `s` starts with `p`.
pub open spec fn after(s: Seq<char>, p: Seq<char>) -> Option<Seq<char>> {
    if starts(s, p) {
        Some(s.subrange(p.len() as int, s.len() as int))
    } else {
        None
    }
}

/// Whether `p` stands in `s` at index `i`.
pub open spec fn stands_at(s: Seq<char>, p: Seq<char>, i: int) -> bool {
    0 <= i <= s.len() - p.len() && s.subrange(i, i + p.len()) == p
}

/// Whether `p` stands anywhere in `s`.
pub open spec fn holds(s: Seq<char>, p: Seq<char>) -> bool {
    exists|i: int| stands_at(s, p, i)
}

/// The characters of `s`.
pub fn to_chars(s: &str) -> (r: Vec<char>)
    ensures
        r@ == s@,
{
    let mut out: Vec<char> = Vec::new();
    for c in it: s.chars()
        invariant
            it.seq() == s@,
            out@ == s@.take(it.index()),
    {
        out.push(c);
        assert(s@.take(it.index() + 1) =~= s@.take(it.index()).push(s@[it.index()]));
    }
    assert(s@.take(s@.len() as int) =~= s@);
    out
}

/// Appends one character.
///
/// Trusted: `String::push` appends the given character and changes nothing else.
pub assume_specification[ String::push ](s: &mut String, c: char)
    ensures
        final(s)@ == old(s)@.push(c),
;

/// The text that the characters `v[from..to]` spell.
pub fn from_chars(v: &Vec<char>, from: usize, to: usize) -> (r: String)
    requires
        from <= to <= v@.len(),
    ensures
        r@ == v@.subrange(from as int, to as int),
{
    let mut out = String::new();
    let mut i: usize = from;
    while i < to
        invariant
            from <= i <= to <= v@.len(),
            out@ == v@.subrange(from as int, i as int),
        decreases to - i,
    {
        out.push(v[i]);
        i = i + 1;
        assert(v@.subrange(from as int, i as int) =~= v@.subrange(from as int, i - 1).push(
            v@[i - 1],
        ));
    }
    out
}

pub(crate) proof fn lemma_trim_start_skips(s: Seq<char>, i: int)
    requires
        0 <= i <= s.len(),
        forall|j: int| 0 <= j < i ==> white(s[j]),
    ensures
        trim_start(s) == trim_start(s.subrange(i, s.len() as int)),
    decreases i,
{
    if i == 0 {
        assert(s.subrange(0, s.len() as int) =~= s);
    } else {
        let t = s.drop_first();
        assert(forall|j: int| 0 <= j < i - 1 ==> white(#[trigger] t[j]));
        lemma_trim_start_skips(t, i - 1);
        assert(t.subrange(i - 1, t.len() as int) =~= s.subrange(i, s.len() as int));
    }
}

pub(crate) proof fn lemma_trim_end_skips(s: Seq<char>, i: int)
    requires
        0 <= i <= s.len(),
        forall|j: int| i <= j < s.len() ==> white(s[j]),
    ensures
        trim_end(s) == trim_end(s.subrange(0, i)),
    decreases s.len() - i,
{
    if i == s.len() {
        assert(s.subrange(0, s.len() as int) =~= s);
    } else {
        let t = s.drop_last();
        assert(forall|j: int| i <= j < t.len() ==> white(#[trigger] t[j]));
        lemma_trim_end_skips(t, i);
        assert(t.subrange(0, i) =~= s.subrange(0, i));
    }
}

/// `s` without the white space at either end ([`trim`]).
pub fn trimmed(s: &str) -> (r: String)
    ensures
        r@ == trim(s@),
{
    let v = to_chars(s);
    let n: usize = v.len();
    let mut from: usize = 0;
    while from < n && is_white_space(v[from])
        invariant
            n == v@.len(),
            from <= n,
            forall|j: int| 0 <= j < from ==> white(v@[j]),
        decreases n - from,
    {
        from = from + 1;
    }
    let ghost rest = v@.subrange(from as int, n as int);
    proof {
        lemma_trim_start_skips(v@, from as int);
        if from < n {
            assert(rest[0] == v@[from as int]);
        }
        assert(trim_start(v@) == rest);
    }
    let mut to: usize = n;
    while to > from && is_white_space(v[to - 1])
        invariant
            n == v@.len(),
            from <= to <= n,
            forall|j: int| to <= j < n ==> white(v@[j]),
        decreases to,
    {
        to = to - 1;
    }
    proof {
        assert forall|j: int| to - from <= j < rest.len() implies white(rest[j]) by {
            assert(rest[j] == v@[from + j]);
        }
        lemma_trim_end_skips(rest, to - from);
        assert(rest.subrange(0, to - from) =~= v@.subrange(from as int, to as int));
        if to > from {
            assert(v@.subrange(from as int, to as int).last() == v@[to - 1]);
        }
    }
    from_chars(&v, from, to)
}

pub(crate) proof fn lemma_peel_start_skips(s: Seq<char>, q: char, i: int)
    requires
        0 <= i <= s.len(),
        forall|j: int| 0 <= j < i ==> s[j] == q,
    ensures
        peel_start(s, q) == peel_start(s.subrange(i, s.len() as int), q),
    decreases i,
{
    if i == 0 {
        assert(s.subrange(0, s.len() as int) =~= s);
    } else {
        let t = s.drop_first();
        assert(forall|j: int| 0 <= j < i - 1 ==> #[trigger] t[j] == q);
        lemma_peel_start_skips(t, q, i - 1);
        assert(t.subrange(i - 1, t.len() as int) =~= s.subrange(i, s.len() as int));
    }
}

pub(crate) proof fn lemma_peel_end_skips(s: Seq<char>, q: char, i: int)
    requires
        0 <= i <= s.len(),
        forall|j: int| i <= j < s.len() ==> s[j] == q,
    ensures
        peel_end(s, q) == peel_end(s.subrange(0, i), q),
    decreases s.len() - i,
{
    if i == s.len() {
        assert(s.subrange(0, s.len() as int) =~= s);
    } else {
        let t = s.drop_last();
        assert(forall|j: int| i <= j < t.len() ==> #[trigger] t[j] == q);
        lemma_peel_end_skips(t, q, i);
        assert(t.subrange(0, i) =~= s.subrange(0, i));
    }
}

/// `s` without the copies of `q` at either end ([`peel`]).
pub fn peeled(s: &str, q: char) -> (r: String)
    ensures
        r@ == peel(s@, q),
{
    let v = to_chars(s);
    let n: usize = v.len();
    let mut from: usize = 0;
    while from < n && v[from] == q
        invariant
            n == v@.len(),
            from <= n,
            forall|j: int| 0 <= j < from ==> v@[j] == q,
        decreases n - from,
    {
        from = from + 1;
    }
    let ghost rest = v@.subrange(from as int, n as int);
    proof {
        lemma_peel_start_skips(v@, q, from as int);
        if from < n {
            assert(rest[0] == v@[from as int]);
        }
    }
    let mut to: usize = n;
    while to > from && v[to - 1] == q
        invariant
            n == v@.len(),
            from <= to <= n,
            forall|j: int| to <= j < n ==> v@[j] == q,
        decreases to,
    {
        to = to - 1;
    }
    proof {
        assert forall|j: int| to - from <= j < rest.len() implies rest[j] == q by {
            assert(rest[j] == v@[from + j]);
        }
        lemma_peel_end_skips(rest, q, to - from);
        assert(rest.subrange(0, to - from) =~= v@.subrange(from as int, to as int));
        if to > from {
            assert(v@.subrange(from as int, to as int).last() == v@[to - 1]);
        }
    }
    from_chars(&v, from, to)
}

/// Whether `p` stands in `v` at index `i`.
fn chars_stand_at(v: &Vec<char>, p: &Vec<char>, i: usize) -> (r: bool)
    ensures
        r == stands_at(v@, p@, i as int),
{
    let n: usize = p.len();
    if n > v.len() || i > v.len() - n {
        return false;
    }
    let mut k: usize = 0;
    while k < n
        invariant
            n == p@.len(),
            i + n <= v.len(),
            k <= n,
            forall|j: int| 0 <= j < k ==> v@[i + j] == p@[j],
        decreases n - k,
    {
        if v[i + k] != p[k] {
            assert(v@.subrange(i as int, i + n)[k as int] == v@[i + k]);
            return false;
        }
        k = k + 1;
    }
    assert(v@.subrange(i as int, i + n) =~= p@);
    true
}

/// Whether the two texts are the same.
pub fn same(a: &str, b: &str) -> (r: bool)
    ensures
        r == (a@ == b@),
{
    let v = to_chars(a);
    let p = to_chars(b);
    if v.len() != p.len() {
        return false;
    }
    let r = chars_stand_at(&v, &p, 0);
    assert(v@.subrange(0, v@.len() as int) =~= v@);
    r
}

/// Whether `s` starts with `p` ([`starts`]).
pub fn starts_with(s: &str, p: &str) -> (r: bool)
    ensures
        r == starts(s@, p@),
{
    let v = to_chars(s);
    let w = to_chars(p);
    chars_stand_at(&v, &w, 0)
}

/// What follows the prefix `p` of `s`, where `s` starts with `p` ([`after`]).
pub fn strip_prefix(s: &str, p: &str) -> (r: Option<String>)
    ensures
        match r {
            Some(t) => after(s@, p@) == Some(t@),
            None => after(s@, p@) is None,
        },
{
    let v = to_chars(s);
    let w = to_chars(p);
    if chars_stand_at(&v, &w, 0) {
        Some(from_chars(&v, w.len(), v.len()))
    } else {
        None
    }
}

/// The greatest index below `n` at which `p` stands in `s`.
pub open spec fn last_below(s: Seq<char>, p: Seq<char>, n: int) -> Option<int>
    decreases n,
{
    if n <= 0 {
        None
    } else if stands_at(s, p, n - 1) {
        Some(n - 1)
    } else {
        last_below(s, p, n - 1)
    }
}

/// The index of the last occurrence of `p` in `s`.
pub open spec fn last_index(s: Seq<char>, p: Seq<char>) -> Option<int> {
    last_below(s, p, s.len() as int + 1)
}

/// The index of the last occurrence of `p` in `v` ([`last_index`]).
pub fn chars_rfind(v: &Vec<char>, p: &Vec<char>) -> (r: Option<usize>)
    ensures
        match r {
            Some(i) => last_index(v@, p@) == Some(i as int) && i <= v@.len(),
            None => last_index(v@, p@) is None,
        },
{
    if chars_stand_at(v, p, v.len()) {
        return Some(v.len());
    }
    let mut n: usize = v.len();
    while n > 0
        invariant
            n <= v@.len(),
            last_index(v@, p@) == last_below(v@, p@, n as int),
        decreases n,
    {
        if chars_stand_at(v, p, n - 1) {
            return Some(n - 1);
        }
        n = n - 1;
    }
    None
}

/// Whether `p` stands anywhere in `s` ([`holds`]).
pub fn contains(s: &str, p: &str) -> (r: bool)
    ensures
        r == holds(s@, p@),
{
    let v = to_chars(s);
    let w = to_chars(p);
    let n: usize = v.len();
    if chars_stand_at(&v, &w, n) {
        return true;
    }
    let mut i: usize = 0;
    while i < n
        invariant
            n == v@.len(),
            i <= n,
            v@ == s@,
            w@ == p@,
            !stands_at(v@, w@, n as int),
            forall|j: int| 0 <= j < i ==> !stands_at(v@, w@, j),
        decreases n - i,
    {
        if chars_stand_at(&v, &w, i) {
            return true;
        }
        i = i + 1;
    }
    false
}

/// The text `a` followed by the text `b`.
pub fn cat2(a: &str, b: &str) -> (r: String)
    ensures
        r@ == a@ + b@,
{
    let mut out = String::new();
    out.append(a);
    out.append(b);
    assert(out@ =~= a@ + b@);
    out
}

/// The text `a` followed by `b` and `c`.
pub fn cat3(a: &str, b: &str, c: &str) -> (r: String)
    ensures
        r@ == a@ + b@ + c@,
{
    let mut out = cat2(a, b);
    out.append(c);
    out
}

/// The texts `a` to `d`, one after the other.
pub fn cat4(a: &str, b: &str, c: &str, d: &str) -> (r: String)
    ensures
        r@ == a@ + b@ + c@ + d@,
{
    let mut out = cat3(a, b, c);
    out.append(d);
    out
}

/// The texts `a` to `e`, one after the other.
pub fn cat5(a: &str, b: &str, c: &str, d: &str, e: &str) -> (r: String)
    ensures
        r@ == a@ + b@ + c@ + d@ + e@,
{
    let mut out = cat4(a, b, c, d);
    out.append(e);
    out
}

/// At most `max` characters of `s`: `s` itself where it is short enough, else its
/// first `max - 1` characters (none for `max == 0`) and an ellipsis.
pub open spec fn cut(s: Seq<char>, max: nat) -> Seq<char> {
    if s.len() <= max {
        s
    } else if max == 0 {
        seq!['\u{2026}']
    } else {
        s.take(max - 1).push('\u{2026}')
    }
}

/// Shortens `s` to `max` characters ([`cut`]).
pub fn truncate(s: &str, max: usize) -> (r: String)
    ensures
        r@ == cut(s@, max as nat),
{
    let v = to_chars(s);
    if v.len() <= max {
        assert(v@.subrange(0, v@.len() as int) =~= v@);
        return from_chars(&v, 0, v.len());
    }
    let keep: usize = if max == 0 { 0 } else { max - 1 };
    let mut out = from_chars(&v, 0, keep);
    out.push('\u{2026}');
    assert(out@ =~= cut(s@, max as nat));
    out
}

/// A shortened text has at most `max` characters (one where `max` is 0), and a text
/// that is short enough is left as it is.
pub proof fn law_cut_fits(s: Seq<char>, max: nat)
    ensures
        max > 0 ==> cut(s, max).len() <= max,
        max == 0 ==> cut(s, max).len() <= 1,
        s.len() <= max ==> cut(s, max) == s,
{
}

/// The first `n` characters of `s`.
pub fn head(s: &str, n: usize) -> (r: String)
    ensures
        r@ == first_of(s@, n as nat),
{
    let v = to_chars(s);
    if v.len() <= n {
        assert(v@.subrange(0, v@.len() as int) =~= v@);
        from_chars(&v, 0, v.len())
    } else {
        from_chars(&v, 0, n)
    }
}

/// The decimal digits of `n`.
pub open spec fn decimal(n: nat) -> Seq<char>
    decreases n,
{
    if n < 10 {
        seq![digit(n)]
    } else {
        decimal(n / 10).push(digit(n % 10))
    }
}

/// The character of the digit `d`.
pub open spec fn digit(d: nat) -> char {
    ('0' as u32 + d) as char
}

fn digit_char(d: u64) -> (r: char)
    requires
        d < 10,
    ensures
        r == digit(d as nat),
{
    if d == 0 {
        '0'
    } else if d == 1 {
        '1'
    } else if d == 2 {
        '2'
    } else if d == 3 {
        '3'
    } else if d == 4 {
        '4'
    } else if d == 5 {
        '5'
    } else if d == 6 {
        '6'
    } else if d == 7 {
        '7'
    } else if d == 8 {
        '8'
    } else {
        '9'
    }
}

/// The decimal digits of `n` ([`decimal`]).
pub fn decimal_text(n: u64) -> (r: String)
    ensures
        r@ == decimal(n as nat),
    decreases n,
{
    let mut out = if n < 10 {
        String::new()
    } else {
        decimal_text(n / 10)
    };
    out.push(digit_char(n % 10));
    assert(out@ =~= decimal(n as nat));
    out
}

/// `n` blanks.
pub open spec fn blanks(n: nat) -> Seq<char> {
    Seq::new(n, |i: int| ' ')
}

/// `s` filled up with blanks on the right to a width of `w` characters.
pub open spec fn left_in(s: Seq<char>, w: nat) -> Seq<char> {
    if s.len() >= w {
        s
    } else {
        s + blanks((w - s.len()) as nat)
    }
}

/// `s` filled up with blanks on the left to a width of `w` characters.
pub open spec fn right_in(s: Seq<char>, w: nat) -> Seq<char> {
    if s.len() >= w {
        s
    } else {
        blanks((w - s.len()) as nat) + s
    }
}

/// `n` copies of `c`.
pub fn repeated(c: char, n: usize) -> (r: String)
    ensures
        r@ == Seq::new(n as nat, |i: int| c),
{
    let mut out = String::new();
    let mut i: usize = 0;
    while i < n
        invariant
            i <= n,
            out@ == Seq::new(i as nat, |j: int| c),
        decreases n - i,
    {
        out.push(c);
        i = i + 1;
        assert(out@ =~= Seq::new(i as nat, |j: int| c));
    }
    out
}

/// `s` at the left of a field of `w` characters ([`left_in`]).
pub fn pad_right(s: &str, w: usize) -> (r: String)
    ensures
        r@ == left_in(s@, w as nat),
{
    let n: usize = s.unicode_len();
    if n >= w {
        let r = s.to_owned();
        return r;
    }
    let fill = repeated(' ', w - n);
    let r = cat2(s, fill.as_str());
    assert(r@ =~= left_in(s@, w as nat));
    r
}

/// `s` at the right of a field of `w` characters ([`right_in`]).
pub fn pad_left(s: &str, w: usize) -> (r: String)
    ensures
        r@ == right_in(s@, w as nat),
{
    let n: usize = s.unicode_len();
    if n >= w {
        let r = s.to_owned();
        return r;
    }
    let fill = repeated(' ', w - n);
    let r = cat2(fill.as_str(), s);
    assert(r@ =~= right_in(s@, w as nat));
    r
}

/// What each of the texts spells.
pub open spec fn texts(v: Seq<String>) -> Seq<Seq<char>> {
    v.map_values(|s: String| s@)
}

/// What an optional text spells.
pub open spec fn opt(t: Option<String>) -> Option<Seq<char>> {
    match t {
        Some(t) => Some(t@),
        None => None,
    }
}

/// The index of the first line feed in `s`, its length where there is none.
pub open spec fn line_end(s: Seq<char>) -> nat
    decreases s.len(),
{
    if s.len() == 0 || s[0] == '\n' {
        0
    } else {
        1 + line_end(s.drop_first())
    }
}

/// `s` without one carriage return at its end.
pub open spec fn without_cr(s: Seq<char>) -> Seq<char> {
    if s.len() > 0 && s.last() == '\r' {
        s.drop_last()
    } else {
        s
    }
}

/// The lines of `s`: each ends in `\n` or `\r\n`, which is no part of it, and
/// the last one may end with the text.
pub open spec fn split_lines(s: Seq<char>) -> Seq<Seq<char>>
    decreases s.len(),
{
    if s.len() == 0 {
        Seq::empty()
    } else if line_end(s) >= s.len() {
        seq![s]
    } else {
        seq![without_cr(s.take(line_end(s) as int))] + split_lines(s.skip(line_end(s) as int + 1))
    }
}

pub(crate) proof fn lemma_line_end(s: Seq<char>, n: int)
    requires
        0 <= n <= s.len(),
        forall|j: int| 0 <= j < n ==> s[j] != '\n',
        n < s.len() ==> s[n] == '\n',
    ensures
        line_end(s) == n,
    decreases n,
{
    if n > 0 {
        let t = s.drop_first();
        assert(forall|j: int| 0 <= j < n - 1 ==> #[trigger] t[j] == s[j + 1]);
        lemma_line_end(t, n - 1);
    }
}

/// The lines of `s` ([`split_lines`]).
pub fn lines(s: &str) -> (r: Vec<String>)
    ensures
        texts(r@) == split_lines(s@),
{
    let v = to_chars(s);
    let n: usize = v.len();
    let mut out: Vec<String> = Vec::new();
    let mut from: usize = 0;
    assert(v@.skip(0) =~= v@);
    assert(texts(out@) =~= Seq::<Seq<char>>::empty());
    while from < n
        invariant
            n == v@.len(),
            from <= n,
            split_lines(v@) == texts(out@) + split_lines(v@.skip(from as int)),
        decreases n - from,
    {
        let ghost rest = v@.skip(from as int);
        let mut to: usize = from;
        while to < n && v[to] != '\n'
            invariant
                n == v@.len(),
                from <= to <= n,
                forall|j: int| from <= j < to ==> v@[j] != '\n',
            decreases n - to,
        {
            to = to + 1;
        }
        proof {
            assert forall|j: int| 0 <= j < to - from implies rest[j] != '\n' by {
                assert(rest[j] == v@[from + j]);
            }
            if to < n {
                assert(rest[to - from] == v@[to as int]);
            }
            lemma_line_end(rest, to - from);
        }
        let ghost before = out@;
        if to == n {
            out.push(from_chars(&v, from, n));
            proof {
                assert(v@.subrange(from as int, n as int) =~= rest);
                assert(v@.skip(n as int) =~= Seq::<char>::empty());
                assert(texts(out@) =~= texts(before).push(rest));
                assert(texts(before) + seq![rest] =~= texts(out@) + split_lines(
                    v@.skip(n as int),
                ));
            }
            from = n;
        } else {
            let end: usize = if to > from && v[to - 1] == '\r' { to - 1 } else { to };
            out.push(from_chars(&v, from, end));
            proof {
                let line = rest.take(to - from);
                assert(line =~= v@.subrange(from as int, to as int));
                assert(without_cr(line) =~= v@.subrange(from as int, end as int));
                assert(texts(out@) =~= texts(before).push(without_cr(line)));
                assert(rest.skip(to - from + 1) =~= v@.skip(to + 1));
                assert(texts(before) + (seq![without_cr(line)] + split_lines(v@.skip(to + 1)))
                    =~= texts(out@) + split_lines(v@.skip(to + 1)));
            }
            from = to + 1;
        }
    }
    assert(v@.skip(n as int) =~= Seq::<char>::empty());
    assert(texts(out@) + Seq::<Seq<char>>::empty() =~= texts(out@));
    out
}

/// The length of the first word of `s`, which starts at its first character.
pub open spec fn word_end(s: Seq<char>) -> nat
    decreases s.len(),
{
    if s.len() == 0 || white(s[0]) {
        0
    } else {
        1 + word_end(s.drop_first())
    }
}

/// The words of `s`: its longest runs of characters that are no white space.
pub open spec fn split_words(s: Seq<char>) -> Seq<Seq<char>>
    decreases s.len(),
    via split_words_decreases
{
    if s.len() == 0 {
        Seq::empty()
    } else if white(s[0]) {
        split_words(s.drop_first())
    } else {
        seq![s.take(word_end(s) as int)] + split_words(s.skip(word_end(s) as int))
    }
}

#[via_fn]
proof fn split_words_decreases(s: Seq<char>) {
    lemma_word_end_bound(s);
}

proof fn lemma_word_end_bound(s: Seq<char>)
    ensures
        word_end(s) <= s.len(),
    decreases s.len(),
{
    if s.len() > 0 && !white(s[0]) {
        lemma_word_end_bound(s.drop_first());
    }
}

pub(crate) proof fn lemma_word_end(s: Seq<char>, n: int)
    requires
        0 <= n <= s.len(),
        forall|j: int| 0 <= j < n ==> !white(s[j]),
        n < s.len() ==> white(s[n]),
    ensures
        word_end(s) == n,
    decreases n,
{
    if n > 0 {
        let t = s.drop_first();
        assert(forall|j: int| 0 <= j < n - 1 ==> #[trigger] t[j] == s[j + 1]);
        lemma_word_end(t, n - 1);
    }
}

/// The words of `s` ([`split_words`]).
pub fn words(s: &str) -> (r: Vec<String>)
    ensures
        texts(r@) == split_words(s@),
{
    let v = to_chars(s);
    let n: usize = v.len();
    let mut out: Vec<String> = Vec::new();
    let mut from: usize = 0;
    assert(v@.skip(0) =~= v@);
    assert(texts(out@) =~= Seq::<Seq<char>>::empty());
    while from < n
        invariant
            n == v@.len(),
            from <= n,
            split_words(v@) == texts(out@) + split_words(v@.skip(from as int)),
        decreases n - from,
    {
        let ghost rest = v@.skip(from as int);
        assert(rest[0] == v@[from as int]);
        if is_white_space(v[from]) {
            assert(rest.drop_first() =~= v@.skip(from + 1));
            from = from + 1;
        } else {
            let mut to: usize = from;
            while to < n && !is_white_space(v[to])
                invariant
                    n == v@.len(),
                    from <= to <= n,
                    forall|j: int| from <= j < to ==> !white(v@[j]),
                decreases n - to,
            {
                to = to + 1;
            }
            proof {
                assert forall|j: int| 0 <= j < to - from implies !white(rest[j]) by {
                    assert(rest[j] == v@[from + j]);
                }
                if to < n {
                    assert(rest[to - from] == v@[to as int]);
                }
                lemma_word_end(rest, to - from);
            }
            let ghost before = out@;
            out.push(from_chars(&v, from, to));
            proof {
                let word = rest.take(to - from);
                assert(word =~= v@.subrange(from as int, to as int));
                assert(texts(out@) =~= texts(before).push(word));
                assert(rest.skip(to - from) =~= v@.skip(to as int));
                assert(texts(before) + (seq![word] + split_words(v@.skip(to as int)))
                    =~= texts(out@) + split_words(v@.skip(to as int)));
            }
            from = to;
        }
    }
    assert(v@.skip(n as int) =~= Seq::<char>::empty());
    assert(texts(out@) + Seq::<Seq<char>>::empty() =~= texts(out@));
    out
}

/// `s` with every occurrence of `p` replaced by `with`, from the left.
pub open spec fn replace_all(s: Seq<char>, p: Seq<char>, with: Seq<char>) -> Seq<char>
    decreases s.len(),
{
    if s.len() == 0 || p.len() == 0 {
        s
    } else if starts(s, p) {
        with + replace_all(s.skip(p.len() as int), p, with)
    } else {
        seq![s[0]] + replace_all(s.drop_first(), p, with)
    }
}

/// `s` with every occurrence of `p` replaced by `with` ([`replace_all`]).
pub fn replaced(s: &str, p: &str, with: &str) -> (r: String)
    requires
        p@.len() > 0,
    ensures
        r@ == replace_all(s@, p@, with@),
{
    let v = to_chars(s);
    let w = to_chars(p);
    let n: usize = v.len();
    let mut out = String::new();
    let mut i: usize = 0;
    assert(v@.skip(0) =~= v@);
    while i < n
        invariant
            n == v@.len(),
            i <= n,
            w@ == p@,
            p@.len() > 0,
            replace_all(v@, p@, with@) =~= out@ + replace_all(v@.skip(i as int), p@, with@),
        decreases n - i,
    {
        let ghost rest = v@.skip(i as int);
        assert(rest[0] == v@[i as int]);
        if chars_stand_at(&v, &w, i) {
            assert(v@.subrange(i as int, i + w@.len()) =~= rest.subrange(0, w@.len() as int));
            assert(rest.skip(p@.len() as int) =~= v@.skip(i + w@.len()));
            out.append(with);
            i = i + w.len();
        } else {
            proof {
                if starts(rest, p@) {
                    assert(v@.subrange(i as int, i + w@.len()) =~= rest.subrange(
                        0,
                        w@.len() as int,
                    ));
                }
            }
            assert(rest.drop_first() =~= v@.skip(i + 1));
            out.push(v[i]);
            i = i + 1;
        }
    }
    assert(v@.skip(n as int) =~= Seq::<char>::empty());
    out
}

/// The texts, one after the other, with `sep` between each two.
pub open spec fn join(parts: Seq<Seq<char>>, sep: Seq<char>) -> Seq<char>
    decreases parts.len(),
{
    if parts.len() == 0 {
        Seq::empty()
    } else if parts.len() == 1 {
        parts[0]
    } else {
        join(parts.drop_last(), sep) + sep + parts.last()
    }
}

/// The texts with `sep` between each two ([`join`]).
pub fn joined(parts: &Vec<String>, sep: &str) -> (r: String)
    ensures
        r@ == join(texts(parts@), sep@),
{
    let mut out = String::new();
    let n: usize = parts.len();
    let mut i: usize = 0;
    while i < n
        invariant
            n == parts@.len(),
            i <= n,
            out@ =~= join(texts(parts@.take(i as int)), sep@),
        decreases n - i,
    {
        if i > 0 {
            out.append(sep);
        }
        out.append(parts[i].as_str());
        proof {
            let now = texts(parts@.take(i + 1));
            assert(now.drop_last() =~= texts(parts@.take(i as int)));
            assert(now.last() == parts@[i as int]@);
        }
        i = i + 1;
    }
    assert(parts@.take(n as int) =~= parts@);
    out
}

/// The number of bytes that `c` takes in UTF-8.
fn utf8_width(c: char) -> (r: usize)
    ensures
        r == encode_scalar(c as u32).len(),
        1 <= r <= 4,
{
    broadcast use vstd::utf8::char_is_scalar;

    let u: u32 = c as u32;
    if u <= 0x7f {
        1
    } else if u <= 0x7ff {
        2
    } else if u <= 0xffff {
        3
    } else {
        4
    }
}

/// The byte offset of the character with index `i` in the UTF-8 text `s`, the
/// text's length in bytes where there is no such character.
pub open spec fn offset_of(s: Seq<char>, i: nat) -> nat {
    if i < s.len() {
        encode_utf8(s.take(i as int)).len()
    } else {
        encode_utf8(s).len()
    }
}

proof fn lemma_encode_push(s: Seq<char>, c: char)
    ensures
        encode_utf8(s.push(c)) == encode_utf8(s) + encode_scalar(c as u32),
    decreases s.len(),
{
    reveal_with_fuel(encode_utf8, 2);
    if s.len() == 0 {
        assert(s.push(c).drop_first() =~= Seq::<char>::empty());
        assert(encode_utf8(s.push(c)) =~= encode_utf8(s) + encode_scalar(c as u32));
    } else {
        lemma_encode_push(s.drop_first(), c);
        assert(s.push(c).drop_first() =~= s.drop_first().push(c));
        assert(encode_utf8(s.push(c)) =~= encode_utf8(s) + encode_scalar(c as u32));
    }
}

proof fn lemma_encode_concat(a: Seq<char>, b: Seq<char>)
    ensures
        encode_utf8(a + b) == encode_utf8(a) + encode_utf8(b),
    decreases a.len(),
{
    if a.len() == 0 {
        assert(a + b =~= b);
        assert(encode_utf8(a) + encode_utf8(b) =~= encode_utf8(b));
    } else {
        lemma_encode_concat(a.drop_first(), b);
        assert((a + b).drop_first() =~= a.drop_first() + b);
        assert(encode_utf8(a + b) =~= encode_utf8(a) + encode_utf8(b));
    }
}

/// A character index as a byte offset ([`offset_of`]).
pub fn byte_offset(s: &str, char_idx: usize) -> (r: usize)
    ensures
        r == offset_of(s@, char_idx as nat),
{
    let v = to_chars(s);
    let total: usize = s.as_bytes().len();
    let n: usize = v.len();
    let mut i: usize = 0;
    let mut at: usize = 0;
    assert(v@.take(0) =~= Seq::<char>::empty());
    while i < n && i < char_idx
        invariant
            n == v@.len(),
            v@ == s@,
            i <= n,
            i <= char_idx,
            total == encode_utf8(s@).len(),
            at == encode_utf8(v@.take(i as int)).len(),
        decreases n - i,
    {
        proof {
            assert(v@.take(i + 1) =~= v@.take(i as int).push(v@[i as int]));
            lemma_encode_push(v@.take(i as int), v@[i as int]);
            assert(v@ =~= v@.take(i + 1) + v@.skip(i + 1));
            lemma_encode_concat(v@.take(i + 1), v@.skip(i + 1));
        }
        at = at + utf8_width(v[i]);
        i = i + 1;
    }
    assert(v@.take(n as int) =~= v@);
    at
}

/// A byte offset made by [`byte_offset`] never falls inside a character, and the
/// bytes before it spell exactly the characters before the index.
pub proof fn law_byte_offset_is_a_boundary(s: Seq<char>, i: nat)
    ensures
        is_char_boundary(encode_utf8(s), offset_of(s, i) as int),
        offset_of(s, i) <= encode_utf8(s).len(),
        i <= s.len() ==> encode_utf8(s).subrange(0, offset_of(s, i) as int) == encode_utf8(
            s.take(i as int),
        ),
{
    let k: int = if i < s.len() { i as int } else { s.len() as int };
    let head = s.take(k);
    let tail = s.skip(k);
    assert(s =~= head + tail);
    assert(s.take(s.len() as int) =~= s);
    lemma_encode_concat(head, tail);
    assert(encode_utf8(s).subrange(0, encode_utf8(head).len() as int) =~= encode_utf8(head));
    lemma_boundary(head, tail);
}

proof fn lemma_boundary(head: Seq<char>, tail: Seq<char>)
    ensures
        is_char_boundary(encode_utf8(head + tail), encode_utf8(head).len() as int),
    decreases head.len(),
{
    let all = head + tail;
    vstd::utf8::encode_utf8_valid_utf8(all);
    if head.len() == 0 {
        vstd::utf8::is_char_boundary_start_end_of_seq(encode_utf8(all));
    } else {
        assert(all.drop_first() =~= head.drop_first() + tail);
        lemma_boundary(head.drop_first(), tail);
        vstd::utf8::encode_utf8_first_scalar(all);
        lemma_encode_concat(head, tail);
        assert(vstd::utf8::pop_first_scalar(encode_utf8(all)) =~= encode_utf8(all.drop_first()));
    }
}

/// Splits `s` before its character with index `i`.
pub fn split_at_char(s: &str, i: usize) -> (r: (&str, &str))
    requires
        i <= s@.len(),
    ensures
        r.0@ == s@.take(i as int),
        r.1@ == s@.skip(i as int),
{
    let at: usize = byte_offset(s, i);
    proof {
        law_byte_offset_is_a_boundary(s@, i as nat);
    }
    let (a, b) = s.split_at(at);
    proof {
        let bytes = encode_utf8(s@);
        let head = s@.take(i as int);
        let tail = s@.skip(i as int);
        assert(s@ =~= head + tail);
        lemma_encode_concat(head, tail);
        assert(bytes.subrange(at as int, bytes.len() as int) =~= encode_utf8(tail));
        vstd::utf8::encode_utf8_decode_utf8(head);
        vstd::utf8::encode_utf8_decode_utf8(tail);
        vstd::utf8::encode_utf8_decode_utf8(a@);
        vstd::utf8::encode_utf8_decode_utf8(b@);
    }
    (a, b)
}

/// `s` with the text `t` put in before its character with index `i`.
pub open spec fn insert_at(s: Seq<char>, i: int, t: Seq<char>) -> Seq<char> {
    s.take(i) + t + s.skip(i)
}

/// Puts the text `t` into `s` ([`insert_at`]).
pub fn inserted(s: &str, i: usize, t: &str) -> (r: String)
    requires
        i <= s@.len(),
    ensures
        r@ == insert_at(s@, i as int, t@),
{
    let (a, b) = split_at_char(s, i);
    cat3(a, t, b)
}

/// Takes the character with index `i` out of `s`.
pub fn removed(s: &str, i: usize) -> (r: String)
    requires
        i < s@.len(),
    ensures
        r@ == s@.remove(i as int),
{
    let n: usize = s.unicode_len();
    assert(i < n);
    let (a, _) = split_at_char(s, i);
    let (_, b) = split_at_char(s, i + 1);
    let r = cat2(a, b);
    assert(r@ =~= s@.remove(i as int));
    r
}

/// Whether `a` stands before `b` in a dictionary that goes by code points.
pub open spec fn before(a: Seq<char>, b: Seq<char>) -> bool
    decreases a.len(),
{
    if b.len() == 0 {
        false
    } else if a.len() == 0 {
        true
    } else if a[0] == b[0] {
        before(a.skip(1), b.skip(1))
    } else {
        (a[0] as int) < (b[0] as int)
    }
}

/// Of two texts that differ, one stands before the other, and never both.
pub proof fn lemma_before_total(a: Seq<char>, b: Seq<char>)
    ensures
        a == b ==> !before(a, b),
        a != b ==> before(a, b) != before(b, a),
    decreases a.len(),
{
    if a.len() > 0 && b.len() > 0 && a[0] == b[0] {
        lemma_before_total(a.skip(1), b.skip(1));
        if a.skip(1) == b.skip(1) {
            assert(a =~= seq![a[0]] + a.skip(1));
            assert(b =~= seq![b[0]] + b.skip(1));
        }
    }
    if a.len() == 0 && b.len() == 0 {
        assert(a =~= b);
    }
}

/// The order of texts is transitive.
pub proof fn lemma_before_chain(a: Seq<char>, b: Seq<char>, c: Seq<char>)
    requires
        before(a, b),
        before(b, c),
    ensures
        before(a, c),
    decreases a.len(),
{
    if a.len() > 0 && a[0] == b[0] && b[0] == c[0] {
        lemma_before_chain(a.skip(1), b.skip(1), c.skip(1));
    }
}

/// Whether the code point of `c` is below that of `d`.
fn below(c: char, d: char) -> (r: bool)
    ensures
        r == ((c as int) < (d as int)),
{
    (c as u32) < (d as u32)
}

/// Whether `a` stands before `b` ([`before`]).
pub fn earlier(a: &str, b: &str) -> (r: bool)
    ensures
        r == before(a@, b@),
{
    let x = to_chars(a);
    let y = to_chars(b);
    let mut i: usize = 0;
    assert(a@.skip(0) =~= a@ && b@.skip(0) =~= b@);
    while i < x.len() && i < y.len() && x[i] == y[i]
        invariant
            x@ == a@,
            y@ == b@,
            i <= x@.len(),
            i <= y@.len(),
            before(a@, b@) == before(a@.skip(i as int), b@.skip(i as int)),
        decreases x.len() - i,
    {
        assert(a@.skip(i as int).skip(1) =~= a@.skip(i + 1));
        assert(b@.skip(i as int).skip(1) =~= b@.skip(i + 1));
        i = i + 1;
    }
    if i >= y.len() {
        false
    } else if i >= x.len() {
        true
    } else {
        assert(a@.skip(i as int)[0] == x@[i as int]);
        assert(b@.skip(i as int)[0] == y@[i as int]);
        below(x[i], y[i])
    }
}

/// The parts of `s` between the characters `c`: one more than there are of them.
pub open spec fn pieces(s: Seq<char>, c: char) -> Seq<Seq<char>>
    decreases s.len(),
{
    if s.len() == 0 {
        seq![Seq::empty()]
    } else {
        let p = pieces(s.drop_last(), c);
        if s.last() == c {
            p.push(Seq::empty())
        } else {
            p.drop_last().push(p.last().push(s.last()))
        }
    }
}

/// The parts of `s` between the characters `c` ([`pieces`]).
pub fn split_char(s: &str, c: char) -> (r: Vec<String>)
    ensures
        texts(r@) == pieces(s@, c),
        r@.len() > 0,
{
    let v = to_chars(s);
    let mut out: Vec<String> = Vec::new();
    let mut part = String::new();
    let mut i: usize = 0;
    assert(v@.take(0) =~= Seq::<char>::empty());
    assert(part@ =~= Seq::<char>::empty());
    assert(texts(out@).push(part@) =~= seq![Seq::<char>::empty()]);
    while i < v.len()
        invariant
            i <= v@.len(),
            texts(out@).push(part@) == pieces(v@.take(i as int), c),
        decreases v.len() - i,
    {
        let ghost had = pieces(v@.take(i as int), c);
        let ghost before_out = out@;
        proof {
            assert(v@.take(i + 1).drop_last() =~= v@.take(i as int));
            assert(v@.take(i + 1).last() == v@[i as int]);
            assert(had.last() == part@);
            assert(had.drop_last() =~= texts(out@));
        }
        if v[i] == c {
            out.push(part);
            part = String::new();
            assert(texts(out@) =~= had);
            assert(part@ =~= Seq::<char>::empty());
        } else {
            part.push(v[i]);
        }
        i = i + 1;
    }
    assert(v@.take(v@.len() as int) =~= v@);
    let ghost had = out@;
    out.push(part);
    assert(texts(out@) =~= texts(had).push(part@));
    out
}

} // verus!
