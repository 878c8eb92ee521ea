//! What holds of the constellation: how its apps and the radio are read, and when they are
//! asked for.

use vstd::prelude::*;
use crate::action::{ActionModel, Answer};
use crate::cosmos::{
    after_last_white, app_in_line, apps_in_lines, cosmos_report, full_lines, CosmosAppModel,
    CosmosModel, CosmosReport,
};
use crate::laws::words::{all_white, is_word, law_trim_undoes_padding, neat};
use crate::text::{last_below, split_lines, stands_at, trim, white};

verus! {

proof fn lemma_last_below(s: Seq<char>, p: Seq<char>, n: int, k: int)
    requires
        0 <= k < n,
        stands_at(s, p, k),
        forall|j: int| k < j < n ==> !stands_at(s, p, j),
    ensures
        last_below(s, p, n) == Some(k),
    decreases n,
{
    if n - 1 != k {
        lemma_last_below(s, p, n - 1, k);
    }
}

proof fn lemma_nowhere_below(s: Seq<char>, p: Seq<char>, n: int)
    requires
        forall|j: int| 0 <= j < n ==> !stands_at(s, p, j),
    ensures
        last_below(s, p, n) is None,
    decreases n,
{
    if n > 0 {
        lemma_nowhere_below(s, p, n - 1);
    }
}

proof fn lemma_after_last_white(s: Seq<char>, k: int)
    requires
        0 < k <= s.len(),
        white(s[k - 1]),
        forall|j: int| k <= j < s.len() ==> !white(#[trigger] s[j]),
    ensures
        after_last_white(s) == k,
    decreases s.len(),
{
    if s.len() > k {
        assert(!white(s[s.len() - 1]));
        assert forall|j: int| k <= j < s.drop_last().len() implies !white(
            #[trigger] s.drop_last()[j],
        ) by {
            assert(s.drop_last()[j] == s[j]);
        }
        lemma_after_last_white(s.drop_last(), k);
    }
}

/// Whether `url` is an address: one word with `://` in it, last at `k`.
pub open spec fn is_address(url: Seq<char>, k: int) -> bool {
    &&& is_word(url)
    &&& stands_at(url, "://"@, k)
    &&& forall|j: int| k < j ==> !#[trigger] stands_at(url, "://"@, j)
}

/// A line with a mark, a name and an address is an app of that name at that address, up or
/// down as its mark says, whatever white space stands round it.
pub proof fn law_app_is_read_off_its_line(
    a: Seq<char>,
    mark: char,
    name: Seq<char>,
    url: Seq<char>,
    k: int,
    b: Seq<char>,
)
    requires
        all_white(a),
        all_white(b),
        mark == '\u{2713}' || mark == '\u{2717}',
        neat(name),
        name.len() > 0,
        is_address(url, k),
    ensures
        app_in_line(a + (seq![mark, ' '] + name + seq![' '] + url) + b) == Some(
            CosmosAppModel { name, up: mark == '\u{2713}', url },
        ),
{
    let rest = name + seq![' '] + url;
    let t = seq![mark, ' '] + name + seq![' '] + url;
    let p = "://"@;
    reveal_strlit("://");
    assert(t[0] == mark);
    assert(t.last() == url.last());
    law_trim_undoes_padding(a, t, b);
    assert(rest.last() == url.last());
    assert(rest[0] == name[0]);
    law_trim_undoes_padding(seq![' '], rest, Seq::empty());
    assert(t.drop_first() =~= seq![' '] + rest + Seq::<char>::empty());
    let o = name.len() + 1;
    assert(rest.subrange(o + k, o + k + p.len()) =~= url.subrange(k, k + p.len()));
    assert(stands_at(rest, p, o + k));
    assert forall|j: int| o + k < j < rest.len() + 1 implies !stands_at(rest, p, j) by {
        if stands_at(rest, p, j) {
            assert(url.subrange(j - o, j - o + p.len()) =~= rest.subrange(j, j + p.len()));
            assert(stands_at(url, p, j - o));
        }
    }
    lemma_last_below(rest, p, rest.len() as int + 1, o + k);
    let front = rest.take(o + k);
    assert forall|j: int| o <= j < front.len() implies !white(#[trigger] front[j]) by {
        assert(front[j] == url[j - o]);
    }
    assert(front[o - 1] == ' ');
    lemma_after_last_white(front, o as int);
    assert(rest.take(o as int) =~= Seq::<char>::empty() + name + seq![' ']);
    law_trim_undoes_padding(Seq::empty(), name, seq![' ']);
    assert(rest.skip(o as int) =~= url);
    law_trim_undoes_padding(Seq::empty(), url, Seq::empty());
}

/// A line with a mark and a name only is an app of that name, without an address.
pub proof fn law_app_without_an_address(a: Seq<char>, mark: char, name: Seq<char>, b: Seq<char>)
    requires
        all_white(a),
        all_white(b),
        mark == '\u{2713}' || mark == '\u{2717}',
        neat(name),
        name.len() > 0,
        forall|j: int| !#[trigger] stands_at(name, "://"@, j),
    ensures
        app_in_line(a + (seq![mark, ' '] + name) + b) == Some(
            CosmosAppModel { name, up: mark == '\u{2713}', url: Seq::empty() },
        ),
{
    let t = seq![mark, ' '] + name;
    assert(t[0] == mark);
    assert(t.last() == name.last());
    law_trim_undoes_padding(a, t, b);
    law_trim_undoes_padding(seq![' '], name, Seq::empty());
    assert(t.drop_first() =~= seq![' '] + name + Seq::<char>::empty());
    lemma_nowhere_below(name, "://"@, name.len() as int + 1);
}

/// A line that does not begin with a mark is no app, nor is a mark alone.
pub proof fn law_other_lines_are_no_apps(a: Seq<char>, s: Seq<char>, b: Seq<char>)
    requires
        all_white(a),
        all_white(b),
        neat(s),
        s.len() > 0 ==> (s[0] != '\u{2713}' && s[0] != '\u{2717}') || s.len() == 1,
    ensures
        app_in_line(a + s + b) is None,
{
    law_trim_undoes_padding(a, s, b);
    if s.len() == 1 {
        assert(s.drop_first() =~= Seq::empty());
        law_trim_undoes_padding(Seq::empty(), Seq::empty(), Seq::empty());
        assert(Seq::<char>::empty() + Seq::<char>::empty() + Seq::<char>::empty() =~= Seq::empty());
    }
}

/// The apps stand in the order of their lines; lines that are none are left out.
pub proof fn law_apps_keep_their_order(ls: Seq<Seq<char>>, l: Seq<char>)
    ensures
        apps_in_lines(Seq::empty()).len() == 0,
        app_in_line(l) is Some ==> apps_in_lines(ls.push(l)) == apps_in_lines(ls).push(
            app_in_line(l)->Some_0,
        ),
        app_in_line(l) is None ==> apps_in_lines(ls.push(l)) == apps_in_lines(ls),
{
    assert(ls.push(l).drop_last() =~= ls);
}

/// The lines of the radio stand in their order, without white space round them; blank ones
/// are left out.
pub proof fn law_full_lines_keep_their_order(l: Seq<char>, ls: Seq<Seq<char>>)
    ensures
        full_lines(Seq::empty()).len() == 0,
        trim(l).len() > 0 ==> full_lines(seq![l] + ls) == seq![trim(l)] + full_lines(ls),
        trim(l).len() == 0 ==> full_lines(seq![l] + ls) == full_lines(ls),
{
    assert((seq![l] + ls).drop_first() =~= ls);
}

/// A report has the apps of the constellation and the first four full lines of the radio;
/// only where both give nothing it says that nothing was reached.
pub proof fn law_report_has_both_sources(c: Seq<char>, r: Seq<char>)
    ensures
        ({
            let apps = apps_in_lines(split_lines(c));
            let lines = full_lines(split_lines(r));
            let both = cosmos_report(Some(c), Some(r));
            &&& (both is Nothing <==> apps.len() == 0 && lines.len() == 0)
            &&& both is Found ==> both->apps == apps && both->radio == (if lines.len() <= 4 {
                lines
            } else {
                lines.take(4)
            })
            &&& both is Nothing ==> both->Nothing_0
                == "could not reach the constellation (constellation/radio returned nothing)"@
            &&& cosmos_report(Some(c), None) is Found <==> apps.len() > 0
            &&& apps.len() > 0 ==> cosmos_report(Some(c), None)->apps == apps && cosmos_report(
                Some(c),
                None,
            )->radio.len() == 0
            &&& cosmos_report(None, Some(r)) is Found <==> lines.len() > 0
            &&& lines.len() > 0 ==> cosmos_report(None, Some(r))->apps.len() == 0
            &&& cosmos_report(None, None) is Nothing
        }),
{
}

/// The constellation is asked for once at a time, and again when its last answer is older
/// than twenty seconds.
pub proof fn law_constellation_is_asked_for_once(c: CosmosModel, then: u64, now: u64)
    requires
        then <= now,
    ensures
        !c.pending ==> c.load_actions() == seq![ActionModel::LoadCosmos] && c.loading(now) == (
        CosmosModel { pending: true, last_load: Some(now), ..c }),
        c.pending ==> c.load_actions().len() == 0 && c.loading(now) == c,
        c.last_load is None ==> c.due(now),
        c.last_load == Some(then) ==> (c.due(now) <==> now - then > 20 * 1_000_000_000),
{
}

/// An answer is shown in place of what was shown; where nothing was reached, what was shown
/// stays and the error is told.
pub proof fn law_constellation_is_shown(c: CosmosModel, r: CosmosReport)
    ensures
        r@ is Found ==> c.polled(Answer::Got(r)) == (CosmosModel {
            apps: r@->apps,
            radio: r@->radio,
            error: None,
            pending: false,
            ..c
        }),
        r@ is Nothing ==> c.polled(Answer::Got(r)) == (CosmosModel {
            error: Some(r@->Nothing_0),
            pending: false,
            ..c
        }),
        c.polled(Answer::Waiting) == c,
        c.polled(Answer::Lost) == (CosmosModel { pending: false, ..c }),
{
}

} // verus!
