//! The Cosmos tab's two sources: the app list of `kannaka constellation` and the
//! now-playing lines of `kannaka radio`.

use vstd::prelude::*;
use crate::action::{actions, emit, Action, ActionModel, Answer};
use crate::buffer::first_of;
use crate::clock::{elapsed, since};
use crate::text::{
    chars_rfind, from_chars, is_white_space, last_index, lines, opt, split_lines, texts, to_chars,
    trim, trimmed, white,
};

verus! {

/// One app of the constellation.
pub struct CosmosApp {
    pub name: String,
    pub up: bool,
    pub url: String,
}

/// What a [`CosmosApp`] says.
pub ghost struct CosmosAppModel {
    pub name: Seq<char>,
    pub up: bool,
    pub url: Seq<char>,
}

impl View for CosmosApp {
    type V = CosmosAppModel;

    open spec fn view(&self) -> CosmosAppModel {
        CosmosAppModel { name: self.name@, up: self.up, url: self.url@ }
    }
}

/// The glyph that leads the row of an app that is up.
pub const UP_MARK: char = '\u{2713}';

/// The glyph that leads the row of an app that is down.
pub const DOWN_MARK: char = '\u{2717}';

/// The index after the last white space of `s`, 0 where there is none.
pub open spec fn after_last_white(s: Seq<char>) -> nat
    decreases s.len(),
{
    if s.len() == 0 {
        0
    } else if white(s.last()) {
        s.len()
    } else {
        after_last_white(s.drop_last())
    }
}

/// The name and the URL in the row `rest`: the URL is the word that holds the last
/// `://`, with what follows it; the name is what stands before.
pub open spec fn name_and_url(rest: Seq<char>) -> (Seq<char>, Seq<char>) {
    match last_index(rest, "://"@) {
        Some(pos) => {
            let k = after_last_white(rest.take(pos)) as int;
            (trim(rest.take(k)), trim(rest.skip(k)))
        },
        None => (rest, Seq::empty()),
    }
}

/// The app that a line of `kannaka constellation` reports: a status glyph, then a
/// name, then perhaps a URL. Every other line reports none.
pub open spec fn app_in_line(line: Seq<char>) -> Option<CosmosAppModel> {
    let t = trim(line);
    if t.len() == 0 || (t[0] != UP_MARK && t[0] != DOWN_MARK) {
        None
    } else {
        let rest = trim(t.drop_first());
        if rest.len() == 0 {
            None
        } else {
            let (name, url) = name_and_url(rest);
            Some(CosmosAppModel { name, up: t[0] == UP_MARK, url })
        }
    }
}

/// What an optional app says.
pub open spec fn app_model(a: Option<CosmosApp>) -> Option<CosmosAppModel> {
    match a {
        Some(a) => Some(a@),
        None => None,
    }
}

proof fn lemma_after_last_white(s: Seq<char>, k: int)
    requires
        0 <= k <= s.len(),
        forall|j: int| k <= j < s.len() ==> !white(s[j]),
        k > 0 ==> white(s[k - 1]),
    ensures
        after_last_white(s) == k,
    decreases s.len(),
{
    if s.len() > k {
        let t = s.drop_last();
        assert(forall|j: int| k <= j < t.len() ==> #[trigger] t[j] == s[j]);
        lemma_after_last_white(t, k);
    }
}

/// Reads one line of `kannaka constellation` ([`app_in_line`]).
pub fn parse_constellation_line(line: &str) -> (r: Option<CosmosApp>)
    ensures
        app_model(r) == app_in_line(line@),
{
    let t = to_chars(trimmed(line).as_str());
    if t.len() == 0 {
        return None;
    }
    let up: bool = t[0] == UP_MARK;
    if !up && t[0] != DOWN_MARK {
        return None;
    }
    assert(t@.subrange(1, t@.len() as int) =~= t@.drop_first());
    let rest = trimmed(from_chars(&t, 1, t.len()).as_str());
    if rest.as_str().is_empty() {
        return None;
    }
    let v = to_chars(rest.as_str());
    let scheme = to_chars("://");
    match chars_rfind(&v, &scheme) {
        Some(pos) => {
            let mut k: usize = pos;
            while k > 0 && !is_white_space(v[k - 1])
                invariant
                    k <= pos <= v@.len(),
                    forall|j: int| k <= j < pos ==> !white(v@[j]),
                decreases k,
            {
                k = k - 1;
            }
            proof {
                lemma_after_last_white(v@.take(pos as int), k as int);
                assert(v@.subrange(0, k as int) =~= v@.take(k as int));
                assert(v@.subrange(k as int, v@.len() as int) =~= v@.skip(k as int));
            }
            let name = trimmed(from_chars(&v, 0, k).as_str());
            let url = trimmed(from_chars(&v, k, v.len()).as_str());
            Some(CosmosApp { name, up, url })
        },
        None => Some(CosmosApp { name: rest, up, url: String::new() }),
    }
}

/// What each of the apps says.
pub open spec fn app_models(v: Seq<CosmosApp>) -> Seq<CosmosAppModel> {
    v.map_values(|a: CosmosApp| a@)
}

/// The apps that the lines report, in order.
pub open spec fn apps_in_lines(ls: Seq<Seq<char>>) -> Seq<CosmosAppModel>
    decreases ls.len(),
{
    if ls.len() == 0 {
        Seq::empty()
    } else {
        match app_in_line(ls.last()) {
            Some(a) => apps_in_lines(ls.drop_last()).push(a),
            None => apps_in_lines(ls.drop_last()),
        }
    }
}

/// The apps that the output of `kannaka constellation` reports.
pub fn parse_constellation(stdout: &str) -> (r: Vec<CosmosApp>)
    ensures
        app_models(r@) == apps_in_lines(split_lines(stdout@)),
{
    let ls = lines(stdout);
    let n: usize = ls.len();
    let mut out: Vec<CosmosApp> = Vec::new();
    let mut i: usize = 0;
    assert(texts(ls@).take(0) =~= Seq::empty());
    assert(app_models(out@) =~= Seq::empty());
    while i < n
        invariant
            n == ls@.len(),
            i <= n,
            app_models(out@) == apps_in_lines(texts(ls@).take(i as int)),
        decreases n - i,
    {
        proof {
            let now = texts(ls@).take(i + 1);
            assert(now.drop_last() =~= texts(ls@).take(i as int));
            assert(now.last() == ls@[i as int]@);
        }
        let ghost before = out@;
        if let Some(a) = parse_constellation_line(ls[i].as_str()) {
            out.push(a);
            assert(app_models(out@) =~= app_models(before).push(a@));
        }
        i = i + 1;
    }
    assert(texts(ls@).take(n as int) =~= texts(ls@));
    out
}

/// The most lines that the radio strip shows.
pub const RADIO_LINES_CAP: usize = 4;

/// The lines that are not blank, each without the white space at its ends.
pub open spec fn full_lines(ls: Seq<Seq<char>>) -> Seq<Seq<char>>
    decreases ls.len(),
{
    if ls.len() == 0 {
        Seq::empty()
    } else if trim(ls[0]).len() == 0 {
        full_lines(ls.drop_first())
    } else {
        seq![trim(ls[0])] + full_lines(ls.drop_first())
    }
}

/// The display lines of `kannaka radio`: the first four lines of its output that
/// are not blank, trimmed.
pub fn clean_radio_lines(stdout: &str) -> (r: Vec<String>)
    ensures
        texts(r@) == first_of(full_lines(split_lines(stdout@)), RADIO_LINES_CAP as nat),
{
    let ls = lines(stdout);
    let n: usize = ls.len();
    let mut out: Vec<String> = Vec::new();
    let mut i: usize = 0;
    let ghost all = full_lines(texts(ls@));
    assert(texts(ls@).skip(0) =~= texts(ls@));
    assert(texts(out@) =~= Seq::empty());
    while i < n && out.len() < RADIO_LINES_CAP
        invariant
            n == ls@.len(),
            i <= n,
            out@.len() <= RADIO_LINES_CAP,
            all =~= texts(out@) + full_lines(texts(ls@).skip(i as int)),
        decreases n - i,
    {
        let ghost rest = texts(ls@).skip(i as int);
        assert(rest[0] == ls@[i as int]@);
        assert(rest.drop_first() =~= texts(ls@).skip(i + 1));
        let t = trimmed(ls[i].as_str());
        if !t.as_str().is_empty() {
            let ghost before = out@;
            out.push(t);
            assert(texts(out@) =~= texts(before).push(t@));
        }
        i = i + 1;
    }
    proof {
        if i >= n {
            assert(texts(ls@).skip(n as int) =~= Seq::empty());
        }
        assert(texts(out@) =~= first_of(all, RADIO_LINES_CAP as nat));
    }
    out
}

/// What a poll of the constellation and the radio found.
pub enum CosmosReport {
    Found { apps: Vec<CosmosApp>, radio: Vec<String> },
    Nothing(String),
}

/// What a [`CosmosReport`] says.
pub ghost enum CosmosReportModel {
    Found { apps: Seq<CosmosAppModel>, radio: Seq<Seq<char>> },
    Nothing(Seq<char>),
}

impl View for CosmosReport {
    type V = CosmosReportModel;

    open spec fn view(&self) -> CosmosReportModel {
        match *self {
            CosmosReport::Found { apps, radio } => CosmosReportModel::Found {
                apps: app_models(apps@),
                radio: texts(radio@),
            },
            CosmosReport::Nothing(e) => CosmosReportModel::Nothing(e@),
        }
    }
}

/// The report on the outputs of the two commands, none for one that failed:
/// either source is enough, and only if both are empty is there nothing to show.
pub open spec fn cosmos_report(
    constellation: Option<Seq<char>>,
    radio: Option<Seq<char>>,
) -> CosmosReportModel {
    let apps = match constellation {
        Some(s) => apps_in_lines(split_lines(s)),
        None => Seq::empty(),
    };
    let lines = match radio {
        Some(s) => first_of(full_lines(split_lines(s)), RADIO_LINES_CAP as nat),
        None => Seq::empty(),
    };
    if apps.len() == 0 && lines.len() == 0 {
        CosmosReportModel::Nothing(
            "could not reach the constellation (constellation/radio returned nothing)"@,
        )
    } else {
        CosmosReportModel::Found { apps, radio: lines }
    }
}

/// Reads the outputs of `kannaka constellation` and `kannaka radio`
/// ([`cosmos_report`]).
pub fn read_cosmos(constellation: Option<String>, radio: Option<String>) -> (r: CosmosReport)
    ensures
        r@ == cosmos_report(opt(constellation), opt(radio)),
{
    let apps: Vec<CosmosApp> = match &constellation {
        Some(s) => parse_constellation(s.as_str()),
        None => Vec::new(),
    };
    let ls: Vec<String> = match &radio {
        Some(s) => clean_radio_lines(s.as_str()),
        None => Vec::new(),
    };
    proof {
        if constellation is None {
            assert(app_models(apps@) =~= Seq::empty());
        }
        if radio is None {
            assert(texts(ls@) =~= Seq::empty());
        }
    }
    if apps.len() == 0 && ls.len() == 0 {
        CosmosReport::Nothing(
            "could not reach the constellation (constellation/radio returned nothing)".to_owned(),
        )
    } else {
        CosmosReport::Found { apps, radio: ls }
    }
}

/// The least time between two polls that the tab makes by itself, in nanoseconds.
pub const COSMOS_POLL_INTERVAL: u64 = 20_000_000_000;

/// What is known of the constellation and the radio.
pub struct Cosmos {
    pub apps: Vec<CosmosApp>,
    pub radio: Vec<String>,
    /// Whether a poll is under way.
    pub pending: bool,
    /// Why the last poll found nothing.
    pub error: Option<String>,
    /// When the last poll was started, in nanoseconds.
    pub last_load: Option<u64>,
}

/// What a [`Cosmos`] says.
#[verifier::ext_equal]
pub ghost struct CosmosModel {
    pub apps: Seq<CosmosAppModel>,
    pub radio: Seq<Seq<char>>,
    pub pending: bool,
    pub error: Option<Seq<char>>,
    pub last_load: Option<u64>,
}

impl View for Cosmos {
    type V = CosmosModel;

    open spec fn view(&self) -> CosmosModel {
        CosmosModel {
            apps: app_models(self.apps@),
            radio: texts(self.radio@),
            pending: self.pending,
            error: opt(self.error),
            last_load: self.last_load,
        }
    }
}

impl CosmosModel {
    /// Before the first poll.
    pub open spec fn initial() -> CosmosModel {
        CosmosModel {
            apps: Seq::empty(),
            radio: Seq::empty(),
            pending: false,
            error: None,
            last_load: None,
        }
    }

    /// After a poll was asked for.
    pub open spec fn loading(self, now: u64) -> CosmosModel {
        if self.pending {
            self
        } else {
            CosmosModel { pending: true, last_load: Some(now), ..self }
        }
    }

    /// What a poll asks for, where none is under way.
    pub open spec fn load_actions(self) -> Seq<ActionModel> {
        if self.pending {
            Seq::empty()
        } else {
            seq![ActionModel::LoadCosmos]
        }
    }

    /// Whether the last poll is long enough ago for another.
    pub open spec fn due(self, now: u64) -> bool {
        match self.last_load {
            Some(t) => since(now, t) > COSMOS_POLL_INTERVAL,
            None => true,
        }
    }

    /// After a poll was asked about. One that found nothing leaves what was known.
    pub open spec fn polled(self, a: Answer<CosmosReport>) -> CosmosModel {
        match a {
            Answer::Waiting => self,
            Answer::Lost => CosmosModel { pending: false, ..self },
            Answer::Got(r) => match r@ {
                CosmosReportModel::Found { apps, radio } => CosmosModel {
                    apps,
                    radio,
                    error: None,
                    pending: false,
                    ..self
                },
                CosmosReportModel::Nothing(e) => CosmosModel {
                    error: Some(e),
                    pending: false,
                    ..self
                },
            },
        }
    }
}

impl Cosmos {
    /// Nothing known yet.
    pub fn new() -> (r: Cosmos)
        ensures
            r@ == CosmosModel::initial(),
    {
        let r = Cosmos {
            apps: Vec::new(),
            radio: Vec::new(),
            pending: false,
            error: None,
            last_load: None,
        };
        assert(r@ =~= CosmosModel::initial());
        r
    }

    /// Asks for a poll, where none is under way.
    pub fn load_cosmos(&mut self, now: u64, out: &mut Vec<Action>)
        ensures
            final(self)@ == old(self)@.loading(now),
            actions(final(out)@) == actions(old(out)@) + old(self)@.load_actions(),
    {
        if !self.pending {
            self.last_load = Some(now);
            self.pending = true;
            emit(out, Action::LoadCosmos);
        }
        assert(actions(out@) =~= actions(old(out)@) + old(self)@.load_actions());
    }

    /// Whether the last poll is long enough ago for another.
    pub fn is_due(&self, now: u64) -> (r: bool)
        ensures
            r == self@.due(now),
    {
        match self.last_load {
            Some(t) => elapsed(now, t) > COSMOS_POLL_INTERVAL,
            None => true,
        }
    }

    /// Takes in what a poll found, where it has ended.
    pub fn poll_cosmos(&mut self, a: Answer<CosmosReport>)
        ensures
            final(self)@ == old(self)@.polled(a),
    {
        match a {
            Answer::Waiting => {},
            Answer::Lost => {
                self.pending = false;
            },
            Answer::Got(CosmosReport::Found { apps, radio }) => {
                self.apps = apps;
                self.radio = radio;
                self.error = None;
                self.pending = false;
            },
            Answer::Got(CosmosReport::Nothing(e)) => {
                self.error = Some(e);
                self.pending = false;
            },
        }
    }
}

/// One source is enough: whenever either of the two commands gave something to
/// show, the report shows it.
pub proof fn law_one_source_is_enough(constellation: Option<Seq<char>>, radio: Option<Seq<char>>)
    ensures
        constellation is Some && apps_in_lines(split_lines(constellation->Some_0)).len() > 0
            ==> cosmos_report(constellation, radio) is Found,
        radio is Some && full_lines(split_lines(radio->Some_0)).len() > 0 ==> cosmos_report(
            constellation,
            radio,
        ) is Found,
        cosmos_report(constellation, radio) is Found ==> cosmos_report(
            constellation,
            radio,
        )->Found_radio.len() <= RADIO_LINES_CAP,
{
}

} // verus!
