//! TOML documents as plain values.

use vstd::prelude::*;
use crate::text::same;

verus! {

/// Declares `toml::Value`, a value of a parsed TOML document.
#[verifier::external_type_specification]
#[verifier::external_body]
pub struct ExTomlValue(toml::Value);

/// What is read of a TOML document: texts and tables.
pub enum Setting {
    Text(String),
    /// The entries of a table; of two with one key the later one counts.
    Table(Vec<(String, Setting)>),
    /// A value of another kind.
    Other,
}

/// What a [`Setting`] holds.
#[verifier::ext_equal]
pub ghost enum SettingTree {
    Text(Seq<char>),
    Table(Map<Seq<char>, SettingTree>),
    Other,
}

/// One level of a `toml::Value`.
pub enum Entry {
    Text(String),
    Table(Vec<(String, toml::Value)>),
    Other,
}

/// What a `toml::Value` holds.
pub uninterp spec fn toml_tree(v: toml::Value) -> SettingTree;

/// What the entries of a table hold: of two with one key the later one counts.
pub open spec fn toml_entries(m: Seq<(String, toml::Value)>) -> Map<Seq<char>, SettingTree>
    decreases m.len(),
{
    if m.len() == 0 {
        Map::empty()
    } else {
        toml_entries(m.drop_last()).insert(m.last().0@, toml_tree(m.last().1))
    }
}

/// What one level of a value holds.
pub open spec fn entry_tree(e: Entry) -> SettingTree {
    match e {
        Entry::Text(s) => SettingTree::Text(s@),
        Entry::Table(m) => SettingTree::Table(toml_entries(m@)),
        Entry::Other => SettingTree::Other,
    }
}

/// Whether no two entries have one key.
pub open spec fn own_keys(m: Seq<(String, toml::Value)>) -> bool {
    forall|i: int, j: int| 0 <= i < j < m.len() ==> m[i].0@ != m[j].0@
}

/// Takes the outermost level off a value.
///
/// Trusted: a `toml::Value` is one of seven variants. A string and a table move their
/// contents into [`Entry`], the others become [`Entry::Other`]. No key of a table
/// comes twice.
#[verifier::external_body]
fn open_entry(v: toml::Value) -> (r: Entry)
    ensures
        entry_tree(r) == toml_tree(v),
        r is Table ==> own_keys(r->Table_0@),
{
    match v {
        toml::Value::String(s) => Entry::Text(s),
        toml::Value::Integer(_) => Entry::Other,
        toml::Value::Float(_) => Entry::Other,
        toml::Value::Boolean(_) => Entry::Other,
        toml::Value::Datetime(_) => Entry::Other,
        toml::Value::Array(_) => Entry::Other,
        toml::Value::Table(m) => Entry::Table(m.into_iter().collect()),
    }
}

/// What `toml` makes of a text: the entries of the document that it spells, none where
/// it spells none.
pub uninterp spec fn toml_read(text: Seq<char>) -> Option<Map<Seq<char>, SettingTree>>;

/// Reads a document.
///
/// Trusted: parsing a text to a `toml::Table` gives the same entries each time, or
/// fails each time.
#[verifier::external_body]
fn read_table(text: &str) -> (r: Option<Vec<(String, toml::Value)>>)
    ensures
        match r {
            Some(m) => toml_read(text@) == Some(toml_entries(m@)) && own_keys(m@),
            None => toml_read(text@) is None,
        },
{
    text.parse::<toml::Table>().ok().map(|t| t.into_iter().collect())
}

impl Setting {
    /// What the setting holds.
    pub open spec fn tree(self) -> SettingTree
        decreases self,
    {
        match self {
            Setting::Text(s) => SettingTree::Text(s@),
            Setting::Table(m) => SettingTree::Table(setting_trees(m@)),
            Setting::Other => SettingTree::Other,
        }
    }
}

/// What a table with the entries `m` holds.
pub open spec fn setting_trees(m: Seq<(String, Setting)>) -> Map<Seq<char>, SettingTree>
    decreases m,
{
    if m.len() == 0 {
        Map::empty()
    } else {
        setting_trees(m.drop_last()).insert(m.last().0@, m.last().1.tree())
    }
}

proof fn lemma_entry_below(m: Seq<(String, toml::Value)>, i: int)
    requires
        own_keys(m),
        0 <= i < m.len(),
    ensures
        toml_entries(m).dom().finite(),
        toml_entries(m).dom().contains(m[i].0@),
        toml_entries(m)[m[i].0@] == toml_tree(m[i].1),
        decreases_to!(toml_entries(m) => toml_tree(m[i].1)),
    decreases m.len(),
{
    lemma_entries_finite(m);
    if i < m.len() - 1 {
        let t = m.drop_last();
        assert(t[i] == m[i]);
        assert forall|a: int, b: int| 0 <= a < b < t.len() implies t[a].0@ != t[b].0@ by {
            assert(t[a] == m[a] && t[b] == m[b]);
        }
        lemma_entry_below(t, i);
        assert(m[i].0@ != m[m.len() - 1].0@);
    }
    vstd::map::axiom_map_index_decreases_finite(toml_entries(m), m[i].0@);
}

proof fn lemma_entries_finite(m: Seq<(String, toml::Value)>)
    ensures
        toml_entries(m).dom().finite(),
    decreases m.len(),
{
    if m.len() > 0 {
        lemma_entries_finite(m.drop_last());
    }
}

/// Makes settings of the entries of a table.
fn settings_of(m: Vec<(String, toml::Value)>) -> (r: Vec<(String, Setting)>)
    requires
        own_keys(m@),
    ensures
        setting_trees(r@) == toml_entries(m@),
    decreases toml_entries(m@),
{
    let ghost all = m@;
    let mut out: Vec<(String, Setting)> = Vec::new();
    for item in it: m
        invariant
            it.seq() == all,
            all == m@,
            own_keys(all),
            out@.len() == it.index(),
            setting_trees(out@) == toml_entries(all.take(it.index())),
    {
        let (key, value) = item;
        proof {
            lemma_entry_below(all, it.index());
        }
        let ghost before = out@;
        out.push((key, setting_of(value)));
        proof {
            assert(out@.drop_last() =~= before);
            assert(all.take(it.index() + 1).drop_last() =~= all.take(it.index()));
        }
    }
    assert(all.take(all.len() as int) =~= all);
    out
}

/// Makes a setting of a value.
fn setting_of(v: toml::Value) -> (r: Setting)
    ensures
        r.tree() == toml_tree(v),
    decreases toml_tree(v),
{
    let ghost t = toml_tree(v);
    match open_entry(v) {
        Entry::Text(s) => Setting::Text(s),
        Entry::Table(m) => {
            assert(decreases_to!(t => t->Table_0));
            Setting::Table(settings_of(m))
        },
        Entry::Other => Setting::Other,
    }
}

/// What is read of a TOML document ([`toml_read`]): a table.
pub fn parse_settings(text: &str) -> (r: Option<Setting>)
    ensures
        match r {
            Some(s) => toml_read(text@) is Some && s.tree() == SettingTree::Table(
                toml_read(text@)->Some_0,
            ),
            None => toml_read(text@) is None,
        },
{
    match read_table(text) {
        Some(m) => Some(Setting::Table(settings_of(m))),
        None => None,
    }
}

/// What `t` holds under `key`, where it is a table with such an entry.
pub open spec fn entry(t: SettingTree, key: Seq<char>) -> Option<SettingTree> {
    match t {
        SettingTree::Table(m) => if m.dom().contains(key) {
            Some(m[key])
        } else {
            None
        },
        _ => None,
    }
}

/// The text that `t` is, where it is one.
pub open spec fn entry_text(t: Option<SettingTree>) -> Option<Seq<char>> {
    match t {
        Some(SettingTree::Text(s)) => Some(s),
        _ => None,
    }
}

impl Setting {
    /// The entry under `key` ([`entry`]).
    pub fn get(&self, key: &str) -> (r: Option<&Setting>)
        ensures
            match r {
                Some(s) => entry(self.tree(), key@) == Some(s.tree()),
                None => entry(self.tree(), key@) is None,
            },
    {
        match self {
            Setting::Table(m) => {
                let mut n: usize = m.len();
                assert(m@.take(n as int) =~= m@);
                while n > 0
                    invariant
                        n <= m@.len(),
                        *self == Setting::Table(*m),
                        entry(self.tree(), key@) == entry(
                            SettingTree::Table(setting_trees(m@.take(n as int))),
                            key@,
                        ),
                    decreases n,
                {
                    proof {
                        let now = m@.take(n as int);
                        assert(now.drop_last() =~= m@.take(n - 1));
                        assert(now.last() == m@[n - 1]);
                    }
                    if same(m[n - 1].0.as_str(), key) {
                        return Some(&m[n - 1].1);
                    }
                    n = n - 1;
                }
                assert(m@.take(0) =~= Seq::empty());
                None
            },
            _ => None,
        }
    }

    /// The text under `key`.
    pub fn text(&self, key: &str) -> (r: Option<String>)
        ensures
            match r {
                Some(s) => entry_text(entry(self.tree(), key@)) == Some(s@),
                None => entry_text(entry(self.tree(), key@)) is None,
            },
    {
        match self.get(key) {
            Some(Setting::Text(s)) => Some(s.clone()),
            _ => None,
        }
    }
}

} // verus!
