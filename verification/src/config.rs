//! Where the name of the agent and the `kannaka` binary come from.

use vstd::prelude::*;
use crate::settings::{entry, entry_text, parse_settings, toml_read, Setting, SettingTree};
use crate::text::{opt, trim, trimmed};

verus! {

/// The name that a configuration gives the agent: its display name where that is
/// not empty, else its id, else `unknown`.
pub open spec fn chosen_name(display_name: Option<Seq<char>>, id: Option<Seq<char>>) -> Seq<char> {
    match display_name {
        Some(n) if n.len() > 0 => n,
        _ => match id {
            Some(i) => i,
            None => "unknown"@,
        },
    }
}

/// The name for the two fields of a configuration ([`chosen_name`]).
pub fn choose_name(display_name: Option<String>, id: Option<String>) -> (r: String)
    ensures
        r@ == chosen_name(opt(display_name), opt(id)),
{
    if let Some(n) = display_name {
        if !n.as_str().is_empty() {
            return n;
        }
    }
    match id {
        Some(i) => i,
        None => "unknown".to_owned(),
    }
}

/// The name that a document gives the agent: the two fields stand in its table `agent`.
pub open spec fn name_in(t: SettingTree) -> Seq<char> {
    match entry(t, "agent"@) {
        Some(agent) => chosen_name(
            entry_text(entry(agent, "display_name"@)),
            entry_text(entry(agent, "id"@)),
        ),
        None => "unknown"@,
    }
}

/// The name that a document gives the agent ([`name_in`]).
pub fn agent_name_in(document: &Setting) -> (r: String)
    ensures
        r@ == name_in(document.tree()),
{
    match document.get("agent") {
        Some(agent) => choose_name(agent.text("display_name"), agent.text("id")),
        None => "unknown".to_owned(),
    }
}

/// The agent's name, from the text of the configuration file where it could be
/// read.
pub open spec fn configured_name(config: Option<Seq<char>>) -> Seq<char> {
    match config {
        Some(text) => match toml_read(text) {
            Some(m) => name_in(SettingTree::Table(m)),
            None => "unknown"@,
        },
        None => "unknown"@,
    }
}

/// The agent's name ([`configured_name`]).
pub fn load_agent_name(config: Option<String>) -> (r: String)
    ensures
        r@ == configured_name(opt(config)),
{
    match config {
        Some(text) => match parse_settings(text.as_str()) {
            Some(document) => agent_name_in(&document),
            None => "unknown".to_owned(),
        },
        None => "unknown".to_owned(),
    }
}

/// A directory in which a `kannaka` binary may stand.
#[derive(Clone, Copy, PartialEq, Eq, Structural, Debug)]
pub enum Place {
    /// The directory of the running program.
    BesideProgram,
    /// The release directory of the source checkout, below the home directory.
    HomeRelease,
}

/// The path of [`Place::HomeRelease`] below the home directory.
pub const HOME_RELEASE: &'static str = "Source/kannaka-memory/target/release";

/// The name of the binary with index `i` among the four that are tried, in order.
pub open spec fn binary_place(i: int) -> (Place, Seq<char>) {
    (
        if i < 2 {
            Place::BesideProgram
        } else {
            Place::HomeRelease
        },
        if i % 2 == 0 {
            "kannaka.exe"@
        } else {
            "kannaka"@
        },
    )
}

/// The places of the binary in the order in which they are tried
/// ([`binary_place`]).
pub fn binary_places() -> (r: Vec<(Place, &'static str)>)
    ensures
        r@.len() == 4,
        forall|i: int| 0 <= i < 4 ==> ((#[trigger] r@[i]).0, r@[i].1@) == binary_place(i),
{
    let mut v: Vec<(Place, &'static str)> = Vec::new();
    v.push((Place::BesideProgram, "kannaka.exe"));
    v.push((Place::BesideProgram, "kannaka"));
    v.push((Place::HomeRelease, "kannaka.exe"));
    v.push((Place::HomeRelease, "kannaka"));
    v
}

/// The first of the texts that are there.
pub open spec fn first_found(found: Seq<Option<Seq<char>>>) -> Option<Seq<char>>
    decreases found.len(),
{
    if found.len() == 0 {
        None
    } else if found[0] is Some {
        found[0]
    } else {
        first_found(found.drop_first())
    }
}

/// The binary to run: the one that the user asks for, unless that is blank; else
/// the first that was found; else whichever is on the search path.
pub open spec fn chosen_binary(
    asked: Option<Seq<char>>,
    found: Seq<Option<Seq<char>>>,
) -> Seq<char> {
    match asked {
        Some(p) if trim(p).len() > 0 => trim(p),
        _ => match first_found(found) {
            Some(p) => p,
            None => "kannaka"@,
        },
    }
}

/// What each of the optional texts spells.
pub open spec fn opts(v: Seq<Option<String>>) -> Seq<Option<Seq<char>>> {
    v.map_values(|t: Option<String>| opt(t))
}

/// The binary to run, given what the user asks for and, for each of the places,
/// the path of the binary that was found there ([`chosen_binary`]).
pub fn find_kannaka_binary(asked: Option<String>, found: Vec<Option<String>>) -> (r: String)
    ensures
        r@ == chosen_binary(opt(asked), opts(found@)),
{
    if let Some(p) = &asked {
        let t = trimmed(p.as_str());
        if !t.as_str().is_empty() {
            return t;
        }
    }
    let n: usize = found.len();
    let mut i: usize = 0;
    assert(opts(found@).skip(0) =~= opts(found@));
    while i < n
        invariant
            n == found@.len(),
            i <= n,
            asked is Some ==> trim(asked->Some_0@).len() == 0,
            first_found(opts(found@)) == first_found(opts(found@).skip(i as int)),
        decreases n - i,
    {
        let ghost rest = opts(found@).skip(i as int);
        assert(rest[0] == opt(found@[i as int]));
        assert(rest.drop_first() =~= opts(found@).skip(i + 1));
        if let Some(p) = &found[i] {
            return p.clone();
        }
        i = i + 1;
    }
    assert(opts(found@).skip(n as int) =~= Seq::empty());
    "kannaka".to_owned()
}

/// What the user asks for wins over whatever is found; where nothing is asked for
/// and nothing found, the search path decides.
pub proof fn law_asked_binary_wins(asked: Seq<char>, found: Seq<Option<Seq<char>>>)
    ensures
        trim(asked).len() > 0 ==> chosen_binary(Some(asked), found) == trim(asked),
        trim(asked).len() == 0 ==> chosen_binary(Some(asked), found) == chosen_binary(None, found),
        first_found(found) is None ==> chosen_binary(None, found) == "kannaka"@,
{
}

} // verus!
