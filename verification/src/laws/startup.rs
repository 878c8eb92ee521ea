//! What holds of the start: the arguments, the name of the agent and its binary.

use vstd::prelude::*;
use crate::cli::{launch_of, Launch};
use crate::config::{binary_place, chosen_binary, chosen_name, configured_name, first_found, Place};
use crate::laws::words::{all_white, law_trim_undoes_padding, neat};
use crate::settings::{toml_read, SettingTree};

verus! {

/// Whether `w` is among the arguments.
pub open spec fn among(args: Seq<Seq<char>>, w: Seq<char>) -> bool {
    exists|i: int| 0 <= i < args.len() && #[trigger] args[i] == w
}

/// The version is asked for by `--version` or `-V`, before anything else; the help by
/// `--help` or `-h`; else the program runs.
pub proof fn law_arguments_say_what_to_do(args: Seq<Seq<char>>)
    ensures
        among(args, "--version"@) || among(args, "-V"@) <==> launch_of(args) == Launch::Version,
        launch_of(args) == Launch::Help <==> (among(args, "--help"@) || among(args, "-h"@)) && !(
        among(args, "--version"@) || among(args, "-V"@)),
        launch_of(args) == Launch::Run <==> !among(args, "--help"@) && !among(args, "-h"@)
            && !among(args, "--version"@) && !among(args, "-V"@),
        launch_of(Seq::empty()) == Launch::Run,
{
}

/// An agent goes by its display name, by its id where that is missing or empty, and is not
/// known without either.
pub proof fn law_agent_goes_by_its_display_name(name: Seq<char>, id: Seq<char>)
    ensures
        name.len() > 0 ==> chosen_name(Some(name), Some(id)) == name && chosen_name(
            Some(name),
            None,
        ) == name,
        chosen_name(Some(Seq::empty()), Some(id)) == id,
        chosen_name(None, Some(id)) == id,
        chosen_name(None, None) == "unknown"@,
{
}

/// The name is read from the table of the agent; a file that is missing or cannot be read
/// gives none.
pub proof fn law_name_comes_from_the_file(
    text: Seq<char>,
    file: Map<Seq<char>, SettingTree>,
    agent: Map<Seq<char>, SettingTree>,
    name: Seq<char>,
    id: Seq<char>,
)
    requires
        toml_read(text) == Some(file),
        file.dom().contains("agent"@) && file["agent"@] == SettingTree::Table(agent),
        agent.dom().contains("id"@) && agent["id"@] == SettingTree::Text(id),
    ensures
        agent.dom().contains("display_name"@) && agent["display_name"@] == SettingTree::Text(name)
            && name.len() > 0 ==> configured_name(Some(text)) == name,
        !agent.dom().contains("display_name"@) ==> configured_name(Some(text)) == id,
        configured_name(None) == "unknown"@,
{
}

/// A file that cannot be read, or without a table of the agent, gives no name.
pub proof fn law_unread_file_gives_no_name(text: Seq<char>, file: Map<Seq<char>, SettingTree>)
    ensures
        toml_read(text) is None ==> configured_name(Some(text)) == "unknown"@,
        toml_read(text) == Some(file) && !file.dom().contains("agent"@) ==> configured_name(
            Some(text),
        ) == "unknown"@,
{
}

/// The first binary that was found is taken, in the order of the places; one that is asked
/// for goes before all of them, and without any the name alone stands for it.
pub proof fn law_first_binary_is_taken(
    a: Seq<char>,
    asked: Seq<char>,
    b: Seq<char>,
    found: Seq<Option<Seq<char>>>,
    k: int,
)
    requires
        all_white(a),
        all_white(b),
        neat(asked),
        0 <= k <= found.len(),
        forall|i: int| 0 <= i < k ==> (#[trigger] found[i]) is None,
    ensures
        asked.len() > 0 ==> chosen_binary(Some(a + asked + b), found) == asked,
        asked.len() == 0 ==> chosen_binary(Some(a + asked + b), found) == chosen_binary(
            None,
            found,
        ),
        k < found.len() && found[k] is Some ==> chosen_binary(None, found) == found[k]->Some_0,
        k == found.len() ==> chosen_binary(None, found) == "kannaka"@,
{
    law_trim_undoes_padding(a, asked, b);
    lemma_first_found(found, k);
}

proof fn lemma_first_found(found: Seq<Option<Seq<char>>>, k: int)
    requires
        0 <= k <= found.len(),
        forall|i: int| 0 <= i < k ==> (#[trigger] found[i]) is None,
    ensures
        k < found.len() && found[k] is Some ==> first_found(found) == found[k],
        k == found.len() ==> first_found(found) is None,
    decreases found.len(),
{
    if k > 0 {
        assert(found[0] is None);
        let r = found.drop_first();
        assert forall|i: int| 0 <= i < k - 1 implies (#[trigger] r[i]) is None by {
            assert(r[i] == found[i + 1]);
        }
        lemma_first_found(r, k - 1);
    }
}

/// The places are looked into in one order: beside the program, then in the home's release
/// build; in each of them first the name with an extension.
pub proof fn law_places_have_one_order()
    ensures
        binary_place(0) == (Place::BesideProgram, "kannaka.exe"@),
        binary_place(1) == (Place::BesideProgram, "kannaka"@),
        binary_place(2) == (Place::HomeRelease, "kannaka.exe"@),
        binary_place(3) == (Place::HomeRelease, "kannaka"@),
{
}

} // verus!
