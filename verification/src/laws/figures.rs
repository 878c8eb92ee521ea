//! What holds of the answers of the commands: the figures that are read from them, and
//! the lines that are shown for them.

use vstd::prelude::*;
use crate::json::{json_read, member, number_fixed, Tree};
use crate::laws::fields::{is_count_under, is_number_under, is_text_under};
use crate::reports::{
    capture_step_of, forget_of, memory_in, observation_in, observe_report_of, passthrough_of,
    plain_report, recall_lines, recall_of, remember_of, status_in, status_report_of, CaptureModel,
    CaptureStepModel, CmdModel, MessageModel, Role,
    StatusModel, Waited,
};
use crate::text::{decimal, trim};

verus! {

/// Whether `b` is the body of the status document `t`: what stands under `data` in an
/// envelope, which has a version, and else the document itself.
pub open spec fn is_body_of(t: Tree, b: Tree) -> bool {
    if member(t, "schema_version"@) is Some && member(t, "data"@) is Some {
        member(t, "data"@) == Some(b)
    } else {
        b == t
    }
}

/// Each figure of a status is the one that the body has under its own name.
pub proof fn law_figures_stand_under_their_names(t: Tree, b: Tree)
    requires
        is_body_of(t, b),
        member(b, "phi"@) is Some || member(b, "total_memories"@) is Some,
    ensures
        ({
            let s = status_in(t)->Ok_0;
            &&& status_in(t) is Ok
            &&& is_number_under(b, "phi"@, s.phi)
            &&& is_number_under(b, "xi"@, s.xi)
            &&& is_number_under(b, "mean_order"@, s.order)
            &&& is_count_under(b, "total_memories"@, s.memories)
            &&& is_count_under(b, "num_clusters"@, s.clusters)
            &&& is_count_under(b, "active_memories"@, s.active)
            &&& is_text_under(b, "consciousness_level"@, "Unknown"@, s.level)
            &&& s.links == 0
        }),
{
}

proof fn lemma_figure_names_differ()
    ensures
        "phi"@ != "xi"@ && "phi"@ != "mean_order"@ && "phi"@ != "total_memories"@,
        "phi"@ != "num_clusters"@ && "phi"@ != "active_memories"@,
        "phi"@ != "consciousness_level"@ && "phi"@ != "schema_version"@ && "phi"@ != "data"@,
        "xi"@ != "mean_order"@ && "xi"@ != "total_memories"@ && "xi"@ != "num_clusters"@,
        "xi"@ != "active_memories"@ && "xi"@ != "consciousness_level"@,
        "xi"@ != "schema_version"@ && "xi"@ != "data"@,
        "mean_order"@ != "total_memories"@ && "mean_order"@ != "num_clusters"@,
        "mean_order"@ != "active_memories"@ && "mean_order"@ != "consciousness_level"@,
        "mean_order"@ != "schema_version"@ && "mean_order"@ != "data"@,
        "total_memories"@ != "num_clusters"@ && "total_memories"@ != "active_memories"@,
        "total_memories"@ != "consciousness_level"@ && "total_memories"@ != "schema_version"@,
        "total_memories"@ != "data"@ && "num_clusters"@ != "active_memories"@,
        "num_clusters"@ != "consciousness_level"@ && "num_clusters"@ != "schema_version"@,
        "num_clusters"@ != "data"@ && "active_memories"@ != "consciousness_level"@,
        "active_memories"@ != "schema_version"@ && "active_memories"@ != "data"@,
        "consciousness_level"@ != "schema_version"@ && "consciousness_level"@ != "data"@,
        "schema_version"@ != "data"@,
{
    reveal_strlit("phi");
    reveal_strlit("xi");
    reveal_strlit("mean_order");
    reveal_strlit("total_memories");
    reveal_strlit("num_clusters");
    reveal_strlit("active_memories");
    reveal_strlit("consciousness_level");
    reveal_strlit("schema_version");
    reveal_strlit("data");
    assert("phi"@.len() == 3);
    assert("xi"@.len() == 2);
    assert("mean_order"@.len() == 10);
    assert("total_memories"@.len() == 14);
    assert("num_clusters"@.len() == 12);
    assert("active_memories"@.len() == 15);
    assert("consciousness_level"@.len() == 19);
    assert("schema_version"@.len() == 14);
    assert("data"@.len() == 4);
    assert("total_memories"@[0] != "schema_version"@[0]);
}

/// Of two bodies that differ under one name only, the statuses differ in that figure only.
pub proof fn law_figures_do_not_mix(m: Map<Seq<char>, Tree>, x: Tree)
    requires
        m.dom().contains("phi"@) || m.dom().contains("total_memories"@),
        !m.dom().contains("schema_version"@),
    ensures
        ({
            let s = status_in(Tree::Object(m))->Ok_0;
            let xi = status_in(Tree::Object(m.insert("xi"@, x)))->Ok_0;
            let order = status_in(Tree::Object(m.insert("mean_order"@, x)))->Ok_0;
            let phi = status_in(Tree::Object(m.insert("phi"@, x)))->Ok_0;
            let memories = status_in(Tree::Object(m.insert("total_memories"@, x)))->Ok_0;
            let clusters = status_in(Tree::Object(m.insert("num_clusters"@, x)))->Ok_0;
            let active = status_in(Tree::Object(m.insert("active_memories"@, x)))->Ok_0;
            let level = status_in(Tree::Object(m.insert("consciousness_level"@, x)))->Ok_0;
            &&& s == (StatusModel { xi: s.xi, ..xi })
            &&& s == (StatusModel { order: s.order, ..order })
            &&& s == (StatusModel { phi: s.phi, ..phi })
            &&& s == (StatusModel { memories: s.memories, ..memories })
            &&& s == (StatusModel { clusters: s.clusters, ..clusters })
            &&& s == (StatusModel { active: s.active, ..active })
            &&& s == (StatusModel { level: s.level, ..level })
            &&& x is Number ==> xi.xi == Some(x->Number_0) && order.order == Some(x->Number_0)
                && phi.phi == Some(x->Number_0)
        }),
{
    lemma_figure_names_differ();
}

/// An envelope gives the figures of what it holds.
pub proof fn law_envelope_is_opened(v: Tree, b: Map<Seq<char>, Tree>)
    requires
        !b.dom().contains("schema_version"@),
    ensures
        status_in(Tree::Object(map!["schema_version"@ => v, "data"@ => Tree::Object(b)]))
            == status_in(Tree::Object(b)),
{
    lemma_figure_names_differ();
}

/// A document without either of the telling figures is refused, and no other is.
pub proof fn law_only_strange_bodies_are_refused(t: Tree, b: Tree)
    requires
        is_body_of(t, b),
    ensures
        status_in(t) is Err <==> member(b, "phi"@) is None && member(b, "total_memories"@) is None,
        status_in(t) is Err ==> status_in(t)->Err_0
            == "status schema unrecognized \u{2014} kannaka binary may be newer or older than this TUI"@,
{
}

/// A command that could not run or that failed says why, under the name of what was asked;
/// one that succeeded says what it printed.
pub proof fn law_failure_says_why(stdout: Seq<char>, stderr: Seq<char>, e: Seq<char>)
    ensures
        ({
            let ended = CaptureModel::Exit { success: false, stdout, stderr };
            let failed = CaptureModel::Failed(e);
            &&& status_report_of(ended) == Err::<StatusModel, Seq<char>>(
                "status failed: "@ + trim(stderr),
            )
            &&& status_report_of(failed) == Err::<StatusModel, Seq<char>>(
                "status "@ + e,
            )
            &&& observe_report_of(ended) is Err && observe_report_of(ended)->Err_0
                == "observe failed: "@ + trim(stderr)
            &&& observe_report_of(failed) is Err && observe_report_of(failed)->Err_0
                == "observe "@ + e
            &&& plain_report(ended) == Err::<Seq<char>, Seq<char>>(trim(stderr))
            &&& plain_report(failed) == Err::<Seq<char>, Seq<char>>(e)
            &&& remember_of(ended) == shown(Role::Error, "Error: "@ + trim(stderr), false)
            &&& forget_of(ended) == shown(Role::Error, "Error: "@ + trim(stderr), false)
            &&& passthrough_of(ended) == shown(Role::Error, "Error: "@ + trim(stderr), false)
            &&& remember_of(failed) == shown(Role::Error, "Failed to run kannaka: "@ + e, false)
            &&& forget_of(failed) == shown(Role::Error, "Failed: "@ + e, false)
            &&& passthrough_of(failed) == shown(Role::Error, e, false)
        }),
        forall|millis: Seq<char>|
            {
                &&& #[trigger] recall_of(
                    CaptureModel::Exit { success: false, stdout, stderr },
                    millis,
                ) == shown(Role::Error, "Error: "@ + trim(stderr), false)
            },
        forall|millis: Seq<char>| #[trigger]
            recall_of(CaptureModel::Failed(e), millis) == shown(
                Role::Error,
                "Failed: "@ + e,
                false,
            ),
{
}

/// One line for the log, and whether the observation is asked for again.
pub open spec fn shown(role: Role, content: Seq<char>, refresh_observe: bool) -> CmdModel {
    CmdModel { messages: seq![MessageModel { role, content }], refresh_observe }
}

/// What a command that succeeded printed is shown; where it changed the memory, the
/// observation is asked for again.
pub proof fn law_success_shows_the_output(stdout: Seq<char>, stderr: Seq<char>, millis: Seq<char>)
    ensures
        ({
            let ended = CaptureModel::Exit { success: true, stdout, stderr };
            &&& plain_report(ended) == Ok::<Seq<char>, Seq<char>>(trim(stdout))
            &&& remember_of(ended) == shown(
                Role::Result,
                "Stored (id: "@ + trim(stdout) + ")"@,
                true,
            )
            &&& forget_of(ended) == shown(Role::Result, trim(stdout), true)
            &&& trim(stdout).len() > 0 ==> passthrough_of(ended) == shown(
                Role::Result,
                trim(stdout),
                true,
            )
            &&& trim(stdout).len() == 0 ==> passthrough_of(ended) == shown(
                Role::Result,
                "(no output)"@,
                true,
            )
            &&& !recall_of(ended, millis).refresh_observe
            &&& json_read(stdout) is Ok ==> status_report_of(ended) == status_in(
                json_read(stdout)->Ok_0,
            ) && observe_report_of(ended) is Ok && observe_report_of(ended)->Ok_0
                == observation_in(json_read(stdout)->Ok_0)
            &&& json_read(stdout) is Err ==> status_report_of(ended) is Err && status_report_of(
                ended,
            )->Err_0 == "status parse: "@ + json_read(stdout)->Err_0 && observe_report_of(
                ended,
            ) is Err && observe_report_of(ended)->Err_0 == "observe parse: "@ + json_read(
                stdout,
            )->Err_0
            &&& json_read(stdout) is Err ==> recall_of(ended, millis) == shown(
                Role::Result,
                trim(stdout),
                false,
            )
        }),
{
}

/// A memory is shown by its preview, with its amplitude.
pub proof fn law_memory_is_its_preview(t: Tree)
    ensures
        is_text_under(t, "content_preview"@, Seq::empty(), memory_in(t).content),
        is_number_under(t, "amplitude"@, memory_in(t).amplitude),
{
}

/// An observation has the number of links and the strongest memories, all of them and in
/// their order.
pub proof fn law_observation_is_read_in_order(t: Tree, topology: Tree, waves: Tree, items: Seq<Tree>)
    requires
        member(t, "topology"@) == Some(topology),
        member(t, "waves"@) == Some(waves),
        member(waves, "strongest"@) == Some(Tree::List(items)),
    ensures
        is_count_under(topology, "total_links"@, observation_in(t).0),
        observation_in(t).1.len() == items.len(),
        forall|i: int|
            0 <= i < items.len() ==> #[trigger] observation_in(t).1[i] == memory_in(items[i]),
{
}

/// An observation without its parts has no links and no memories.
pub proof fn law_empty_observation(t: Tree)
    ensures
        member(t, "topology"@) is None ==> observation_in(t).0 == 0,
        member(t, "waves"@) is None ==> observation_in(t).1.len() == 0,
{
}

/// The finds of a recall are numbered from 1, in their order, each with the first 60
/// characters of its content and its similarity to two digits; the line before them tells
/// how many there are and how long it took.
pub proof fn law_finds_are_numbered(
    stdout: Seq<char>,
    millis: Seq<char>,
    items: Seq<Tree>,
    i: int,
    content: Seq<char>,
    n: serde_json::Number,
)
    requires
        json_read(stdout) == Ok::<Tree, Seq<char>>(Tree::List(items)),
        0 <= i < items.len(),
        member(items[i], "content"@) == Some(Tree::Text(content)),
        member(items[i], "similarity"@) == Some(Tree::Number(n)),
        number_fixed(n, 2) is Some,
    ensures
        ({
            let r = recall_lines(stdout, millis);
            &&& r.len() == items.len() + 1
            &&& r[0] == (MessageModel {
                role: Role::System,
                content: decimal(items.len()) + " results ("@ + millis + "ms):"@,
            })
            &&& r[i + 1].role == Role::Result
            &&& r[i + 1].content == "  "@ + decimal((i + 1) as nat) + ". "@ + (
            if content.len() <= 60 {
                content
            } else {
                content.take(60)
            }) + " ("@ + number_fixed(n, 2)->Some_0 + ")"@
        }),
{
}

/// A find without a content or a similarity has a mark in its place.
pub proof fn law_finds_without_figures(
    stdout: Seq<char>,
    millis: Seq<char>,
    items: Seq<Tree>,
    i: int,
)
    requires
        json_read(stdout) == Ok::<Tree, Seq<char>>(Tree::List(items)),
        0 <= i < items.len(),
        member(items[i], "content"@) is None,
        member(items[i], "similarity"@) is None,
    ensures
        recall_lines(stdout, millis)[i + 1] == (MessageModel {
            role: Role::Result,
            content: "  "@ + decimal((i + 1) as nat) + ". "@ + "?"@ + " ("@ + "0.00"@ + ")"@,
        }),
{
    reveal_strlit("?");
    assert("?"@.len() == 1);
}

/// A command is collected when it ended, stopped exactly when it ran for longer than its
/// limit, and waited for else.
pub proof fn law_limit_is_in_seconds(elapsed: u64, secs: u64)
    ensures
        capture_step_of(Waited::Ended, elapsed, secs) == CaptureStepModel::Collect,
        elapsed > secs * 1_000_000_000 ==> capture_step_of(Waited::Runs, elapsed, secs)
            == CaptureStepModel::Kill("timeout after "@ + decimal(secs as nat) + "s"@),
        elapsed <= secs * 1_000_000_000 ==> capture_step_of(Waited::Runs, elapsed, secs)
            == CaptureStepModel::Sleep,
        forall|e: String| #[trigger]
            capture_step_of(Waited::Unknown(e), elapsed, secs) == CaptureStepModel::Fail(
                "wait failed: "@ + e@,
            ),
{
}

} // verus!
