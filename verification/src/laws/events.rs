//! What holds of the agent's stream: what a document of it says, and what that does to
//! the transcript.

use vstd::prelude::*;
use crate::agent::{agent_event, agent_line_event, tool_line, AgentEventModel};
use crate::harness::{
    is_call, is_last_call, law_result_fills_the_last_call, ApprovalModel, HarnessModel,
    HarnessStatus, LineModel,
};
use crate::json::{json_read, json_written, member, Tree};
use crate::laws::fields::{is_count_under, is_text_under, is_truth_under};
use crate::laws::words::{all_white, law_trim_undoes_padding, neat};
use crate::text::{cut, trim};

verus! {

/// Whether a document of the stream names the given kind.
pub open spec fn is_kind(t: Tree, kind: Seq<char>) -> bool {
    member(t, "kind"@) == Some(Tree::Text(kind))
}

proof fn lemma_kinds_differ()
    ensures
        "ready"@ != "text"@ && "ready"@ != "tool_use"@ && "ready"@ != "approval_required"@,
        "ready"@ != "tool_result"@ && "ready"@ != "usage"@ && "ready"@ != "iteration"@,
        "ready"@ != "done"@ && "ready"@ != "error"@ && "ready"@ != "mode"@,
        "text"@ != "tool_use"@ && "text"@ != "approval_required"@ && "text"@ != "tool_result"@,
        "text"@ != "usage"@ && "text"@ != "iteration"@ && "text"@ != "done"@,
        "text"@ != "error"@ && "text"@ != "mode"@,
        "tool_use"@ != "approval_required"@ && "tool_use"@ != "tool_result"@,
        "tool_use"@ != "usage"@ && "tool_use"@ != "iteration"@ && "tool_use"@ != "done"@,
        "tool_use"@ != "error"@ && "tool_use"@ != "mode"@,
        "approval_required"@ != "tool_result"@ && "approval_required"@ != "usage"@,
        "approval_required"@ != "iteration"@ && "approval_required"@ != "done"@,
        "approval_required"@ != "error"@ && "approval_required"@ != "mode"@,
        "tool_result"@ != "usage"@ && "tool_result"@ != "iteration"@ && "tool_result"@ != "done"@,
        "tool_result"@ != "error"@ && "tool_result"@ != "mode"@,
        "usage"@ != "iteration"@ && "usage"@ != "done"@ && "usage"@ != "error"@,
        "usage"@ != "mode"@,
        "iteration"@ != "done"@ && "iteration"@ != "error"@ && "iteration"@ != "mode"@,
        "done"@ != "error"@ && "done"@ != "mode"@,
        "error"@ != "mode"@,
{
    reveal_strlit("ready");
    reveal_strlit("text");
    reveal_strlit("tool_use");
    reveal_strlit("approval_required");
    reveal_strlit("tool_result");
    reveal_strlit("usage");
    reveal_strlit("iteration");
    reveal_strlit("done");
    reveal_strlit("error");
    reveal_strlit("mode");
    assert("ready"@.len() == 5);
    assert("text"@.len() == 4);
    assert("tool_use"@.len() == 8);
    assert("approval_required"@.len() == 17);
    assert("tool_result"@.len() == 11);
    assert("usage"@.len() == 5);
    assert("iteration"@.len() == 9);
    assert("done"@.len() == 4);
    assert("error"@.len() == 5);
    assert("mode"@.len() == 4);
    assert("ready"@[0] != "usage"@[0]);
    assert("ready"@[0] != "error"@[0]);
    assert("text"@[0] != "done"@[0]);
    assert("text"@[0] != "mode"@[0]);
    assert("usage"@[0] != "error"@[0]);
    assert("done"@[0] != "mode"@[0]);
}

/// A result tells which call it belongs to, what came of it and whether it failed, each
/// as the document has it.
pub proof fn law_result_says_whether_it_failed(t: Tree)
    requires
        is_kind(t, "tool_result"@),
    ensures
        ({
            let e = agent_event(t)->Some_0;
            &&& agent_event(t) is Some && e is ToolResult
            &&& is_text_under(t, "id"@, Seq::empty(), e->ToolResult_id)
            &&& is_text_under(t, "content"@, Seq::empty(), e->ToolResult_content)
            &&& is_truth_under(t, "is_error"@, e->ToolResult_is_error)
        }),
{
    lemma_kinds_differ();
}

/// A call tells its id, its tool, whether it only reads and whether it is dangerous, each
/// as the document has it.
pub proof fn law_call_says_what_it_may_do(t: Tree)
    requires
        is_kind(t, "tool_use"@),
    ensures
        ({
            let e = agent_event(t)->Some_0;
            &&& agent_event(t) is Some && e is ToolUse
            &&& is_text_under(t, "id"@, Seq::empty(), e->ToolUse_id)
            &&& is_text_under(t, "name"@, Seq::empty(), e->ToolUse_name)
            &&& is_truth_under(t, "read_only"@, e->ToolUse_read_only)
            &&& is_truth_under(t, "danger"@, e->ToolUse_danger)
            &&& member(t, "input"@) is Some ==> e->ToolUse_summary == tool_line(
                e->ToolUse_name,
                member(t, "input"@)->Some_0,
            )
            &&& member(t, "input"@) is None ==> e->ToolUse_summary == tool_line(
                e->ToolUse_name,
                Tree::Null,
            )
        }),
{
    lemma_kinds_differ();
}

/// A request tells its id, its tool, what it asks for and whether it is dangerous, each
/// as the document has it.
pub proof fn law_request_says_what_it_asks_for(t: Tree)
    requires
        is_kind(t, "approval_required"@),
    ensures
        ({
            let e = agent_event(t)->Some_0;
            &&& agent_event(t) is Some && e is ApprovalRequired
            &&& is_text_under(t, "id"@, Seq::empty(), e->ApprovalRequired_id)
            &&& is_text_under(t, "name"@, Seq::empty(), e->ApprovalRequired_name)
            &&& is_text_under(t, "summary"@, Seq::empty(), e->ApprovalRequired_summary)
            &&& is_truth_under(t, "danger"@, e->ApprovalRequired_danger)
        }),
{
    lemma_kinds_differ();
}

/// A greeting tells the model, the mode and the directory of the agent.
pub proof fn law_greeting_says_how_the_agent_runs(t: Tree)
    requires
        is_kind(t, "ready"@),
    ensures
        ({
            let e = agent_event(t)->Some_0;
            &&& agent_event(t) is Some && e is Ready
            &&& is_text_under(t, "model"@, Seq::empty(), e->Ready_model)
            &&& is_text_under(t, "mode"@, Seq::empty(), e->Ready_mode)
            &&& is_text_under(t, "cwd"@, Seq::empty(), e->Ready_cwd)
        }),
{
    lemma_kinds_differ();
}

/// What is said, what went wrong, why a turn ended and which mode holds come through
/// whole; counts come through as they are.
pub proof fn law_other_events_carry_their_field(t: Tree)
    ensures
        is_kind(t, "text"@) ==> (agent_event(t) matches Some(AgentEventModel::Text(s))
            && is_text_under(t, "text"@, Seq::empty(), s)),
        is_kind(t, "error"@) ==> (agent_event(t) matches Some(AgentEventModel::Error(s))
            && is_text_under(t, "text"@, Seq::empty(), s)),
        is_kind(t, "done"@) ==> (agent_event(t) matches Some(AgentEventModel::Done(s))
            && is_text_under(t, "reason"@, Seq::empty(), s)),
        is_kind(t, "mode"@) ==> (agent_event(t) matches Some(AgentEventModel::Mode(s))
            && is_text_under(t, "mode"@, Seq::empty(), s)),
        is_kind(t, "usage"@) ==> (agent_event(t) matches Some(AgentEventModel::Usage { input, output })
            && is_count_under(t, "input"@, input) && is_count_under(t, "output"@, output)),
        is_kind(t, "iteration"@) ==> (agent_event(t) matches Some(AgentEventModel::Iteration(n)) && (
        exists|u: u64| is_count_under(t, "n"@, u) && n == u as usize)),
{
    lemma_kinds_differ();
    if is_kind(t, "iteration"@) {
        let u = crate::agent::field_unsigned(t, "n"@);
        assert(is_count_under(t, "n"@, u));
    }
}

/// A document without a kind, or of a kind that is not known, is passed over.
pub proof fn law_unknown_kinds_are_passed_over(t: Tree)
    ensures
        member(t, "kind"@) is None ==> agent_event(t) is None,
        member(t, "kind"@) is Some && member(t, "kind"@)->Some_0 !is Text ==> agent_event(t) is None,
        agent_event(t) is Some ==> is_kind(t, "ready"@) || is_kind(t, "text"@) || is_kind(
            t,
            "tool_use"@,
        ) || is_kind(t, "approval_required"@) || is_kind(t, "tool_result"@) || is_kind(t, "usage"@)
            || is_kind(t, "iteration"@) || is_kind(t, "done"@) || is_kind(t, "error"@) || is_kind(
            t,
            "mode"@,
        ),
{
}

/// A line of the stream is the document that it spells, whatever white space stands round
/// it; a blank line and one that spells no document are passed over.
pub proof fn law_lines_of_the_stream_are_documents(a: Seq<char>, s: Seq<char>, b: Seq<char>)
    requires
        all_white(a),
        all_white(b),
        neat(s),
    ensures
        s.len() == 0 ==> agent_line_event(a + s + b) is None,
        s.len() > 0 && json_read(s) is Ok ==> agent_line_event(a + s + b) == agent_event(
            json_read(s)->Ok_0,
        ),
        json_read(s) is Err ==> agent_line_event(a + s + b) is None,
{
    law_trim_undoes_padding(a, s, b);
}

/// The argument by which a call of a tool is known: its key for the tools that have one.
pub open spec fn telling_key(name: Seq<char>, key: Seq<char>) -> bool {
    ||| name == "bash"@ && key == "command"@
    ||| (name == "read_file"@ || name == "write_file"@ || name == "edit_file"@) && key == "file_path"@
    ||| (name == "glob"@ || name == "grep"@) && key == "pattern"@
    ||| name == "list_dir"@ && key == "path"@
    ||| name == "recall"@ && key == "query"@
}

proof fn lemma_tools_differ()
    ensures
        "bash"@ != "read_file"@ && "bash"@ != "write_file"@ && "bash"@ != "edit_file"@,
        "bash"@ != "glob"@ && "bash"@ != "grep"@ && "bash"@ != "list_dir"@ && "bash"@ != "recall"@,
        "bash"@ != "remember"@ && "read_file"@ != "glob"@ && "read_file"@ != "grep"@,
        "read_file"@ != "list_dir"@ && "read_file"@ != "recall"@ && "read_file"@ != "remember"@,
        "write_file"@ != "glob"@ && "write_file"@ != "grep"@ && "write_file"@ != "list_dir"@,
        "write_file"@ != "recall"@ && "write_file"@ != "remember"@ && "edit_file"@ != "glob"@,
        "edit_file"@ != "grep"@ && "edit_file"@ != "list_dir"@ && "edit_file"@ != "recall"@,
        "edit_file"@ != "remember"@ && "glob"@ != "list_dir"@ && "glob"@ != "recall"@,
        "glob"@ != "remember"@ && "grep"@ != "list_dir"@ && "grep"@ != "recall"@,
        "grep"@ != "remember"@ && "list_dir"@ != "recall"@ && "list_dir"@ != "remember"@,
        "recall"@ != "remember"@,
{
    reveal_strlit("bash");
    reveal_strlit("read_file");
    reveal_strlit("write_file");
    reveal_strlit("edit_file");
    reveal_strlit("glob");
    reveal_strlit("grep");
    reveal_strlit("list_dir");
    reveal_strlit("recall");
    reveal_strlit("remember");
    assert("bash"@.len() == 4);
    assert("read_file"@.len() == 9);
    assert("write_file"@.len() == 10);
    assert("edit_file"@.len() == 9);
    assert("glob"@.len() == 4);
    assert("grep"@.len() == 4);
    assert("list_dir"@.len() == 8);
    assert("recall"@.len() == 6);
    assert("remember"@.len() == 8);
    assert("bash"@[0] != "glob"@[0]);
    assert("bash"@[0] != "grep"@[0]);
    assert("read_file"@[0] != "edit_file"@[0]);
    assert("glob"@[1] != "grep"@[1]);
    assert("list_dir"@[0] != "remember"@[0]);
}

/// A call is shown by its telling argument, whole however long it is.
pub proof fn law_call_is_shown_by_its_argument(
    name: Seq<char>,
    key: Seq<char>,
    input: Tree,
    s: Seq<char>,
)
    requires
        telling_key(name, key),
        member(input, key) == Some(Tree::Text(s)),
    ensures
        tool_line(name, input) == s,
{
    lemma_tools_differ();
}

/// What is to be remembered is shown up to 60 characters; the input of another tool as
/// the text that it is written as, up to 80.
pub proof fn law_long_arguments_are_shortened(name: Seq<char>, input: Tree, s: Seq<char>)
    ensures
        name == "remember"@ && member(input, "content"@) == Some(Tree::Text(s)) ==> tool_line(
            name,
            input,
        ) == cut(s, 60),
        name != "remember"@ && (forall|k: Seq<char>| !#[trigger] telling_key(name, k))
            ==> tool_line(name, input) == cut(json_written(input), 80),
{
    lemma_tools_differ();
    if forall|k: Seq<char>| !#[trigger] telling_key(name, k) {
        assert(!telling_key(name, "command"@));
        assert(!telling_key(name, "file_path"@));
        assert(!telling_key(name, "pattern"@));
        assert(!telling_key(name, "path"@));
        assert(!telling_key(name, "query"@));
    }
}

/// Whether `new` is `old` with one more row, which is `row`: where there is room no row is
/// lost, else only the oldest one.
pub open spec fn adds_row(old: Seq<LineModel>, new: Seq<LineModel>, row: LineModel) -> bool {
    &&& new.len() > 0 && new.last() == row
    &&& old.len() < 2000 ==> new.drop_last() == old
    &&& old.len() == 2000 ==> new.drop_last() == old.skip(1)
}

/// What the agent says is a row of its own, as it said it; what is blank is none.
pub proof fn law_what_the_agent_says_is_shown(h: HarnessModel, s: Seq<char>)
    requires
        h.bounded(),
    ensures
        trim(s).len() > 0 ==> adds_row(
            h.lines,
            h.applied(AgentEventModel::Text(s)).lines,
            LineModel::Assistant(s),
        ),
        all_white(s) ==> h.applied(AgentEventModel::Text(s)) == h,
        h.applied(AgentEventModel::Text(s)) == (HarnessModel {
            lines: h.applied(AgentEventModel::Text(s)).lines,
            ..h
        }),
{
    lemma_pushed(h, LineModel::Assistant(s));
    if all_white(s) {
        law_trim_undoes_padding(s, Seq::empty(), Seq::empty());
        assert(s + Seq::<char>::empty() + Seq::<char>::empty() =~= s);
    }
}

pub(crate) proof fn lemma_pushed(h: HarnessModel, row: LineModel)
    requires
        h.bounded(),
    ensures
        adds_row(h.lines, h.push(row).lines, row),
{
    let all = h.lines.push(row);
    if h.lines.len() < 2000 {
        assert(all.drop_last() =~= h.lines);
    } else {
        assert(h.push(row).lines =~= all.skip(1));
        assert(all.skip(1).drop_last() =~= h.lines.skip(1));
    }
}

/// A call is a row of its own with what the event says of it, without a result, and awaits
/// one exactly where it does more than read. Nothing else changes.
pub proof fn law_call_is_shown(
    h: HarnessModel,
    id: Seq<char>,
    name: Seq<char>,
    summary: Seq<char>,
    read_only: bool,
    danger: bool,
)
    requires
        h.bounded(),
    ensures
        ({
            let r = h.applied(AgentEventModel::ToolUse { id, name, summary, read_only, danger });
            let row = r.lines.last();
            &&& adds_row(h.lines, r.lines, row)
            &&& row is Tool && row->Tool_id == id && row->Tool_name == name
            &&& row->Tool_summary == summary && row->Tool_danger == danger
            &&& row->Tool_result is None && !row->Tool_is_error
            &&& row->Tool_awaiting <==> !read_only
            &&& r == (HarnessModel { lines: r.lines, ..h })
        }),
{
    lemma_pushed(
        h,
        LineModel::Tool {
            id,
            name,
            summary,
            danger,
            result: None,
            is_error: false,
            awaiting: !read_only,
        },
    );
}

/// A result is shown on the last call with its id: its content, whether it failed, and that
/// it is awaited no more. What the call said of itself stays, and so does every other row;
/// nothing but the rows changes.
pub proof fn law_result_is_shown_on_its_call(
    h: HarnessModel,
    k: int,
    id: Seq<char>,
    content: Seq<char>,
    is_error: bool,
)
    requires
        0 <= k < h.lines.len(),
        h.lines[k] is Tool && h.lines[k]->Tool_id == id,
        forall|j: int|
            k < j < h.lines.len() ==> !((#[trigger] h.lines[j]) is Tool && h.lines[j]->Tool_id
                == id),
    ensures
        ({
            let r = h.applied(AgentEventModel::ToolResult { id, content, is_error });
            let row = r.lines[k];
            &&& row is Tool && row->Tool_id == id
            &&& row->Tool_result == Some(content)
            &&& row->Tool_is_error == is_error
            &&& !row->Tool_awaiting
            &&& row->Tool_name == h.lines[k]->Tool_name
            &&& row->Tool_summary == h.lines[k]->Tool_summary
            &&& row->Tool_danger == h.lines[k]->Tool_danger
            &&& r.lines == h.lines.update(k, row)
            &&& r == (HarnessModel { lines: r.lines, ..h })
        }),
{
    law_result_fills_the_last_call(h.lines, id, content, is_error);
    let r = h.applied(AgentEventModel::ToolResult { id, content, is_error });
    assert(is_last_call(h.lines, id, k)) by {
        assert forall|j: int| k < j < h.lines.len() implies !#[trigger] is_call(
            h.lines,
            id,
            j,
        ) by {
            assert(!(h.lines[j] is Tool && h.lines[j]->Tool_id == id));
        }
    }
    assert forall|j: int| 0 <= j < h.lines.len() && j != k implies #[trigger] r.lines[j]
        == h.lines[j] by {
        assert(is_call(h.lines, id, k));
        assert(!is_last_call(h.lines, id, j));
    }
    assert(r.lines =~= h.lines.update(k, r.lines[k]));
}

/// A request is pending as the event says, and the agent waits; the transcript does not
/// change.
pub proof fn law_request_is_pending(
    h: HarnessModel,
    id: Seq<char>,
    name: Seq<char>,
    summary: Seq<char>,
    danger: bool,
)
    ensures
        ({
            let r = h.applied(AgentEventModel::ApprovalRequired { id, name, summary, danger });
            r == (HarnessModel {
                pending: Some(ApprovalModel { id, name, summary, danger }),
                status: HarnessStatus::AwaitingApproval,
                ..h
            })
        }),
{
}

/// Tokens add up, each on its own account, and nothing else changes.
pub proof fn law_tokens_add_up(h: HarnessModel, input: u64, output: u64)
    requires
        h.usage_in + input <= u64::MAX,
        h.usage_out + output <= u64::MAX,
    ensures
        ({
            let r = h.applied(AgentEventModel::Usage { input, output });
            &&& r.usage_in == h.usage_in + input
            &&& r.usage_out == h.usage_out + output
            &&& r == (HarnessModel { usage_in: r.usage_in, usage_out: r.usage_out, ..h })
        }),
{
}

/// A round sets the count, and shows the agent at work unless it waits for a decision.
pub proof fn law_round_counts(h: HarnessModel, n: usize)
    ensures
        ({
            let r = h.applied(AgentEventModel::Iteration(n));
            &&& r.iter == n
            &&& h.pending is None ==> r.status == HarnessStatus::Thinking
            &&& h.pending is Some ==> r.status == h.status
            &&& r == (HarnessModel { iter: r.iter, status: r.status, ..h })
        }),
{
}

/// The end of a turn makes the agent ready, and leaves a notice with its reason exactly
/// where the turn did not just end.
pub proof fn law_end_of_a_turn_makes_ready(h: HarnessModel, reason: Seq<char>)
    requires
        h.bounded(),
    ensures
        ({
            let r = h.applied(AgentEventModel::Done(reason));
            &&& r.status == HarnessStatus::Ready
            &&& reason == "end_turn"@ ==> r.lines == h.lines
            &&& reason != "end_turn"@ ==> adds_row(
                h.lines,
                r.lines,
                LineModel::Notice("[turn ended: "@ + reason + "]"@),
            )
            &&& r == (HarnessModel { status: r.status, lines: r.lines, ..h })
        }),
{
    lemma_pushed(h, LineModel::Notice("[turn ended: "@ + reason + "]"@));
}

/// An error leaves a notice and nothing else; a mode that the agent reports is the mode,
/// with a notice.
pub proof fn law_errors_and_modes_are_noted(h: HarnessModel, s: Seq<char>)
    requires
        h.bounded(),
    ensures
        ({
            let r = h.applied(AgentEventModel::Error(s));
            &&& adds_row(h.lines, r.lines, LineModel::Notice("[error: "@ + s + "]"@))
            &&& r == (HarnessModel { lines: r.lines, ..h })
        }),
        ({
            let r = h.applied(AgentEventModel::Mode(s));
            &&& r.mode == s
            &&& adds_row(h.lines, r.lines, LineModel::Notice("[mode \u{2192} "@ + s + "]"@))
            &&& r == (HarnessModel { mode: s, lines: r.lines, ..h })
        }),
{
    lemma_pushed(h, LineModel::Notice("[error: "@ + s + "]"@));
    lemma_pushed(
        HarnessModel { mode: s, ..h },
        LineModel::Notice("[mode \u{2192} "@ + s + "]"@),
    );
}

/// A greeting makes the agent ready with the model, the mode and the directory that it
/// names.
pub proof fn law_greeting_makes_ready(
    h: HarnessModel,
    model: Seq<char>,
    mode: Seq<char>,
    cwd: Seq<char>,
)
    requires
        h.bounded(),
    ensures
        ({
            let r = h.applied(AgentEventModel::Ready { model, mode, cwd });
            &&& r.status == HarnessStatus::Ready
            &&& r.model == model && r.mode == mode && r.cwd == cwd
            &&& adds_row(
                h.lines,
                r.lines,
                LineModel::Notice("agent ready \u{b7} "@ + model + " \u{b7} "@ + cwd),
            )
            &&& r.pending == h.pending && r.child == h.child && r.stdin == h.stdin
            &&& r.usage_in == h.usage_in && r.usage_out == h.usage_out && r.iter == h.iter
        }),
{
    lemma_pushed(
        HarnessModel { model, mode, cwd, status: HarnessStatus::Ready, ..h },
        LineModel::Notice("agent ready \u{b7} "@ + model + " \u{b7} "@ + cwd),
    );
}

/// An agent that is gone leaves no request behind and no pipe, and a notice why; the next
/// task starts a new one.
pub proof fn law_agent_that_is_gone(h: HarnessModel, reason: Seq<char>, task: Seq<char>)
    requires
        h.bounded(),
    ensures
        ({
            let r = h.applied(AgentEventModel::Closed(reason));
            &&& r.status == HarnessStatus::Closed
            &&& !r.child && !r.stdin && r.pending is None
            &&& adds_row(
                h.lines,
                r.lines,
                LineModel::Notice(
                    "[agent closed: "@ + reason + " \u{2014} type a task to restart]"@,
                ),
            )
            &&& r.user_turn_actions(task) == seq![
                crate::action::ActionModel::SpawnAgent { mode: h.mode, model: h.model, turn: task },
            ]
        }),
{
    lemma_pushed(
        HarnessModel {
            status: HarnessStatus::Closed,
            pending: None,
            stdin: false,
            child: false,
            ..h
        },
        LineModel::Notice("[agent closed: "@ + reason + " \u{2014} type a task to restart]"@),
    );
}

} // verus!
