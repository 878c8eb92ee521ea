//! The events of `kannaka agent --json`: one JSON document per line.

use vstd::prelude::*;
use crate::json::{
    as_text, as_truth, as_unsigned, json_read, json_written, member, or, parse_json, Json, Tree,
};
use crate::text::{cut, same, trim, trimmed, truncate};

verus! {

/// One event of the agent's stream.
pub enum AgentEvent {
    Ready { model: String, mode: String, cwd: String },
    Text(String),
    ToolUse { id: String, name: String, summary: String, read_only: bool, danger: bool },
    ApprovalRequired { id: String, name: String, summary: String, danger: bool },
    ToolResult { id: String, content: String, is_error: bool },
    Usage { input: u64, output: u64 },
    Iteration(usize),
    Done(String),
    Error(String),
    Mode(String),
    /// The stream ended.
    Closed(String),
}

/// What an [`AgentEvent`] says.
pub ghost enum AgentEventModel {
    Ready { model: Seq<char>, mode: Seq<char>, cwd: Seq<char> },
    Text(Seq<char>),
    ToolUse {
        id: Seq<char>,
        name: Seq<char>,
        summary: Seq<char>,
        read_only: bool,
        danger: bool,
    },
    ApprovalRequired { id: Seq<char>, name: Seq<char>, summary: Seq<char>, danger: bool },
    ToolResult { id: Seq<char>, content: Seq<char>, is_error: bool },
    Usage { input: u64, output: u64 },
    Iteration(usize),
    Done(Seq<char>),
    Error(Seq<char>),
    Mode(Seq<char>),
    Closed(Seq<char>),
}

impl View for AgentEvent {
    type V = AgentEventModel;

    open spec fn view(&self) -> AgentEventModel {
        match *self {
            AgentEvent::Ready { model, mode, cwd } => AgentEventModel::Ready {
                model: model@,
                mode: mode@,
                cwd: cwd@,
            },
            AgentEvent::Text(t) => AgentEventModel::Text(t@),
            AgentEvent::ToolUse { id, name, summary, read_only, danger } =>
                AgentEventModel::ToolUse {
                id: id@,
                name: name@,
                summary: summary@,
                read_only,
                danger,
            },
            AgentEvent::ApprovalRequired { id, name, summary, danger } =>
                AgentEventModel::ApprovalRequired {
                id: id@,
                name: name@,
                summary: summary@,
                danger,
            },
            AgentEvent::ToolResult { id, content, is_error } => AgentEventModel::ToolResult {
                id: id@,
                content: content@,
                is_error,
            },
            AgentEvent::Usage { input, output } => AgentEventModel::Usage { input, output },
            AgentEvent::Iteration(n) => AgentEventModel::Iteration(n),
            AgentEvent::Done(t) => AgentEventModel::Done(t@),
            AgentEvent::Error(t) => AgentEventModel::Error(t@),
            AgentEvent::Mode(t) => AgentEventModel::Mode(t@),
            AgentEvent::Closed(t) => AgentEventModel::Closed(t@),
        }
    }
}

/// The text under `key`, empty where there is none.
pub open spec fn field_text(t: Tree, key: Seq<char>) -> Seq<char> {
    or(as_text(member(t, key)), Seq::empty())
}

/// The truth value under `key`, false where there is none.
pub open spec fn field_truth(t: Tree, key: Seq<char>) -> bool {
    or(as_truth(member(t, key)), false)
}

/// The unsigned integer under `key`, 0 where there is none.
pub open spec fn field_unsigned(t: Tree, key: Seq<char>) -> u64 {
    or(as_unsigned(member(t, key)), 0)
}

/// The one line that stands for the call of the tool `name` with `input`: the
/// argument that tells the most of it, or the whole input, shortened.
pub open spec fn tool_line(name: Seq<char>, input: Tree) -> Seq<char> {
    if name == "bash"@ {
        field_text(input, "command"@)
    } else if name == "read_file"@ || name == "write_file"@ || name == "edit_file"@ {
        field_text(input, "file_path"@)
    } else if name == "glob"@ || name == "grep"@ {
        field_text(input, "pattern"@)
    } else if name == "list_dir"@ {
        field_text(input, "path"@)
    } else if name == "recall"@ {
        field_text(input, "query"@)
    } else if name == "remember"@ {
        cut(field_text(input, "content"@), 60)
    } else {
        cut(json_written(input), 80)
    }
}

/// One-line human summary of a tool call's input ([`tool_line`]).
pub fn tool_input_summary(name: &str, input: &Json) -> (r: String)
    ensures
        r@ == tool_line(name@, input.tree()),
{
    if same(name, "bash") {
        field(input, "command")
    } else if same(name, "read_file") || same(name, "write_file") || same(name, "edit_file") {
        field(input, "file_path")
    } else if same(name, "glob") || same(name, "grep") {
        field(input, "pattern")
    } else if same(name, "list_dir") {
        field(input, "path")
    } else if same(name, "recall") {
        field(input, "query")
    } else if same(name, "remember") {
        truncate(field(input, "content").as_str(), 60)
    } else {
        truncate(input.compact_text().as_str(), 80)
    }
}

/// The text under `key`, empty where there is none ([`field_text`]).
pub(crate) fn field(j: &Json, key: &str) -> (r: String)
    ensures
        r@ == field_text(j.tree(), key@),
{
    match j.text(key) {
        Some(s) => s,
        None => String::new(),
    }
}

/// The event that a document of the stream stands for; none where it names no
/// kind or one that is not known.
pub open spec fn agent_event(t: Tree) -> Option<AgentEventModel> {
    match as_text(member(t, "kind"@)) {
        None => None,
        Some(kind) => if kind == "ready"@ {
            Some(
                AgentEventModel::Ready {
                    model: field_text(t, "model"@),
                    mode: field_text(t, "mode"@),
                    cwd: field_text(t, "cwd"@),
                },
            )
        } else if kind == "text"@ {
            Some(AgentEventModel::Text(field_text(t, "text"@)))
        } else if kind == "tool_use"@ {
            Some(
                AgentEventModel::ToolUse {
                    id: field_text(t, "id"@),
                    name: field_text(t, "name"@),
                    summary: tool_line(
                        field_text(t, "name"@),
                        or(member(t, "input"@), Tree::Null),
                    ),
                    read_only: field_truth(t, "read_only"@),
                    danger: field_truth(t, "danger"@),
                },
            )
        } else if kind == "approval_required"@ {
            Some(
                AgentEventModel::ApprovalRequired {
                    id: field_text(t, "id"@),
                    name: field_text(t, "name"@),
                    summary: field_text(t, "summary"@),
                    danger: field_truth(t, "danger"@),
                },
            )
        } else if kind == "tool_result"@ {
            Some(
                AgentEventModel::ToolResult {
                    id: field_text(t, "id"@),
                    content: field_text(t, "content"@),
                    is_error: field_truth(t, "is_error"@),
                },
            )
        } else if kind == "usage"@ {
            Some(
                AgentEventModel::Usage {
                    input: field_unsigned(t, "input"@),
                    output: field_unsigned(t, "output"@),
                },
            )
        } else if kind == "iteration"@ {
            Some(AgentEventModel::Iteration(field_unsigned(t, "n"@) as usize))
        } else if kind == "done"@ {
            Some(AgentEventModel::Done(field_text(t, "reason"@)))
        } else if kind == "error"@ {
            Some(AgentEventModel::Error(field_text(t, "text"@)))
        } else if kind == "mode"@ {
            Some(AgentEventModel::Mode(field_text(t, "mode"@)))
        } else {
            None
        },
    }
}

/// What an optional event says.
pub open spec fn event_model(e: Option<AgentEvent>) -> Option<AgentEventModel> {
    match e {
        Some(e) => Some(e@),
        None => None,
    }
}

/// Reads one document of the agent's stream ([`agent_event`]).
pub fn parse_agent_event(v: &Json) -> (r: Option<AgentEvent>)
    ensures
        event_model(r) == agent_event(v.tree()),
{
    let kind: String = match v.text("kind") {
        Some(k) => k,
        None => {
            return None;
        },
    };
    let kind: &str = kind.as_str();
    if same(kind, "ready") {
        Some(
            AgentEvent::Ready {
                model: field(v, "model"),
                mode: field(v, "mode"),
                cwd: field(v, "cwd"),
            },
        )
    } else if same(kind, "text") {
        Some(AgentEvent::Text(field(v, "text")))
    } else if same(kind, "tool_use") {
        let name = field(v, "name");
        let summary = match v.get("input") {
            Some(input) => tool_input_summary(name.as_str(), input),
            None => tool_input_summary(name.as_str(), &Json::Null),
        };
        Some(
            AgentEvent::ToolUse {
                id: field(v, "id"),
                name,
                summary,
                read_only: v.truth("read_only"),
                danger: v.truth("danger"),
            },
        )
    } else if same(kind, "approval_required") {
        Some(
            AgentEvent::ApprovalRequired {
                id: field(v, "id"),
                name: field(v, "name"),
                summary: field(v, "summary"),
                danger: v.truth("danger"),
            },
        )
    } else if same(kind, "tool_result") {
        Some(
            AgentEvent::ToolResult {
                id: field(v, "id"),
                content: field(v, "content"),
                is_error: v.truth("is_error"),
            },
        )
    } else if same(kind, "usage") {
        Some(AgentEvent::Usage { input: v.unsigned("input"), output: v.unsigned("output") })
    } else if same(kind, "iteration") {
        Some(AgentEvent::Iteration(v.unsigned("n") as usize))
    } else if same(kind, "done") {
        Some(AgentEvent::Done(field(v, "reason")))
    } else if same(kind, "error") {
        Some(AgentEvent::Error(field(v, "text")))
    } else if same(kind, "mode") {
        Some(AgentEvent::Mode(field(v, "mode")))
    } else {
        None
    }
}

/// The event that a line of the stream stands for: none for a blank line, for
/// one that is no JSON, and for a document without a known kind.
pub open spec fn agent_line_event(line: Seq<char>) -> Option<AgentEventModel> {
    if trim(line).len() == 0 {
        None
    } else {
        match json_read(trim(line)) {
            Ok(t) => agent_event(t),
            Err(_) => None,
        }
    }
}

/// Reads one line of the agent's stream ([`agent_line_event`]).
pub fn read_agent_line(line: &str) -> (r: Option<AgentEvent>)
    ensures
        event_model(r) == agent_line_event(line@),
{
    let t = trimmed(line);
    if t.as_str().is_empty() {
        return None;
    }
    match parse_json(t.as_str()) {
        Ok(j) => parse_agent_event(&j),
        Err(_) => None,
    }
}

} // verus!
