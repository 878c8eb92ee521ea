//! What the one-shot `kannaka` commands report: status, memories, and the lines
//! that a command leaves in the message log.

use vstd::prelude::*;
use crate::agent::field_unsigned;
use crate::buffer::first_of;
use crate::json::{
    as_fixed, as_number, as_text, json_read, member, or, parse_json, Json, Tree,
};
use crate::text::{cat2, cat3, cat4, decimal, decimal_text, head, trim, trimmed};

verus! {

/// How a command ended: with its output, or without one (it could not be run, or
/// ran out of time) and a word why.
pub enum Capture {
    Exit { success: bool, stdout: String, stderr: String },
    Failed(String),
}

/// What a [`Capture`] says.
pub ghost enum CaptureModel {
    Exit { success: bool, stdout: Seq<char>, stderr: Seq<char> },
    Failed(Seq<char>),
}

impl View for Capture {
    type V = CaptureModel;

    open spec fn view(&self) -> CaptureModel {
        match *self {
            Capture::Exit { success, stdout, stderr } => CaptureModel::Exit {
                success,
                stdout: stdout@,
                stderr: stderr@,
            },
            Capture::Failed(e) => CaptureModel::Failed(e@),
        }
    }
}

/// The words for a command that was stopped at its time limit.
pub open spec fn timeout_words(secs: u64) -> Seq<char> {
    "timeout after "@ + decimal(secs as nat) + "s"@
}

/// The words for a command that was stopped at its time limit ([`timeout_words`]).
pub fn timeout_text(secs: u64) -> (r: String)
    ensures
        r@ == timeout_words(secs),
{
    cat3("timeout after ", decimal_text(secs).as_str(), "s")
}

/// What is seen of a command that was started.
pub enum Waited {
    /// It has ended.
    Ended,
    /// It runs.
    Runs,
    /// It cannot be seen, with a word why.
    Unknown(String),
}

/// What is to be done about a command that was started.
pub enum CaptureStep {
    /// Take in its output.
    Collect,
    /// Look again in a moment.
    Sleep,
    /// Stop it, and report this.
    Kill(String),
    /// Report this.
    Fail(String),
}

/// What a [`CaptureStep`] says.
pub ghost enum CaptureStepModel {
    Collect,
    Sleep,
    Kill(Seq<char>),
    Fail(Seq<char>),
}

impl View for CaptureStep {
    type V = CaptureStepModel;

    open spec fn view(&self) -> CaptureStepModel {
        match *self {
            CaptureStep::Collect => CaptureStepModel::Collect,
            CaptureStep::Sleep => CaptureStepModel::Sleep,
            CaptureStep::Kill(t) => CaptureStepModel::Kill(t@),
            CaptureStep::Fail(t) => CaptureStepModel::Fail(t@),
        }
    }
}

/// What is to be done about a command that has run for `elapsed` nanoseconds and may
/// run for `secs` seconds: one that is over its limit is stopped.
pub open spec fn capture_step_of(w: Waited, elapsed: u64, secs: u64) -> CaptureStepModel {
    match w {
        Waited::Ended => CaptureStepModel::Collect,
        Waited::Runs => if elapsed > secs * 1_000_000_000 {
            CaptureStepModel::Kill(timeout_words(secs))
        } else {
            CaptureStepModel::Sleep
        },
        Waited::Unknown(e) => CaptureStepModel::Fail("wait failed: "@ + e@),
    }
}

/// What is to be done about a command that was started ([`capture_step_of`]).
pub fn capture_step(w: Waited, elapsed: u64, secs: u64) -> (r: CaptureStep)
    ensures
        r@ == capture_step_of(w, elapsed, secs),
{
    match w {
        Waited::Ended => CaptureStep::Collect,
        Waited::Runs => {
            if elapsed as u128 > secs as u128 * 1_000_000_000 {
                CaptureStep::Kill(timeout_text(secs))
            } else {
                CaptureStep::Sleep
            }
        },
        Waited::Unknown(e) => CaptureStep::Fail(cat2("wait failed: ", e.as_str())),
    }
}

/// The words for a command that could not be started.
pub fn spawn_failure(bin: &str, e: &str) -> (r: String)
    ensures
        r@ == "spawn failed at '"@ + bin@ + "': "@ + e@,
{
    cat4("spawn failed at '", bin, "': ", e)
}

/// A command that may run for some time is never stopped before that time, and always
/// after it.
pub proof fn law_command_is_stopped_at_its_limit(elapsed: u64, secs: u64)
    ensures
        elapsed <= secs * 1_000_000_000 <==> capture_step_of(Waited::Runs, elapsed, secs) is Sleep,
        elapsed > secs * 1_000_000_000 <==> capture_step_of(Waited::Runs, elapsed, secs) is Kill,
{
}

/// What the two outcomes of a report spell.
pub open spec fn outcome(r: Result<String, String>) -> Result<Seq<char>, Seq<char>> {
    match r {
        Ok(s) => Ok(s@),
        Err(s) => Err(s@),
    }
}

/// The output of a command that succeeded, trimmed; else what went wrong.
pub open spec fn plain_report(c: CaptureModel) -> Result<Seq<char>, Seq<char>> {
    match c {
        CaptureModel::Exit { success, stdout, stderr } => if success {
            Ok(trim(stdout))
        } else {
            Err(trim(stderr))
        },
        CaptureModel::Failed(e) => Err(e),
    }
}

/// What `kannaka dream` reports ([`plain_report`]).
pub fn dream_report(c: Capture) -> (r: Result<String, String>)
    ensures
        outcome(r) == plain_report(c@),
{
    match c {
        Capture::Exit { success, stdout, stderr } => if success {
            Ok(trimmed(stdout.as_str()))
        } else {
            Err(trimmed(stderr.as_str()))
        },
        Capture::Failed(e) => Err(e),
    }
}

/// The vital figures. The three measures are the numbers of the report, absent
/// where it gave none.
pub struct Status {
    pub phi: Option<serde_json::Number>,
    pub xi: Option<serde_json::Number>,
    pub order: Option<serde_json::Number>,
    pub memories: u64,
    pub clusters: u64,
    pub links: u64,
    pub level: String,
    pub active: u64,
}

/// What a [`Status`] says.
pub ghost struct StatusModel {
    pub phi: Option<serde_json::Number>,
    pub xi: Option<serde_json::Number>,
    pub order: Option<serde_json::Number>,
    pub memories: u64,
    pub clusters: u64,
    pub links: u64,
    pub level: Seq<char>,
    pub active: u64,
}

impl View for Status {
    type V = StatusModel;

    open spec fn view(&self) -> StatusModel {
        StatusModel {
            phi: self.phi,
            xi: self.xi,
            order: self.order,
            memories: self.memories,
            clusters: self.clusters,
            links: self.links,
            level: self.level@,
            active: self.active,
        }
    }
}

/// The part of a status document that holds the figures: its `data` where it is
/// an envelope, else the document itself.
pub open spec fn status_body(t: Tree) -> Tree {
    if member(t, "schema_version"@) is Some && member(t, "data"@) is Some {
        member(t, "data"@)->Some_0
    } else {
        t
    }
}

/// The words for a status document without a figure that is known.
pub open spec fn schema_words() -> Seq<char> {
    "status schema unrecognized \u{2014} kannaka binary may be newer or older than this TUI"@
}

/// The figures of a status document. One that has neither of the two core fields
/// is refused, rather than shown as all zero.
pub open spec fn status_in(t: Tree) -> Result<StatusModel, Seq<char>> {
    let b = status_body(t);
    if member(b, "phi"@) is None && member(b, "total_memories"@) is None {
        Err(schema_words())
    } else {
        Ok(
            StatusModel {
                phi: as_number(member(b, "phi"@)),
                xi: as_number(member(b, "xi"@)),
                order: as_number(member(b, "mean_order"@)),
                memories: field_unsigned(b, "total_memories"@),
                clusters: field_unsigned(b, "num_clusters"@),
                links: 0,
                level: or(as_text(member(b, "consciousness_level"@)), "Unknown"@),
                active: field_unsigned(b, "active_memories"@),
            },
        )
    }
}

/// What the two outcomes of a status report say.
pub open spec fn status_outcome(r: Result<Status, String>) -> Result<StatusModel, Seq<char>> {
    match r {
        Ok(s) => Ok(s@),
        Err(e) => Err(e@),
    }
}

/// Reads a status document ([`status_in`]).
pub fn status_from(val: &Json) -> (r: Result<Status, String>)
    ensures
        status_outcome(r) == status_in(val.tree()),
{
    let body: &Json = match (val.get("schema_version"), val.get("data")) {
        (Some(_), Some(data)) => data,
        _ => val,
    };
    if body.get("phi").is_none() && body.get("total_memories").is_none() {
        return Err(
            "status schema unrecognized \u{2014} kannaka binary may be newer or older than this TUI".to_owned(),
        );
    }
    Ok(
        Status {
            phi: body.number("phi"),
            xi: body.number("xi"),
            order: body.number("mean_order"),
            memories: body.unsigned("total_memories"),
            clusters: body.unsigned("num_clusters"),
            links: 0,
            level: body.text_or("consciousness_level", "Unknown"),
            active: body.unsigned("active_memories"),
        },
    )
}

/// What `kannaka status --envelope` reports.
pub open spec fn status_report_of(c: CaptureModel) -> Result<StatusModel, Seq<char>> {
    match c {
        CaptureModel::Exit { success, stdout, stderr } => if success {
            match json_read(stdout) {
                Ok(t) => status_in(t),
                Err(e) => Err("status parse: "@ + e),
            }
        } else {
            Err("status failed: "@ + trim(stderr))
        },
        CaptureModel::Failed(e) => Err("status "@ + e),
    }
}

/// What `kannaka status --envelope` reports ([`status_report_of`]).
pub fn status_report(c: Capture) -> (r: Result<Status, String>)
    ensures
        status_outcome(r) == status_report_of(c@),
{
    match c {
        Capture::Exit { success, stdout, stderr } => if success {
            match parse_json(stdout.as_str()) {
                Ok(j) => status_from(&j),
                Err(e) => Err(cat2("status parse: ", e.as_str())),
            }
        } else {
            Err(cat2("status failed: ", trimmed(stderr.as_str()).as_str()))
        },
        Capture::Failed(e) => Err(cat2("status ", e.as_str())),
    }
}

/// One memory of the medium, with the amplitude that the report gave.
pub struct MemoryEntry {
    pub content: String,
    pub amplitude: Option<serde_json::Number>,
}

/// What a [`MemoryEntry`] says.
pub ghost struct MemoryModel {
    pub content: Seq<char>,
    pub amplitude: Option<serde_json::Number>,
}

impl View for MemoryEntry {
    type V = MemoryModel;

    open spec fn view(&self) -> MemoryModel {
        MemoryModel { content: self.content@, amplitude: self.amplitude }
    }
}

/// What each of the memories says.
pub open spec fn memory_models(v: Seq<MemoryEntry>) -> Seq<MemoryModel> {
    v.map_values(|m: MemoryEntry| m@)
}

/// The memory that an entry of the report stands for.
pub open spec fn memory_in(t: Tree) -> MemoryModel {
    MemoryModel {
        content: or(as_text(member(t, "content_preview"@)), Seq::empty()),
        amplitude: as_number(member(t, "amplitude"@)),
    }
}

/// What `t` holds under `key`, where it is an object and `t` itself is there.
pub open spec fn inner(t: Option<Tree>, key: Seq<char>) -> Option<Tree> {
    match t {
        Some(t) => member(t, key),
        None => None,
    }
}

/// The link count and the strongest memories of an observation.
pub open spec fn observation_in(t: Tree) -> (u64, Seq<MemoryModel>) {
    (
        or(crate::json::as_unsigned(inner(member(t, "topology"@), "total_links"@)), 0),
        match inner(member(t, "waves"@), "strongest"@) {
            Some(Tree::List(items)) => items.map_values(|x: Tree| memory_in(x)),
            _ => Seq::empty(),
        },
    )
}

/// What an observation says.
pub open spec fn observation_model(o: (u64, Vec<MemoryEntry>)) -> (u64, Seq<MemoryModel>) {
    (o.0, memory_models(o.1@))
}

/// Reads an observation ([`observation_in`]).
pub fn observation_from(val: &Json) -> (r: (u64, Vec<MemoryEntry>))
    ensures
        observation_model(r) == observation_in(val.tree()),
{
    let links: u64 = match val.get("topology") {
        Some(t) => t.unsigned("total_links"),
        None => 0,
    };
    let mut out: Vec<MemoryEntry> = Vec::new();
    let strongest: Option<&Json> = match val.get("waves") {
        Some(w) => w.get("strongest"),
        None => None,
    };
    if let Some(Json::List(items)) = strongest {
        let n: usize = items.len();
        let mut i: usize = 0;
        while i < n
            invariant
                n == items@.len(),
                i <= n,
                out@.len() == i,
                forall|k: int| 0 <= k < i ==> (#[trigger] out@[k])@ == memory_in(items@[k].tree()),
            decreases n - i,
        {
            let m: &Json = &items[i];
            let content = match m.text("content_preview") {
                Some(s) => s,
                None => String::new(),
            };
            out.push(MemoryEntry { content, amplitude: m.number("amplitude") });
            i = i + 1;
        }
        proof {
            crate::json::lemma_list_trees(items@);
            assert(memory_models(out@) =~= crate::json::list_trees(items@).map_values(
                |x: Tree| memory_in(x),
            ));
        }
    } else {
        assert(memory_models(out@) =~= Seq::empty());
    }
    (links, out)
}

/// What the two outcomes of an observation say.
pub open spec fn observe_outcome(r: Result<(u64, Vec<MemoryEntry>), String>) -> Result<
    (u64, Seq<MemoryModel>),
    Seq<char>,
> {
    match r {
        Ok(o) => Ok(observation_model(o)),
        Err(e) => Err(e@),
    }
}

/// What `kannaka observe --json` reports.
pub open spec fn observe_report_of(c: CaptureModel) -> Result<(u64, Seq<MemoryModel>), Seq<char>> {
    match c {
        CaptureModel::Exit { success, stdout, stderr } => if success {
            match json_read(stdout) {
                Ok(t) => Ok(observation_in(t)),
                Err(e) => Err("observe parse: "@ + e),
            }
        } else {
            Err("observe failed: "@ + trim(stderr))
        },
        CaptureModel::Failed(e) => Err("observe "@ + e),
    }
}

/// What `kannaka observe --json` reports ([`observe_report_of`]).
pub fn observe_report(c: Capture) -> (r: Result<(u64, Vec<MemoryEntry>), String>)
    ensures
        observe_outcome(r) == observe_report_of(c@),
{
    match c {
        Capture::Exit { success, stdout, stderr } => if success {
            match parse_json(stdout.as_str()) {
                Ok(j) => Ok(observation_from(&j)),
                Err(e) => Err(cat2("observe parse: ", e.as_str())),
            }
        } else {
            Err(cat2("observe failed: ", trimmed(stderr.as_str()).as_str()))
        },
        Capture::Failed(e) => Err(cat2("observe ", e.as_str())),
    }
}

/// Who a line of the message log comes from.
#[derive(Clone, Copy, PartialEq, Eq, Structural, Debug)]
pub enum Role {
    User,
    System,
    Result,
    Error,
}

/// One line of the message log.
pub struct Message {
    pub role: Role,
    pub content: String,
}

/// What a [`Message`] says.
pub ghost struct MessageModel {
    pub role: Role,
    pub content: Seq<char>,
}

impl View for Message {
    type V = MessageModel;

    open spec fn view(&self) -> MessageModel {
        MessageModel { role: self.role, content: self.content@ }
    }
}

/// What each of the messages says.
pub open spec fn message_models(v: Seq<Message>) -> Seq<MessageModel> {
    v.map_values(|m: Message| m@)
}

/// A message.
pub open spec fn msg(role: Role, content: Seq<char>) -> MessageModel {
    MessageModel { role, content }
}

/// A message with the given words.
pub fn message(role: Role, content: &str) -> (r: Message)
    ensures
        r@ == msg(role, content@),
{
    Message { role, content: content.to_owned() }
}

/// What a memory command leaves: lines for the log, and whether the memories may
/// have changed.
pub struct CmdResult {
    pub messages: Vec<Message>,
    pub refresh_observe: bool,
}

/// What a [`CmdResult`] says.
pub ghost struct CmdModel {
    pub messages: Seq<MessageModel>,
    pub refresh_observe: bool,
}

impl View for CmdResult {
    type V = CmdModel;

    open spec fn view(&self) -> CmdModel {
        CmdModel {
            messages: message_models(self.messages@),
            refresh_observe: self.refresh_observe,
        }
    }
}

/// A result with one line.
pub open spec fn one_line(role: Role, content: Seq<char>, refresh_observe: bool) -> CmdModel {
    CmdModel { messages: seq![msg(role, content)], refresh_observe }
}

/// A result with one line ([`one_line`]).
fn one_line_result(role: Role, content: String, refresh_observe: bool) -> (r: CmdResult)
    ensures
        r@ == one_line(role, content@, refresh_observe),
{
    let mut messages: Vec<Message> = Vec::new();
    messages.push(Message { role, content });
    assert(message_models(messages@) =~= seq![msg(role, content@)]);
    CmdResult { messages, refresh_observe }
}

/// What `kannaka remember` leaves.
pub open spec fn remember_of(c: CaptureModel) -> CmdModel {
    match c {
        CaptureModel::Exit { success, stdout, stderr } => if success {
            one_line(Role::Result, "Stored (id: "@ + trim(stdout) + ")"@, true)
        } else {
            one_line(Role::Error, "Error: "@ + trim(stderr), false)
        },
        CaptureModel::Failed(e) => one_line(Role::Error, "Failed to run kannaka: "@ + e, false),
    }
}

/// What `kannaka remember` leaves ([`remember_of`]).
pub fn remember_result(c: Capture) -> (r: CmdResult)
    ensures
        r@ == remember_of(c@),
{
    match c {
        Capture::Exit { success, stdout, stderr } => if success {
            one_line_result(
                Role::Result,
                cat3("Stored (id: ", trimmed(stdout.as_str()).as_str(), ")"),
                true,
            )
        } else {
            one_line_result(
                Role::Error,
                cat2("Error: ", trimmed(stderr.as_str()).as_str()),
                false,
            )
        },
        Capture::Failed(e) => one_line_result(
            Role::Error,
            cat2("Failed to run kannaka: ", e.as_str()),
            false,
        ),
    }
}

/// What `kannaka forget` leaves.
pub open spec fn forget_of(c: CaptureModel) -> CmdModel {
    match c {
        CaptureModel::Exit { success, stdout, stderr } => if success {
            one_line(Role::Result, trim(stdout), true)
        } else {
            one_line(Role::Error, "Error: "@ + trim(stderr), false)
        },
        CaptureModel::Failed(e) => one_line(Role::Error, "Failed: "@ + e, false),
    }
}

/// What `kannaka forget` leaves ([`forget_of`]).
pub fn forget_result(c: Capture) -> (r: CmdResult)
    ensures
        r@ == forget_of(c@),
{
    match c {
        Capture::Exit { success, stdout, stderr } => if success {
            one_line_result(Role::Result, trimmed(stdout.as_str()), true)
        } else {
            one_line_result(
                Role::Error,
                cat2("Error: ", trimmed(stderr.as_str()).as_str()),
                false,
            )
        },
        Capture::Failed(e) => one_line_result(Role::Error, cat2("Failed: ", e.as_str()), false),
    }
}

/// What a command that is handed through leaves.
pub open spec fn passthrough_of(c: CaptureModel) -> CmdModel {
    match c {
        CaptureModel::Exit { success, stdout, stderr } => if success {
            one_line(
                Role::Result,
                if trim(stdout).len() == 0 {
                    "(no output)"@
                } else {
                    trim(stdout)
                },
                true,
            )
        } else {
            one_line(Role::Error, "Error: "@ + trim(stderr), false)
        },
        CaptureModel::Failed(e) => one_line(Role::Error, e, false),
    }
}

/// What a command that is handed through leaves ([`passthrough_of`]).
pub fn passthrough_result(c: Capture) -> (r: CmdResult)
    ensures
        r@ == passthrough_of(c@),
{
    match c {
        Capture::Exit { success, stdout, stderr } => if success {
            let body = trimmed(stdout.as_str());
            if body.as_str().is_empty() {
                one_line_result(Role::Result, "(no output)".to_owned(), true)
            } else {
                one_line_result(Role::Result, body, true)
            }
        } else {
            one_line_result(
                Role::Error,
                cat2("Error: ", trimmed(stderr.as_str()).as_str()),
                false,
            )
        },
        Capture::Failed(e) => one_line_result(Role::Error, e, false),
    }
}

/// The line of the recalled memory `t`, which is the one with index `i`.
pub open spec fn recall_line(i: nat, t: Tree) -> MessageModel {
    msg(
        Role::Result,
        "  "@ + decimal(i + 1) + ". "@ + first_of(or(as_text(member(t, "content"@)), "?"@), 60)
            + " ("@ + or(as_fixed(member(t, "similarity"@), 2), "0.00"@) + ")"@,
    )
}

/// The lines of a recall that took `millis` milliseconds: a header, then a line
/// for each memory; the output itself where it is no list of memories.
pub open spec fn recall_lines(stdout: Seq<char>, millis: Seq<char>) -> Seq<MessageModel> {
    match json_read(stdout) {
        Ok(Tree::List(items)) => seq![
            msg(Role::System, decimal(items.len()) + " results ("@ + millis + "ms):"@),
        ] + Seq::new(items.len(), |i: int| recall_line(i as nat, items[i])),
        _ => seq![msg(Role::Result, trim(stdout))],
    }
}

/// What `kannaka recall` leaves.
pub open spec fn recall_of(c: CaptureModel, millis: Seq<char>) -> CmdModel {
    match c {
        CaptureModel::Exit { success, stdout, stderr } => if success {
            CmdModel { messages: recall_lines(stdout, millis), refresh_observe: false }
        } else {
            one_line(Role::Error, "Error: "@ + trim(stderr), false)
        },
        CaptureModel::Failed(e) => one_line(Role::Error, "Failed: "@ + e, false),
    }
}

/// The line of a recalled memory ([`recall_line`]).
fn recall_message(i: usize, r: &Json) -> (m: Message)
    requires
        i < usize::MAX,
    ensures
        m@ == recall_line(i as nat, r.tree()),
{
    let content = r.text_or("content", "?");
    let sim = match r.fixed("similarity", 2) {
        Some(s) => s,
        None => "0.00".to_owned(),
    };
    let number = decimal_text((i + 1) as u64);
    let mut line = cat4(
        "  ",
        number.as_str(),
        ". ",
        head(content.as_str(), 60).as_str(),
    );
    line.append(" (");
    line.append(sim.as_str());
    line.append(")");
    Message { role: Role::Result, content: line }
}

/// What `kannaka recall` leaves, with the time that it took in milliseconds
/// ([`recall_of`]).
pub fn recall_result(c: Capture, millis: &str) -> (r: CmdResult)
    ensures
        r@ == recall_of(c@, millis@),
{
    match c {
        Capture::Exit { success, stdout, stderr } => if success {
            if let Ok(Json::List(items)) = parse_json(stdout.as_str()) {
                let n: usize = items.len();
                let mut messages: Vec<Message> = Vec::new();
                let count = decimal_text(n as u64);
                messages.push(
                    Message {
                        role: Role::System,
                        content: cat4(count.as_str(), " results (", millis, "ms):"),
                    },
                );
                let ghost trees = crate::json::list_trees(items@);
                proof {
                    crate::json::lemma_list_trees(items@);
                }
                let ghost first = messages@[0]@;
                let mut i: usize = 0;
                while i < n
                    invariant
                        n == items@.len(),
                        i <= n,
                        trees.len() == n,
                        forall|k: int|
                            #![trigger items@[k]]
                            0 <= k < n ==> trees[k] == items@[k].tree(),
                        messages@.len() == i + 1,
                        messages@[0]@ == first,
                        forall|k: int|
                            0 <= k < i ==> (#[trigger] messages@[k + 1])@ == recall_line(
                                k as nat,
                                trees[k],
                            ),
                    decreases n - i,
                {
                    messages.push(recall_message(i, &items[i]));
                    i = i + 1;
                }
                proof {
                    let want = seq![first] + Seq::new(
                        trees.len(),
                        |i: int| recall_line(i as nat, trees[i]),
                    );
                    assert forall|k: int| 0 <= k < want.len() implies message_models(
                        messages@,
                    )[k] == want[k] by {
                        if k > 0 {
                            assert(messages@[(k - 1) + 1]@ == recall_line(
                                (k - 1) as nat,
                                trees[k - 1],
                            ));
                        }
                    }
                    assert(message_models(messages@) =~= want);
                }
                CmdResult { messages, refresh_observe: false }
            } else {
                one_line_result(Role::Result, trimmed(stdout.as_str()), false)
            }
        } else {
            one_line_result(
                Role::Error,
                cat2("Error: ", trimmed(stderr.as_str()).as_str()),
                false,
            )
        },
        Capture::Failed(e) => one_line_result(Role::Error, cat2("Failed: ", e.as_str()), false),
    }
}

/// A status document without either core figure is refused, in an envelope or not;
/// one with a core figure is read.
pub proof fn law_unknown_status_is_refused(t: Tree)
    ensures
        status_in(t) is Ok <==> member(status_body(t), "phi"@) is Some || member(
            status_body(t),
            "total_memories"@,
        ) is Some,
        status_in(t) is Err ==> status_in(t)->Err_0 == schema_words(),
{
}

} // verus!
