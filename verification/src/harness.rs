//! The agent harness: what the agent said and did, and the human's word on everything
//! that it wants to change.

use vstd::prelude::*;
use crate::action::{actions, emit, Action, ActionModel};
use crate::agent::{AgentEvent, AgentEventModel};
use crate::buffer::{keep_last, last_of, lemma_last_of_map};
use crate::json::{json_written, member_trees, Json, Tree};
use crate::text::{cat3, cat4, cat5, same, texts, trim, trimmed};

verus! {

/// The most rows that the transcript keeps.
pub const HARNESS_LINES_CAP: usize = 2000;

/// One row of the transcript.
pub enum AgentLine {
    User(String),
    Assistant(String),
    /// A tool call. Its result comes in later, under the same id; until then a
    /// call that changes something is awaited.
    Tool {
        id: String,
        name: String,
        summary: String,
        danger: bool,
        result: Option<String>,
        is_error: bool,
        awaiting: bool,
    },
    Notice(String),
}

/// What an [`AgentLine`] says.
pub ghost enum LineModel {
    User(Seq<char>),
    Assistant(Seq<char>),
    Tool {
        id: Seq<char>,
        name: Seq<char>,
        summary: Seq<char>,
        danger: bool,
        result: Option<Seq<char>>,
        is_error: bool,
        awaiting: bool,
    },
    Notice(Seq<char>),
}

impl View for AgentLine {
    type V = LineModel;

    open spec fn view(&self) -> LineModel {
        match *self {
            AgentLine::User(t) => LineModel::User(t@),
            AgentLine::Assistant(t) => LineModel::Assistant(t@),
            AgentLine::Tool { id, name, summary, danger, result, is_error, awaiting } =>
                LineModel::Tool {
                id: id@,
                name: name@,
                summary: summary@,
                danger,
                result: crate::text::opt(result),
                is_error,
                awaiting,
            },
            AgentLine::Notice(t) => LineModel::Notice(t@),
        }
    }
}

/// What each of the rows says.
pub open spec fn line_models(v: Seq<AgentLine>) -> Seq<LineModel> {
    v.map_values(|l: AgentLine| l@)
}

/// A request of the agent that the human has to decide.
pub struct PendingApproval {
    pub id: String,
    pub name: String,
    pub summary: String,
    pub danger: bool,
}

/// What a [`PendingApproval`] says.
pub ghost struct ApprovalModel {
    pub id: Seq<char>,
    pub name: Seq<char>,
    pub summary: Seq<char>,
    pub danger: bool,
}

impl View for PendingApproval {
    type V = ApprovalModel;

    open spec fn view(&self) -> ApprovalModel {
        ApprovalModel {
            id: self.id@,
            name: self.name@,
            summary: self.summary@,
            danger: self.danger,
        }
    }
}

/// How the human decides a request.
#[derive(Clone, Copy, PartialEq, Eq, Structural, Debug)]
pub enum Decision {
    Allow,
    AllowAlways,
    Deny,
}

/// The word for a decision in the agent's protocol.
pub open spec fn decision_word(d: Decision) -> Seq<char> {
    match d {
        Decision::Allow => "allow"@,
        Decision::AllowAlways => "allow_always"@,
        Decision::Deny => "deny"@,
    }
}

/// The word for a decision in the transcript.
pub open spec fn decision_verb(d: Decision) -> Seq<char> {
    match d {
        Decision::Allow => "allowed"@,
        Decision::AllowAlways => "allowed (always)"@,
        Decision::Deny => "denied"@,
    }
}

/// What the agent is doing.
#[derive(Clone, Copy, PartialEq, Eq, Structural, Debug)]
pub enum HarnessStatus {
    Off,
    Starting,
    Ready,
    Thinking,
    AwaitingApproval,
    Closed,
}

/// Whether the agent is at work.
pub open spec fn is_busy(s: HarnessStatus) -> bool {
    s == HarnessStatus::Thinking || s == HarnessStatus::Starting
}

/// The state of the harness.
pub struct Harness {
    /// Whether an agent runs.
    pub child: bool,
    /// Whether there is a pipe to write to it.
    pub stdin: bool,
    pub lines: Vec<AgentLine>,
    pub status: HarnessStatus,
    pub mode: String,
    pub model: String,
    pub cwd: String,
    pub pending: Option<PendingApproval>,
    pub usage_in: u64,
    pub usage_out: u64,
    pub iter: usize,
    pub tick: usize,
}

/// What a [`Harness`] says.
#[verifier::ext_equal]
pub ghost struct HarnessModel {
    pub child: bool,
    pub stdin: bool,
    pub lines: Seq<LineModel>,
    pub status: HarnessStatus,
    pub mode: Seq<char>,
    pub model: Seq<char>,
    pub cwd: Seq<char>,
    pub pending: Option<ApprovalModel>,
    pub usage_in: u64,
    pub usage_out: u64,
    pub iter: usize,
    pub tick: usize,
}

/// What an optional request says.
pub open spec fn approval_model(p: Option<PendingApproval>) -> Option<ApprovalModel> {
    match p {
        Some(p) => Some(p@),
        None => None,
    }
}

impl View for Harness {
    type V = HarnessModel;

    open spec fn view(&self) -> HarnessModel {
        HarnessModel {
            child: self.child,
            stdin: self.stdin,
            lines: line_models(self.lines@),
            status: self.status,
            mode: self.mode@,
            model: self.model@,
            cwd: self.cwd@,
            pending: approval_model(self.pending),
            usage_in: self.usage_in,
            usage_out: self.usage_out,
            iter: self.iter,
            tick: self.tick,
        }
    }
}

/// How the start of the agent went.
pub enum SpawnOutcome {
    /// It could not be started, with a word why.
    Failed(String),
    /// It runs, but its output cannot be read.
    NoOutput { stdin: bool },
    /// It runs.
    Up { stdin: bool },
}

/// What a [`SpawnOutcome`] says.
pub ghost enum SpawnModel {
    Failed(Seq<char>),
    NoOutput { stdin: bool },
    Up { stdin: bool },
}

impl View for SpawnOutcome {
    type V = SpawnModel;

    open spec fn view(&self) -> SpawnModel {
        match *self {
            SpawnOutcome::Failed(e) => SpawnModel::Failed(e@),
            SpawnOutcome::NoOutput { stdin } => SpawnModel::NoOutput { stdin },
            SpawnOutcome::Up { stdin } => SpawnModel::Up { stdin },
        }
    }
}

/// The members of a frame: its texts by their keys.
pub open spec fn frame_tree(members: Seq<(Seq<char>, Seq<char>)>) -> Map<Seq<char>, Tree>
    decreases members.len(),
{
    if members.len() == 0 {
        Map::empty()
    } else {
        frame_tree(members.drop_last()).insert(members.last().0, Tree::Text(members.last().1))
    }
}

/// The line that a frame with the given members is sent as.
pub open spec fn frame(members: Seq<(Seq<char>, Seq<char>)>) -> Seq<char> {
    json_written(Tree::Object(frame_tree(members)))
}

/// The frame that ends the agent.
pub open spec fn exit_frame() -> Seq<char> {
    frame(seq![("type"@, "exit"@)])
}

/// The frame of a user's turn.
pub open spec fn user_frame(text: Seq<char>) -> Seq<char> {
    frame(seq![("type"@, "user"@), ("text"@, text)])
}

/// The frame of a decision on the request `id`.
pub open spec fn approval_frame(id: Seq<char>, d: Decision) -> Seq<char> {
    frame(seq![("type"@, "approval"@), ("id"@, id), ("decision"@, decision_word(d))])
}

/// The frame of a permission mode.
pub open spec fn mode_frame(mode: Seq<char>) -> Seq<char> {
    frame(seq![("type"@, "mode"@), ("mode"@, mode)])
}

/// Adds a member to a frame.
fn add_member(m: &mut Vec<(String, Json)>, key: &str, text: &str)
    ensures
        final(m)@.len() == old(m)@.len() + 1,
        member_trees(final(m)@) == member_trees(old(m)@).insert(key@, Tree::Text(text@)),
{
    let value = Json::Text(text.to_owned());
    assert(value.tree() == Tree::Text(text@));
    m.push((key.to_owned(), value));
    assert(m@.drop_last() =~= old(m)@);
    assert(m@.last().1 == value);
}

/// The frame with one member ([`frame`]).
fn frame1(k1: &str, v1: &str) -> (r: String)
    ensures
        r@ == frame(seq![(k1@, v1@)]),
{
    let mut m: Vec<(String, Json)> = Vec::new();
    add_member(&mut m, k1, v1);
    proof {
        reveal_with_fuel(frame_tree, 2);
        assert(seq![(k1@, v1@)].drop_last() =~= Seq::empty());
    }
    Json::Object(m).compact_text()
}

/// The frame with two members ([`frame`]).
fn frame2(k1: &str, v1: &str, k2: &str, v2: &str) -> (r: String)
    ensures
        r@ == frame(seq![(k1@, v1@), (k2@, v2@)]),
{
    let mut m: Vec<(String, Json)> = Vec::new();
    add_member(&mut m, k1, v1);
    add_member(&mut m, k2, v2);
    proof {
        reveal_with_fuel(frame_tree, 3);
        assert(seq![(k1@, v1@), (k2@, v2@)].drop_last() =~= seq![(k1@, v1@)]);
        assert(seq![(k1@, v1@)].drop_last() =~= Seq::empty());
    }
    Json::Object(m).compact_text()
}

/// The frame with three members ([`frame`]).
fn frame3(k1: &str, v1: &str, k2: &str, v2: &str, k3: &str, v3: &str) -> (r: String)
    ensures
        r@ == frame(seq![(k1@, v1@), (k2@, v2@), (k3@, v3@)]),
{
    let mut m: Vec<(String, Json)> = Vec::new();
    add_member(&mut m, k1, v1);
    add_member(&mut m, k2, v2);
    add_member(&mut m, k3, v3);
    proof {
        reveal_with_fuel(frame_tree, 4);
        assert(seq![(k1@, v1@), (k2@, v2@), (k3@, v3@)].drop_last() =~= seq![
            (k1@, v1@),
            (k2@, v2@),
        ]);
        assert(seq![(k1@, v1@), (k2@, v2@)].drop_last() =~= seq![(k1@, v1@)]);
        assert(seq![(k1@, v1@)].drop_last() =~= Seq::empty());
    }
    Json::Object(m).compact_text()
}

/// The transcript with the result of the tool call `id` filled in at its last row.
pub open spec fn with_result(
    lines: Seq<LineModel>,
    id: Seq<char>,
    content: Seq<char>,
    is_error: bool,
) -> Seq<LineModel>
    decreases lines.len(),
{
    if lines.len() == 0 {
        lines
    } else {
        match lines.last() {
            LineModel::Tool { id: lid, name, summary, danger, .. } if lid == id =>
                lines.drop_last().push(
                LineModel::Tool {
                    id,
                    name,
                    summary,
                    danger,
                    result: Some(content),
                    is_error,
                    awaiting: false,
                },
            ),
            _ => with_result(lines.drop_last(), id, content, is_error).push(lines.last()),
        }
    }
}

impl HarnessModel {
    /// With one more row at the end of the transcript.
    pub open spec fn push(self, line: LineModel) -> HarnessModel {
        HarnessModel {
            lines: last_of(self.lines.push(line), HARNESS_LINES_CAP as nat),
            ..self
        }
    }

    /// With one more notice.
    pub open spec fn note(self, words: Seq<char>) -> HarnessModel {
        self.push(LineModel::Notice(words))
    }

    /// The frames that reach the agent when `text` is sent: none without a pipe.
    pub open spec fn sent(self, text: Seq<char>) -> Seq<ActionModel> {
        if self.stdin {
            seq![ActionModel::SendAgent(text)]
        } else {
            Seq::empty()
        }
    }

    /// With the agent ended.
    pub open spec fn ended(self) -> HarnessModel {
        HarnessModel {
            child: false,
            stdin: false,
            pending: None,
            status: HarnessStatus::Off,
            ..self
        }
    }

    /// What is asked to end the agent: a word to it, then its end.
    pub open spec fn end_actions(self) -> Seq<ActionModel> {
        if self.child {
            self.sent(exit_frame()).push(ActionModel::KillAgent)
        } else {
            seq![ActionModel::KillAgent]
        }
    }

    /// With the turn cancelled.
    pub open spec fn stopped(self) -> HarnessModel {
        if self.child {
            self.ended().note(
                "[stopped \u{2014} turn cancelled. Type a new task to start again.]"@,
            )
        } else {
            self.ended()
        }
    }

    /// With the session reset.
    pub open spec fn cleared(self) -> HarnessModel {
        HarnessModel { lines: Seq::empty(), usage_in: 0, usage_out: 0, iter: 0, ..self.ended() }.note(
            "[cleared \u{2014} type a task to start a fresh agent]"@,
        )
    }

    /// With another model, which the next agent takes.
    pub open spec fn with_model(self, m: Seq<char>) -> HarnessModel {
        HarnessModel { model: m, ..self }.ended().note(
            "[model set to "@ + m + " \u{2014} type a task to start]"@,
        )
    }

    /// Whether a turn has to start an agent first.
    pub open spec fn needs_start(self) -> bool {
        !self.child
    }

    /// With a turn of the user under way, the agent being up.
    pub open spec fn turned(self, text: Seq<char>) -> HarnessModel {
        HarnessModel { status: HarnessStatus::Thinking, ..self.push(LineModel::User(text)) }
    }

    /// After the user's turn was taken up.
    pub open spec fn user_turn(self, text: Seq<char>) -> HarnessModel {
        if self.needs_start() {
            HarnessModel { status: HarnessStatus::Starting, ..self }
        } else {
            self.turned(text)
        }
    }

    /// What a user's turn asks for: an agent where none runs, else the frame.
    pub open spec fn user_turn_actions(self, text: Seq<char>) -> Seq<ActionModel> {
        if self.needs_start() {
            seq![ActionModel::SpawnAgent { mode: self.mode, model: self.model, turn: text }]
        } else {
            self.sent(user_frame(text))
        }
    }

    /// After the start of the agent, which the turn `text` waited for.
    pub open spec fn spawned(self, cwd: Seq<char>, o: SpawnModel) -> HarnessModel {
        let s = HarnessModel { cwd, ..self };
        match o {
            SpawnModel::Failed(e) => HarnessModel {
                status: HarnessStatus::Closed,
                ..s.note(
                    "[could not start 'kannaka agent': "@ + e
                        + " \u{2014} is the kannaka binary on PATH?]"@,
                )
            },
            SpawnModel::NoOutput { stdin } => HarnessModel {
                stdin,
                status: HarnessStatus::Closed,
                ..s
            },
            SpawnModel::Up { stdin } => HarnessModel { stdin, child: true, ..s },
        }
    }

    /// With the pending request decided.
    pub open spec fn resolved(self, d: Decision) -> HarnessModel {
        match self.pending {
            Some(p) => HarnessModel {
                status: HarnessStatus::Thinking,
                ..HarnessModel { pending: None, ..self }.note(
                    "["@ + decision_verb(d) + ": "@ + p.name + " "@ + p.summary + "]"@,
                )
            },
            None => self,
        }
    }

    /// What a decision asks for: the frame that answers the pending request.
    pub open spec fn resolve_actions(self, d: Decision) -> Seq<ActionModel> {
        match self.pending {
            Some(p) => self.sent(approval_frame(p.id, d)),
            None => Seq::empty(),
        }
    }

    /// With another permission mode.
    pub open spec fn with_mode(self, mode: Seq<char>) -> HarnessModel {
        if self.child {
            HarnessModel { mode, ..self }
        } else {
            HarnessModel { mode, ..self }.note(
                "[mode set to "@ + mode + " \u{2014} applies when the agent starts]"@,
            )
        }
    }

    /// What another permission mode asks for: a word to the agent that runs.
    pub open spec fn mode_actions(self, mode: Seq<char>) -> Seq<ActionModel> {
        if self.child {
            self.sent(mode_frame(mode))
        } else {
            Seq::empty()
        }
    }

    /// After an event of the agent.
    pub open spec fn applied(self, ev: AgentEventModel) -> HarnessModel {
        match ev {
            AgentEventModel::Ready { model, mode, cwd } => HarnessModel {
                model,
                mode,
                cwd,
                status: HarnessStatus::Ready,
                ..self
            }.note("agent ready \u{b7} "@ + model + " \u{b7} "@ + cwd),
            AgentEventModel::Text(t) => if trim(t).len() == 0 {
                self
            } else {
                self.push(LineModel::Assistant(t))
            },
            AgentEventModel::ToolUse { id, name, summary, read_only, danger } => self.push(
                LineModel::Tool {
                    id,
                    name,
                    summary,
                    danger,
                    result: None,
                    is_error: false,
                    awaiting: !read_only,
                },
            ),
            AgentEventModel::ApprovalRequired { id, name, summary, danger } => HarnessModel {
                pending: Some(ApprovalModel { id, name, summary, danger }),
                status: HarnessStatus::AwaitingApproval,
                ..self
            },
            AgentEventModel::ToolResult { id, content, is_error } => HarnessModel {
                lines: with_result(self.lines, id, content, is_error),
                ..self
            },
            AgentEventModel::Usage { input, output } => HarnessModel {
                usage_in: self.usage_in.wrapping_add(input),
                usage_out: self.usage_out.wrapping_add(output),
                ..self
            },
            AgentEventModel::Iteration(n) => HarnessModel {
                iter: n,
                status: if self.pending is None {
                    HarnessStatus::Thinking
                } else {
                    self.status
                },
                ..self
            },
            AgentEventModel::Done(reason) => {
                let s = HarnessModel { status: HarnessStatus::Ready, ..self };
                if reason == "end_turn"@ {
                    s
                } else {
                    s.note("[turn ended: "@ + reason + "]"@)
                }
            },
            AgentEventModel::Error(t) => self.note("[error: "@ + t + "]"@),
            AgentEventModel::Mode(m) => HarnessModel { mode: m, ..self }.note(
                "[mode \u{2192} "@ + m + "]"@,
            ),
            AgentEventModel::Closed(reason) => HarnessModel {
                status: HarnessStatus::Closed,
                pending: None,
                stdin: false,
                child: false,
                ..self
            }.note(
                "[agent closed: "@ + reason + " \u{2014} type a task to restart]"@,
            ),
        }
    }

    /// After a series of events of the agent.
    pub open spec fn applied_all(self, evs: Seq<AgentEventModel>) -> HarnessModel
        decreases evs.len(),
    {
        if evs.len() == 0 {
            self
        } else {
            self.applied_all(evs.drop_last()).applied(evs.last())
        }
    }
}

/// The arguments with which the agent is started.
pub open spec fn agent_words(cwd: Seq<char>, mode: Seq<char>, model: Seq<char>) -> Seq<Seq<char>> {
    seq!["agent"@, "--json"@, "--cwd"@, cwd, "--mode"@, mode] + (if model.len() == 0 {
        Seq::empty()
    } else {
        seq!["--model"@, model]
    })
}

/// The arguments with which the agent is started ([`agent_words`]): a model only
/// where one is set.
pub fn agent_args(cwd: &str, mode: &str, model: &str) -> (r: Vec<String>)
    ensures
        texts(r@) == agent_words(cwd@, mode@, model@),
{
    let mut v: Vec<String> = Vec::new();
    v.push("agent".to_owned());
    v.push("--json".to_owned());
    v.push("--cwd".to_owned());
    v.push(cwd.to_owned());
    v.push("--mode".to_owned());
    v.push(mode.to_owned());
    assert(texts(v@) =~= seq!["agent"@, "--json"@, "--cwd"@, cwd@, "--mode"@, mode@]);
    let ghost six = v@;
    if !model.is_empty() {
        v.push("--model".to_owned());
        v.push(model.to_owned());
        assert(texts(v@) =~= texts(six) + seq!["--model"@, model@]);
    } else {
        assert(texts(v@) =~= texts(six) + Seq::<Seq<char>>::empty());
    }
    v
}

/// The first row of the transcript.
pub open spec fn greeting() -> Seq<char> {
    "Kannaka Agent \u{2014} a coding agent over the constellation. Type a task and press Enter to start. Filesystem/shell changes ask for your approval."@
}

impl HarnessModel {
    /// Before the first task.
    pub open spec fn initial() -> HarnessModel {
        HarnessModel {
            child: false,
            stdin: false,
            lines: seq![LineModel::Notice(greeting())],
            status: HarnessStatus::Off,
            mode: "default"@,
            model: ""@,
            cwd: ""@,
            pending: None,
            usage_in: 0,
            usage_out: 0,
            iter: 0,
            tick: 0,
        }
    }

    /// With the spinner a step further while the agent is at work.
    pub open spec fn ticked(self) -> HarnessModel {
        HarnessModel {
            tick: if is_busy(self.status) {
                self.tick.wrapping_add(1)
            } else {
                self.tick
            },
            ..self
        }
    }

    /// Whether the transcript keeps to its bound.
    pub open spec fn bounded(self) -> bool {
        self.lines.len() <= HARNESS_LINES_CAP
    }
}

impl Harness {
    /// The harness before the first task.
    pub fn new() -> (r: Harness)
        ensures
            r@ == HarnessModel::initial(),
    {
        let mut lines: Vec<AgentLine> = Vec::new();
        lines.push(
            AgentLine::Notice(
                "Kannaka Agent \u{2014} a coding agent over the constellation. Type a task and press Enter to start. Filesystem/shell changes ask for your approval.".to_owned(),
            ),
        );
        assert(line_models(lines@) =~= seq![LineModel::Notice(greeting())]);
        Harness {
            child: false,
            stdin: false,
            lines,
            status: HarnessStatus::Off,
            mode: "default".to_owned(),
            model: "".to_owned(),
            cwd: "".to_owned(),
            pending: None,
            usage_in: 0,
            usage_out: 0,
            iter: 0,
            tick: 0,
        }
    }

    /// Whether the agent is at work.
    pub fn busy(&self) -> (r: bool)
        ensures
            r == is_busy(self.status),
    {
        match self.status {
            HarnessStatus::Thinking | HarnessStatus::Starting => true,
            _ => false,
        }
    }

    /// Appends a row, dropping the oldest past the bound.
    pub fn push_harness(&mut self, line: AgentLine)
        ensures
            final(self)@ == old(self)@.push(line@),
    {
        self.lines.push(line);
        keep_last(&mut self.lines, HARNESS_LINES_CAP);
        proof {
            let f = |l: AgentLine| l@;
            let all = old(self).lines@.push(line);
            lemma_last_of_map(all, HARNESS_LINES_CAP as nat, f);
            assert(all.map_values(f) =~= line_models(old(self).lines@).push(line@));
        }
    }

    /// Appends a notice.
    fn note(&mut self, words: String)
        ensures
            final(self)@ == old(self)@.note(words@),
    {
        self.push_harness(AgentLine::Notice(words));
    }

    /// Sends one frame to the agent, where there is a pipe to it.
    pub fn send_harness_frame(&self, frame: String, out: &mut Vec<Action>)
        ensures
            actions(final(out)@) == actions(old(out)@) + self@.sent(frame@),
    {
        if self.stdin {
            emit(out, Action::SendAgent(frame));
        }
        assert(actions(out@) =~= actions(old(out)@) + self@.sent(frame@));
    }

    /// Ends the agent.
    pub fn restart_harness(&mut self, out: &mut Vec<Action>)
        ensures
            final(self)@ == old(self)@.ended(),
            actions(final(out)@) == actions(old(out)@) + old(self)@.end_actions(),
    {
        if self.child {
            self.send_harness_frame(frame1("type", "exit"), out);
        }
        emit(out, Action::KillAgent);
        assert(actions(out@) =~= actions(old(out)@) + old(self)@.end_actions());
        self.child = false;
        self.stdin = false;
        self.pending = None;
        self.status = HarnessStatus::Off;
    }

    /// Cancels the turn under way. The agent cannot be interrupted within a turn,
    /// so it is ended; the next task starts a new one.
    pub fn stop_harness(&mut self, out: &mut Vec<Action>)
        ensures
            final(self)@ == old(self)@.stopped(),
            actions(final(out)@) == actions(old(out)@) + old(self)@.end_actions(),
    {
        let was_up = self.child;
        self.restart_harness(out);
        if was_up {
            self.note(
                "[stopped \u{2014} turn cancelled. Type a new task to start again.]".to_owned(),
            );
        }
    }

    /// Resets the session.
    pub fn clear_harness(&mut self, out: &mut Vec<Action>)
        ensures
            final(self)@ == old(self)@.cleared(),
            actions(final(out)@) == actions(old(out)@) + old(self)@.end_actions(),
    {
        self.restart_harness(out);
        self.lines = Vec::new();
        self.usage_in = 0;
        self.usage_out = 0;
        self.iter = 0;
        assert(line_models(self.lines@) =~= Seq::<LineModel>::empty());
        self.note("[cleared \u{2014} type a task to start a fresh agent]".to_owned());
    }

    /// Sets the model that the next agent takes.
    pub fn set_harness_model(&mut self, model: &str, out: &mut Vec<Action>)
        ensures
            final(self)@ == old(self)@.with_model(model@),
            actions(final(out)@) == actions(old(out)@) + old(self)@.end_actions(),
    {
        self.model = model.to_owned();
        self.restart_harness(out);
        self.note(cat3("[model set to ", model, " \u{2014} type a task to start]"));
    }

    /// Takes up a turn of the user: an agent is started where none runs, else the
    /// turn goes to it.
    pub fn harness_user_turn(&mut self, text: String, out: &mut Vec<Action>)
        ensures
            final(self)@ == old(self)@.user_turn(text@),
            actions(final(out)@) == actions(old(out)@) + old(self)@.user_turn_actions(text@),
    {
        if !self.child {
            self.status = HarnessStatus::Starting;
            emit(
                out,
                Action::SpawnAgent {
                    mode: self.mode.clone(),
                    model: self.model.clone(),
                    turn: text,
                },
            );
            assert(actions(out@) =~= actions(old(out)@) + old(self)@.user_turn_actions(text@));
        } else {
            self.send_turn(text, out);
        }
    }

    /// Puts a turn into the transcript and sends it.
    fn send_turn(&mut self, text: String, out: &mut Vec<Action>)
        ensures
            final(self)@ == old(self)@.turned(text@),
            actions(final(out)@) == actions(old(out)@) + old(self)@.sent(user_frame(text@)),
    {
        let words = frame2("type", "user", "text", text.as_str());
        self.push_harness(AgentLine::User(text));
        self.status = HarnessStatus::Thinking;
        self.send_harness_frame(words, out);
    }

    /// Takes note of how the start of the agent went, and goes on with the turn
    /// that waited for it.
    pub fn harness_spawned(
        &mut self,
        cwd: String,
        outcome: SpawnOutcome,
        turn: String,
        out: &mut Vec<Action>,
    )
        ensures
            final(self)@ == old(self)@.spawned(cwd@, outcome@).turned(turn@),
            actions(final(out)@) == actions(old(out)@) + old(self)@.spawned(
                cwd@,
                outcome@,
            ).sent(user_frame(turn@)),
    {
        let ghost before = self@;
        self.cwd = cwd;
        match outcome {
            SpawnOutcome::Failed(e) => {
                self.note(
                    cat3(
                        "[could not start 'kannaka agent': ",
                        e.as_str(),
                        " \u{2014} is the kannaka binary on PATH?]",
                    ),
                );
                self.status = HarnessStatus::Closed;
            },
            SpawnOutcome::NoOutput { stdin } => {
                self.stdin = stdin;
                self.status = HarnessStatus::Closed;
            },
            SpawnOutcome::Up { stdin } => {
                self.stdin = stdin;
                self.child = true;
            },
        }
        assert(self@ == before.spawned(cwd@, outcome@));
        self.send_turn(turn, out);
    }

    /// Decides the pending request.
    pub fn resolve_approval(&mut self, d: Decision, out: &mut Vec<Action>)
        ensures
            final(self)@ == old(self)@.resolved(d),
            actions(final(out)@) == actions(old(out)@) + old(self)@.resolve_actions(d),
    {
        let ghost before = *self;
        match self.pending.take() {
            Some(p) => {
                let (word, verb) = match d {
                    Decision::Allow => ("allow", "allowed"),
                    Decision::AllowAlways => ("allow_always", "allowed (always)"),
                    Decision::Deny => ("deny", "denied"),
                };
                self.send_harness_frame(
                    frame3("type", "approval", "id", p.id.as_str(), "decision", word),
                    out,
                );
                let what = cat3(p.name.as_str(), " ", p.summary.as_str());
                let words = cat5("[", verb, ": ", what.as_str(), "]");
                proof {
                    assert(words@ =~= "["@ + decision_verb(d) + ": "@ + p.name@ + " "@ + p.summary@
                        + "]"@);
                }
                self.note(words);
                self.status = HarnessStatus::Thinking;
            },
            None => {
                assert(actions(out@) =~= actions(old(out)@) + old(self)@.resolve_actions(d));
            },
        }
    }

    /// Sets the permission mode, telling the agent that runs.
    pub fn set_harness_mode(&mut self, mode: &str, out: &mut Vec<Action>)
        ensures
            final(self)@ == old(self)@.with_mode(mode@),
            actions(final(out)@) == actions(old(out)@) + old(self)@.mode_actions(mode@),
    {
        self.mode = mode.to_owned();
        if self.child {
            self.send_harness_frame(frame2("type", "mode", "mode", mode), out);
        } else {
            self.note(
                cat3("[mode set to ", mode, " \u{2014} applies when the agent starts]"),
            );
            assert(actions(out@) =~= actions(old(out)@) + old(self)@.mode_actions(mode@));
        }
    }

    /// Fills the result of the tool call `id` in at its last row.
    fn fill_result(&mut self, id: &str, content: String, is_error: bool)
        ensures
            final(self)@ == (HarnessModel {
                lines: with_result(old(self)@.lines, id@, content@, is_error),
                ..old(self)@
            }),
    {
        let ghost all = line_models(self.lines@);
        let ghost target = with_result(all, id@, content@, is_error);
        let mut i: usize = self.lines.len();
        assert(all.take(i as int) =~= all);
        assert(all.skip(i as int) =~= Seq::<LineModel>::empty());
        while i > 0
            invariant
                0 <= i <= self.lines@.len(),
                *self == *old(self),
                all == line_models(self.lines@),
                target == with_result(all.take(i as int), id@, content@, is_error) + all.skip(
                    i as int,
                ),
                target == with_result(all, id@, content@, is_error),
            decreases i,
        {
            let ghost part = all.take(i as int);
            i = i - 1;
            assert(part.drop_last() =~= all.take(i as int));
            assert(part.last() == all[i as int]);
            assert(all.skip(i as int) =~= seq![all[i as int]] + all.skip(i + 1));
            let found = match &self.lines[i] {
                AgentLine::Tool { id: lid, name, summary, danger, .. } => {
                    if same(lid.as_str(), id) {
                        Some((name.clone(), summary.clone(), *danger))
                    } else {
                        None
                    }
                },
                _ => None,
            };
            match found {
                Some((name, summary, danger)) => {
                    let line = AgentLine::Tool {
                        id: id.to_owned(),
                        name,
                        summary,
                        danger,
                        result: Some(content),
                        is_error,
                        awaiting: false,
                    };
                    self.lines.set(i, line);
                    proof {
                        assert(with_result(part, id@, content@, is_error)
                            == part.drop_last().push(line@));
                        assert(line_models(self.lines@) =~= target);
                    }
                    return;
                },
                None => {
                    assert(with_result(part, id@, content@, is_error) == with_result(
                        part.drop_last(),
                        id@,
                        content@,
                        is_error,
                    ).push(part.last()));
                    assert(target =~= with_result(all.take(i as int), id@, content@, is_error)
                        + all.skip(i as int));
                },
            }
        }
        assert(all.take(0) =~= Seq::<LineModel>::empty());
        assert(target =~= all);
    }

    /// Takes in one event of the agent.
    pub fn apply_agent_event(&mut self, ev: AgentEvent)
        ensures
            final(self)@ == old(self)@.applied(ev@),
    {
        match ev {
            AgentEvent::Ready { model, mode, cwd } => {
                let words = cat4(
                    "agent ready \u{b7} ",
                    model.as_str(),
                    " \u{b7} ",
                    cwd.as_str(),
                );
                self.model = model;
                self.mode = mode;
                self.cwd = cwd;
                self.status = HarnessStatus::Ready;
                self.note(words);
            },
            AgentEvent::Text(t) => {
                if !trimmed(t.as_str()).as_str().is_empty() {
                    self.push_harness(AgentLine::Assistant(t));
                }
            },
            AgentEvent::ToolUse { id, name, summary, read_only, danger } => {
                self.push_harness(
                    AgentLine::Tool {
                        id,
                        name,
                        summary,
                        danger,
                        result: None,
                        is_error: false,
                        awaiting: !read_only,
                    },
                );
            },
            AgentEvent::ApprovalRequired { id, name, summary, danger } => {
                self.pending = Some(PendingApproval { id, name, summary, danger });
                self.status = HarnessStatus::AwaitingApproval;
            },
            AgentEvent::ToolResult { id, content, is_error } => {
                self.fill_result(id.as_str(), content, is_error);
            },
            AgentEvent::Usage { input, output } => {
                self.usage_in = self.usage_in.wrapping_add(input);
                self.usage_out = self.usage_out.wrapping_add(output);
            },
            AgentEvent::Iteration(n) => {
                self.iter = n;
                if self.pending.is_none() {
                    self.status = HarnessStatus::Thinking;
                }
            },
            AgentEvent::Done(reason) => {
                self.status = HarnessStatus::Ready;
                if !same(reason.as_str(), "end_turn") {
                    self.note(cat3("[turn ended: ", reason.as_str(), "]"));
                }
            },
            AgentEvent::Error(t) => {
                self.note(cat3("[error: ", t.as_str(), "]"));
            },
            AgentEvent::Mode(m) => {
                let words = cat3("[mode \u{2192} ", m.as_str(), "]");
                self.mode = m;
                self.note(words);
            },
            AgentEvent::Closed(reason) => {
                self.status = HarnessStatus::Closed;
                self.pending = None;
                self.stdin = false;
                self.child = false;
                self.note(
                    cat3("[agent closed: ", reason.as_str(), " \u{2014} type a task to restart]"),
                );
            },
        }
    }

    /// Takes in the events that came since the last time.
    pub fn poll_harness(&mut self, events: Vec<AgentEvent>)
        ensures
            final(self)@ == old(self)@.applied_all(event_models(events@)),
    {
        let ghost evs = event_models(events@);
        let ghost all = events@;
        for ev in it: events
            invariant
                it.seq() == all,
                evs == event_models(all),
                self@ == old(self)@.applied_all(evs.take(it.index() as int)),
        {
            let ghost k = it.index() as int;
            assert(evs.take(k + 1).drop_last() =~= evs.take(k));
            assert(evs.take(k + 1).last() == ev@);
            self.apply_agent_event(ev);
        }
        assert(evs.take(all.len() as int) =~= evs);
    }

    /// Turns the spinner while the agent is at work.
    pub fn tick(&mut self)
        ensures
            final(self)@ == old(self)@.ticked(),
    {
        if self.busy() {
            self.tick = self.tick.wrapping_add(1);
        }
    }
}

/// What each of the events says.
pub open spec fn event_models(v: Seq<AgentEvent>) -> Seq<AgentEventModel> {
    v.map_values(|e: AgentEvent| e@)
}

/// Whether row `k` is a call of the tool use `id`.
pub open spec fn is_call(lines: Seq<LineModel>, id: Seq<char>, k: int) -> bool {
    0 <= k < lines.len() && lines[k] is Tool && lines[k]->Tool_id == id
}

/// Whether row `k` is the last call of the tool use `id`.
pub open spec fn is_last_call(lines: Seq<LineModel>, id: Seq<char>, k: int) -> bool {
    is_call(lines, id, k) && forall|j: int| k < j < lines.len() ==> !#[trigger] is_call(lines, id, j)
}

/// The row of a tool call with its result.
pub open spec fn filled(line: LineModel, content: Seq<char>, is_error: bool) -> LineModel {
    LineModel::Tool {
        id: line->Tool_id,
        name: line->Tool_name,
        summary: line->Tool_summary,
        danger: line->Tool_danger,
        result: Some(content),
        is_error,
        awaiting: false,
    }
}

/// A result goes to the last call with its id, which is then awaited no more. No
/// other row changes.
pub proof fn law_result_fills_the_last_call(
    lines: Seq<LineModel>,
    id: Seq<char>,
    content: Seq<char>,
    is_error: bool,
)
    ensures
        with_result(lines, id, content, is_error).len() == lines.len(),
        forall|k: int|
            is_last_call(lines, id, k) ==> #[trigger] with_result(
                lines,
                id,
                content,
                is_error,
            )[k] == filled(lines[k], content, is_error),
        forall|k: int|
            0 <= k < lines.len() && !is_last_call(lines, id, k) ==> #[trigger] with_result(
                lines,
                id,
                content,
                is_error,
            )[k] == lines[k],
    decreases lines.len(),
{
    if lines.len() > 0 {
        let rest = lines.drop_last();
        let n = lines.len() - 1;
        if is_call(lines, id, n) {
            assert(is_last_call(lines, id, n));
            assert forall|k: int| 0 <= k < n implies !is_last_call(lines, id, k) by {
                assert(is_call(lines, id, n));
            }
        } else {
            law_result_fills_the_last_call(rest, id, content, is_error);
            assert forall|k: int| 0 <= k < n implies is_call(rest, id, k) == is_call(
                lines,
                id,
                k,
            ) by {}
            assert forall|k: int| 0 <= k < n implies is_last_call(rest, id, k) == is_last_call(
                lines,
                id,
                k,
            ) by {
                if is_last_call(rest, id, k) {
                    assert forall|j: int| k < j < lines.len() implies !#[trigger] is_call(
                        lines,
                        id,
                        j,
                    ) by {
                        if j < n {
                            assert(!is_call(rest, id, j));
                        }
                    }
                }
                if is_last_call(lines, id, k) {
                    assert forall|j: int| k < j < rest.len() implies !#[trigger] is_call(
                        rest,
                        id,
                        j,
                    ) by {
                        assert(!is_call(lines, id, j));
                    }
                }
            }
            let r = with_result(lines, id, content, is_error);
            assert forall|k: int| 0 <= k < n implies #[trigger] r[k] == with_result(
                rest,
                id,
                content,
                is_error,
            )[k] by {}
        }
    }
}

/// A decision answers the request that is pending, by its id, and the request is
/// pending no more.
pub proof fn law_decision_answers_the_pending_request(h: HarnessModel, d: Decision)
    requires
        h.pending is Some,
    ensures
        h.resolved(d).pending is None,
        h.stdin ==> h.resolve_actions(d) == seq![
            ActionModel::SendAgent(approval_frame(h.pending->Some_0.id, d)),
        ],
{
}

/// Without a pending request there is nothing to decide: nothing is sent and
/// nothing changes.
pub proof fn law_no_decision_without_a_request(h: HarnessModel, d: Decision)
    requires
        h.pending is None,
    ensures
        h.resolved(d) == h,
        h.resolve_actions(d) == Seq::<ActionModel>::empty(),
{
}

/// A request becomes pending only when the agent asks, and an agent that is gone
/// leaves none behind.
pub proof fn law_requests_come_from_the_agent(h: HarnessModel, ev: AgentEventModel)
    requires
        h.applied(ev).pending != h.pending,
    ensures
        ev is ApprovalRequired || (ev is Closed && h.applied(ev).pending is None),
{
}

/// A cancelled turn leaves no agent and no request behind; the next task starts a
/// new agent.
pub proof fn law_stop_ends_the_agent(h: HarnessModel, task: Seq<char>)
    ensures
        !h.stopped().child && h.stopped().pending is None && h.stopped().status
            == HarnessStatus::Off,
        h.end_actions().len() > 0 && h.end_actions().last() == ActionModel::KillAgent,
        h.stopped().user_turn_actions(task) == seq![
            ActionModel::SpawnAgent { mode: h.mode, model: h.model, turn: task },
        ],
{
}

/// A turn that waited for the agent reaches it as if the agent had been there.
pub proof fn law_waiting_turn_is_sent(h: HarnessModel, cwd: Seq<char>, task: Seq<char>)
    requires
        !h.child,
    ensures
        ({
            let up = h.user_turn(task).spawned(cwd, SpawnModel::Up { stdin: true });
            &&& up.child
            &&& up.turned(task) == up.user_turn(task)
            &&& up.sent(user_frame(task)) == up.user_turn_actions(task)
        }),
{
}

/// Every step keeps the transcript within its bound.
pub proof fn law_transcript_is_bounded(h: HarnessModel)
    requires
        h.bounded(),
    ensures
        forall|l: LineModel| (#[trigger] h.push(l)).bounded(),
        forall|ev: AgentEventModel| (#[trigger] h.applied(ev)).bounded(),
        forall|evs: Seq<AgentEventModel>| (#[trigger] h.applied_all(evs)).bounded(),
        forall|d: Decision| (#[trigger] h.resolved(d)).bounded(),
        forall|m: Seq<char>| (#[trigger] h.with_mode(m)).bounded(),
        forall|m: Seq<char>| (#[trigger] h.with_model(m)).bounded(),
        forall|t: Seq<char>| (#[trigger] h.user_turn(t)).bounded(),
        forall|t: Seq<char>| (#[trigger] h.turned(t)).bounded(),
        forall|c: Seq<char>, o: SpawnModel| (#[trigger] h.spawned(c, o)).bounded(),
        h.stopped().bounded(),
        h.cleared().bounded(),
        h.ticked().bounded(),
        HarnessModel::initial().bounded(),
{
    assert forall|ev: AgentEventModel| (#[trigger] h.applied(ev)).bounded() by {
        lemma_applied_bounded(h, ev);
    }
    assert forall|evs: Seq<AgentEventModel>| (#[trigger] h.applied_all(evs)).bounded() by {
        lemma_applied_all_bounded(h, evs);
    }
}

proof fn lemma_applied_bounded(h: HarnessModel, ev: AgentEventModel)
    requires
        h.bounded(),
    ensures
        h.applied(ev).bounded(),
{
    match ev {
        AgentEventModel::ToolResult { id, content, is_error } => {
            law_result_fills_the_last_call(h.lines, id, content, is_error);
        },
        _ => {},
    }
}

pub(crate) proof fn lemma_applied_all_bounded(h: HarnessModel, evs: Seq<AgentEventModel>)
    requires
        h.bounded(),
    ensures
        h.applied_all(evs).bounded(),
    decreases evs.len(),
{
    if evs.len() > 0 {
        lemma_applied_all_bounded(h, evs.drop_last());
        lemma_applied_bounded(h.applied_all(evs.drop_last()), evs.last());
    }
}

} // verus!
