//! The message log and what is known of the memory: the figures, the memories, and
//! the commands that run.

use vstd::prelude::*;
use crate::action::{actions, emit, Action, ActionModel, Answer, Job, JobModel};
use crate::buffer::{keep_last, last_of, lemma_last_of_map};
use crate::clock::{elapsed, since};
use crate::reports::{
    memory_models, message, message_models, msg, CmdModel, CmdResult, MemoryEntry, MemoryModel,
    Message, MessageModel, Role, Status, StatusModel,
};
use crate::text::{cat3, decimal, decimal_text, starts, starts_with, texts};

verus! {

/// The most lines that the message log keeps.
pub const MESSAGES_CAP: usize = 1000;

/// The least time between two refreshes of the Status tab, in nanoseconds.
pub const STATUS_REFRESH: u64 = 5_000_000_000;

/// The log, and what is known of the memory.
pub struct Log {
    pub messages: Vec<Message>,
    pub memories: Vec<MemoryEntry>,
    pub status: Option<Status>,
    /// When the status was last asked for, in nanoseconds.
    pub last_status_poll: Option<u64>,
    /// Whether the status is being asked for.
    pub status_pending: bool,
    /// Whether the memories are being asked for.
    pub observe_pending: bool,
    /// Whether a memory command runs.
    pub cmd_pending: bool,
    /// Whether another subcommand runs.
    pub pass_pending: bool,
}

/// What a [`Log`] says.
pub ghost struct LogModel {
    pub messages: Seq<MessageModel>,
    pub memories: Seq<MemoryModel>,
    pub status: Option<StatusModel>,
    pub last_status_poll: Option<u64>,
    pub status_pending: bool,
    pub observe_pending: bool,
    pub cmd_pending: bool,
    pub pass_pending: bool,
}

/// What an optional status says.
pub open spec fn status_model(s: Option<Status>) -> Option<StatusModel> {
    match s {
        Some(s) => Some(s@),
        None => None,
    }
}

impl View for Log {
    type V = LogModel;

    open spec fn view(&self) -> LogModel {
        LogModel {
            messages: message_models(self.messages@),
            memories: memory_models(self.memories@),
            status: status_model(self.status),
            last_status_poll: self.last_status_poll,
            status_pending: self.status_pending,
            observe_pending: self.observe_pending,
            cmd_pending: self.cmd_pending,
            pass_pending: self.pass_pending,
        }
    }
}

impl LogModel {
    /// At the start, for the agent of the given name.
    pub open spec fn initial(name: Seq<char>) -> LogModel {
        LogModel {
            messages: seq![
                msg(
                    Role::System,
                    "Welcome to Kannaka TUI. Agent: "@ + name
                        + ". Type a command or press F1 for help."@,
                ),
            ],
            memories: Seq::empty(),
            status: None,
            last_status_poll: None,
            status_pending: false,
            observe_pending: false,
            cmd_pending: false,
            pass_pending: false,
        }
    }

    /// Whether the log keeps to its bound.
    pub open spec fn bounded(self) -> bool {
        self.messages.len() <= MESSAGES_CAP
    }

    /// With one more line in the message log.
    pub open spec fn push(self, m: MessageModel) -> LogModel {
        LogModel { messages: last_of(self.messages.push(m), MESSAGES_CAP as nat), ..self }
    }

    /// With more lines in the message log.
    pub open spec fn push_all(self, ms: Seq<MessageModel>) -> LogModel
        decreases ms.len(),
    {
        if ms.len() == 0 {
            self
        } else {
            self.push_all(ms.drop_last()).push(ms.last())
        }
    }

    /// After the status was asked for.
    pub open spec fn status_asked(self, now: u64) -> (LogModel, Seq<ActionModel>) {
        if self.status_pending {
            (self, Seq::empty())
        } else {
            (
                LogModel { status_pending: true, last_status_poll: Some(now), ..self },
                seq![ActionModel::Run(JobModel::Status)],
            )
        }
    }

    /// After the memories were asked for.
    pub open spec fn observe_asked(self) -> (LogModel, Seq<ActionModel>) {
        if self.observe_pending {
            (self, Seq::empty())
        } else {
            (
                LogModel { observe_pending: true, ..self },
                seq![ActionModel::Run(JobModel::Observe)],
            )
        }
    }

    /// After the status and the memories were asked for.
    pub open spec fn refreshed(self, now: u64) -> (LogModel, Seq<ActionModel>) {
        let a = self.status_asked(now);
        let b = a.0.observe_asked();
        (b.0, a.1 + b.1)
    }

    /// After a memory command: one at a time.
    pub open spec fn memory_command(self, label: Seq<char>, job: JobModel) -> (
        LogModel,
        Seq<ActionModel>,
    ) {
        let s = self.push(msg(Role::User, label));
        if self.cmd_pending {
            (
                s.push(
                    msg(
                        Role::System,
                        "A memory command is already running \u{2014} wait for it to finish."@,
                    ),
                ),
                Seq::empty(),
            )
        } else {
            (LogModel { cmd_pending: true, ..s }, seq![ActionModel::Run(job)])
        }
    }

    /// After another subcommand: one at a time.
    pub open spec fn passthrough(self, label: Seq<char>, args: Seq<Seq<char>>, secs: u64) -> (
        LogModel,
        Seq<ActionModel>,
    ) {
        let s = self.push(msg(Role::User, label));
        if self.pass_pending {
            (
                s.push(
                    msg(
                        Role::System,
                        "Another command is already running \u{2014} wait for it to finish."@,
                    ),
                ),
                Seq::empty(),
            )
        } else {
            (
                LogModel {
                    pass_pending: true,
                    ..s.push(
                        msg(
                            Role::System,
                            "Running... (up to "@ + decimal(secs as nat) + "s)"@,
                        ),
                    )
                },
                seq![ActionModel::Run(JobModel::Pass { args, secs })],
            )
        }
    }

    /// After the status was asked about.
    pub open spec fn status_polled(self, a: Answer<Result<Status, String>>) -> LogModel {
        match a {
            Answer::Waiting => self,
            Answer::Lost => LogModel { status_pending: false, ..self },
            Answer::Got(Ok(s)) => LogModel { status_pending: false, status: Some(s@), ..self },
            Answer::Got(Err(e)) => LogModel {
                status_pending: false,
                ..self.push(msg(Role::Error, e@))
            },
        }
    }

    /// After the memories were asked about.
    pub open spec fn observe_polled(
        self,
        a: Answer<Result<(u64, Vec<MemoryEntry>), String>>,
    ) -> LogModel {
        match a {
            Answer::Waiting => self,
            Answer::Lost => LogModel { observe_pending: false, ..self },
            Answer::Got(Ok(o)) => LogModel {
                observe_pending: false,
                status: match self.status {
                    Some(s) => Some(StatusModel { links: o.0, ..s }),
                    None => None,
                },
                memories: memory_models(o.1@),
                ..self
            },
            Answer::Got(Err(e)) => LogModel {
                observe_pending: false,
                ..self.push(msg(Role::Error, e@))
            },
        }
    }

    /// After the lines of a command, and fresh memories where it changed them.
    pub open spec fn reported(self, r: CmdModel) -> (LogModel, Seq<ActionModel>) {
        let s = self.push_all(r.messages);
        if r.refresh_observe {
            s.observe_asked()
        } else {
            (s, Seq::empty())
        }
    }

    /// After the memory command was asked about.
    pub open spec fn cmd_polled(self, a: Answer<CmdResult>) -> (LogModel, Seq<ActionModel>) {
        match a {
            Answer::Waiting => (self, Seq::empty()),
            Answer::Lost => (LogModel { cmd_pending: false, ..self }, Seq::empty()),
            Answer::Got(r) => LogModel { cmd_pending: false, ..self }.reported(r@),
        }
    }

    /// Whether the last line of the log says that a subcommand runs.
    pub open spec fn shows_running(self) -> bool {
        self.messages.len() > 0 && self.messages.last().role == Role::System && starts(
            self.messages.last().content,
            "Running..."@,
        )
    }

    /// After the other subcommand was asked about. Its report takes the place of
    /// the line that said it runs, where that is still the last one.
    pub open spec fn pass_polled(self, a: Answer<CmdResult>) -> (LogModel, Seq<ActionModel>) {
        match a {
            Answer::Waiting => (self, Seq::empty()),
            Answer::Lost => (LogModel { pass_pending: false, ..self }, Seq::empty()),
            Answer::Got(r) => {
                let s = LogModel { pass_pending: false, ..self };
                (if self.shows_running() {
                    LogModel { messages: self.messages.drop_last(), ..s }
                } else {
                    s
                }).reported(r@)
            },
        }
    }

    /// Whether the last status is long enough ago for another.
    pub open spec fn due(self, now: u64) -> bool {
        match self.last_status_poll {
            Some(t) => since(now, t) > STATUS_REFRESH,
            None => true,
        }
    }
}

impl Log {
    /// The log at the start, for the agent of the given name.
    pub fn new(agent_name: &str) -> (r: Log)
        ensures
            r@ == LogModel::initial(agent_name@),
    {
        let mut messages: Vec<Message> = Vec::new();
        let welcome = cat3(
            "Welcome to Kannaka TUI. Agent: ",
            agent_name,
            ". Type a command or press F1 for help.",
        );
        messages.push(message(Role::System, welcome.as_str()));
        let r = Log {
            messages,
            memories: Vec::new(),
            status: None,
            last_status_poll: None,
            status_pending: false,
            observe_pending: false,
            cmd_pending: false,
            pass_pending: false,
        };
        proof {
            assert(r@.messages =~= LogModel::initial(agent_name@).messages);
            assert(r@.memories =~= Seq::<MemoryModel>::empty());
        }
        r
    }

    /// Whether the last status is long enough ago for another.
    pub fn is_due(&self, now: u64) -> (r: bool)
        ensures
            r == self@.due(now),
    {
        match self.last_status_poll {
            Some(t) => elapsed(now, t) > STATUS_REFRESH,
            None => true,
        }
    }

    /// Asks for the status and the memories.
    pub fn refresh(&mut self, now: u64, out: &mut Vec<Action>)
        ensures
            final(self)@ == old(self)@.refreshed(now).0,
            actions(final(out)@) == actions(old(out)@) + old(self)@.refreshed(now).1,
    {
        self.load_status(now, out);
        self.load_observe(out);
        assert(actions(out@) =~= actions(old(out)@) + old(self)@.refreshed(now).1);
    }

    /// Appends a line to the message log, dropping the oldest past the bound.
    pub fn push_message(&mut self, m: Message)
        ensures
            final(self)@ == old(self)@.push(m@),
    {
        self.messages.push(m);
        keep_last(&mut self.messages, MESSAGES_CAP);
        proof {
            let f = |m: Message| m@;
            let all = old(self).messages@.push(m);
            lemma_last_of_map(all, MESSAGES_CAP as nat, f);
            assert(all.map_values(f) =~= message_models(old(self).messages@).push(m@));
        }
    }

    /// Appends a line to the message log.
    pub fn say(&mut self, role: Role, words: &str)
        ensures
            final(self)@ == old(self)@.push(msg(role, words@)),
    {
        self.push_message(message(role, words));
    }

    /// Appends lines to the message log.
    fn push_messages(&mut self, ms: Vec<Message>)
        ensures
            final(self)@ == old(self)@.push_all(message_models(ms@)),
    {
        let ghost given = ms@;
        let ghost all = message_models(ms@);
        assert(all.take(0) =~= Seq::<MessageModel>::empty());
        for m in it: ms
            invariant
                it.seq() == given,
                all == message_models(given),
                self@ == old(self)@.push_all(all.take(it.index() as int)),
        {
            let ghost k = it.index() as int;
            assert(all.take(k + 1).drop_last() =~= all.take(k));
            assert(all.take(k + 1).last() == m@);
            self.push_message(m);
        }
        assert(all.take(given.len() as int) =~= all);
    }

    /// Asks for the status, where that is not under way.
    fn load_status(&mut self, now: u64, out: &mut Vec<Action>)
        ensures
            final(self)@ == old(self)@.status_asked(now).0,
            actions(final(out)@) == actions(old(out)@) + old(self)@.status_asked(now).1,
    {
        if !self.status_pending {
            self.status_pending = true;
            self.last_status_poll = Some(now);
            emit(out, Action::Run(Job::Status));
        }
        assert(actions(out@) =~= actions(old(out)@) + old(self)@.status_asked(now).1);
    }

    /// Asks for the memories, where that is not under way.
    fn load_observe(&mut self, out: &mut Vec<Action>)
        ensures
            final(self)@ == old(self)@.observe_asked().0,
            actions(final(out)@) == actions(old(out)@) + old(self)@.observe_asked().1,
    {
        if !self.observe_pending {
            self.observe_pending = true;
            emit(out, Action::Run(Job::Observe));
        }
        assert(actions(out@) =~= actions(old(out)@) + old(self)@.observe_asked().1);
    }

    /// Runs a memory command, where none runs.
    pub fn execute_memory(&mut self, label: &str, job: Job, out: &mut Vec<Action>)
        ensures
            final(self)@ == old(self)@.memory_command(label@, job@).0,
            actions(final(out)@) == actions(old(out)@) + old(self)@.memory_command(label@, job@).1,
    {
        self.say(Role::User, label);
        if self.cmd_pending {
            self.say(
                Role::System,
                "A memory command is already running \u{2014} wait for it to finish.",
            );
        } else {
            self.cmd_pending = true;
            emit(out, Action::Run(job));
        }
        assert(actions(out@) =~= actions(old(out)@) + old(self)@.memory_command(label@, job@).1);
    }

    /// Runs another subcommand, where none runs.
    pub fn execute_passthrough(
        &mut self,
        label: &str,
        args: Vec<String>,
        secs: u64,
        out: &mut Vec<Action>,
    )
        ensures
            final(self)@ == old(self)@.passthrough(label@, texts(args@), secs).0,
            actions(final(out)@) == actions(old(out)@) + old(self)@.passthrough(
                label@,
                texts(args@),
                secs,
            ).1,
    {
        self.say(Role::User, label);
        if self.pass_pending {
            self.say(
                Role::System,
                "Another command is already running \u{2014} wait for it to finish.",
            );
        } else {
            let words = cat3("Running... (up to ", decimal_text(secs).as_str(), "s)");
            self.say(Role::System, words.as_str());
            self.pass_pending = true;
            emit(out, Action::Run(Job::Pass { args, secs }));
        }
        assert(actions(out@) =~= actions(old(out)@) + old(self)@.passthrough(
            label@,
            texts(args@),
            secs,
        ).1);
    }

    /// Takes in the status, where it came.
    pub fn poll_status(&mut self, a: Answer<Result<Status, String>>)
        ensures
            final(self)@ == old(self)@.status_polled(a),
    {
        match a {
            Answer::Waiting => {},
            Answer::Lost => {
                self.status_pending = false;
            },
            Answer::Got(Ok(s)) => {
                self.status = Some(s);
                self.status_pending = false;
            },
            Answer::Got(Err(e)) => {
                self.say(Role::Error, e.as_str());
                self.status_pending = false;
            },
        }
    }

    /// Takes in the memories, where they came.
    pub fn poll_observe(&mut self, a: Answer<Result<(u64, Vec<MemoryEntry>), String>>)
        ensures
            final(self)@ == old(self)@.observe_polled(a),
    {
        match a {
            Answer::Waiting => {},
            Answer::Lost => {
                self.observe_pending = false;
            },
            Answer::Got(Ok((links, memories))) => {
                match self.status.take() {
                    Some(s) => {
                        self.status = Some(Status { links, ..s });
                    },
                    None => {},
                }
                self.memories = memories;
                self.observe_pending = false;
            },
            Answer::Got(Err(e)) => {
                self.say(Role::Error, e.as_str());
                self.observe_pending = false;
            },
        }
    }

    /// Takes in the lines of a command.
    fn report(&mut self, r: CmdResult, out: &mut Vec<Action>)
        ensures
            final(self)@ == old(self)@.reported(r@).0,
            actions(final(out)@) == actions(old(out)@) + old(self)@.reported(r@).1,
    {
        let CmdResult { messages, refresh_observe } = r;
        self.push_messages(messages);
        if refresh_observe {
            self.load_observe(out);
        } else {
            assert(actions(out@) =~= actions(old(out)@) + Seq::<ActionModel>::empty());
        }
    }

    /// Takes in what a memory command reports, where it has ended.
    pub fn poll_cmd(&mut self, a: Answer<CmdResult>, out: &mut Vec<Action>)
        ensures
            final(self)@ == old(self)@.cmd_polled(a).0,
            actions(final(out)@) == actions(old(out)@) + old(self)@.cmd_polled(a).1,
    {
        assert(actions(out@) =~= actions(old(out)@) + Seq::<ActionModel>::empty());
        match a {
            Answer::Waiting => {},
            Answer::Lost => {
                self.cmd_pending = false;
            },
            Answer::Got(r) => {
                self.cmd_pending = false;
                self.report(r, out);
            },
        }
    }

    /// Whether the last line of the log says that a subcommand runs.
    fn shows_running(&self) -> (r: bool)
        ensures
            r == self@.shows_running(),
    {
        let n: usize = self.messages.len();
        if n == 0 {
            return false;
        }
        let last = &self.messages[n - 1];
        assert(self@.messages.last() == last@);
        match last.role {
            Role::System => starts_with(last.content.as_str(), "Running..."),
            _ => false,
        }
    }

    /// Takes in what another subcommand reports, where it has ended.
    pub fn poll_passthrough(&mut self, a: Answer<CmdResult>, out: &mut Vec<Action>)
        ensures
            final(self)@ == old(self)@.pass_polled(a).0,
            actions(final(out)@) == actions(old(out)@) + old(self)@.pass_polled(a).1,
    {
        assert(actions(out@) =~= actions(old(out)@) + Seq::<ActionModel>::empty());
        match a {
            Answer::Waiting => {},
            Answer::Lost => {
                self.pass_pending = false;
            },
            Answer::Got(r) => {
                if self.shows_running() {
                    let _ = self.messages.pop();
                    assert(message_models(self.messages@) =~= message_models(
                        old(self).messages@,
                    ).drop_last());
                }
                self.pass_pending = false;
                self.report(r, out);
            },
        }
    }
}

/// Every step keeps the log within its bound.
pub proof fn law_log_is_bounded(l: LogModel)
    requires
        l.bounded(),
    ensures
        forall|m: MessageModel| (#[trigger] l.push(m)).bounded(),
        forall|ms: Seq<MessageModel>| (#[trigger] l.push_all(ms)).bounded(),
        forall|t: Seq<char>, j: JobModel| (#[trigger] l.memory_command(t, j)).0.bounded(),
        forall|t: Seq<char>, a: Seq<Seq<char>>, n: u64|
            (#[trigger] l.passthrough(t, a, n)).0.bounded(),
        forall|now: u64| (#[trigger] l.refreshed(now)).0.bounded(),
        forall|a: Answer<Result<Status, String>>| (#[trigger] l.status_polled(a)).bounded(),
        forall|a: Answer<Result<(u64, Vec<MemoryEntry>), String>>|
            (#[trigger] l.observe_polled(a)).bounded(),
        forall|a: Answer<CmdResult>| (#[trigger] l.cmd_polled(a)).0.bounded(),
        forall|a: Answer<CmdResult>| (#[trigger] l.pass_polled(a)).0.bounded(),
{
    assert forall|ms: Seq<MessageModel>| (#[trigger] l.push_all(ms)).bounded() by {
        lemma_push_all_bounded(l, ms);
    }
    assert forall|a: Answer<CmdResult>| (#[trigger] l.cmd_polled(a)).0.bounded() by {
        lemma_cmd_polled_bounded(l, a);
    }
    assert forall|a: Answer<CmdResult>| (#[trigger] l.pass_polled(a)).0.bounded() by {
        lemma_pass_polled_bounded(l, a);
    }
}

proof fn lemma_push_all_bounded(l: LogModel, ms: Seq<MessageModel>)
    requires
        l.bounded(),
    ensures
        l.push_all(ms).bounded(),
    decreases ms.len(),
{
    if ms.len() > 0 {
        lemma_push_all_bounded(l, ms.drop_last());
    }
}

pub(crate) proof fn lemma_cmd_polled_bounded(l: LogModel, a: Answer<CmdResult>)
    requires
        l.bounded(),
    ensures
        l.cmd_polled(a).0.bounded(),
{
    match a {
        Answer::Got(r) => lemma_push_all_bounded(
            LogModel { cmd_pending: false, ..l },
            r@.messages,
        ),
        _ => {},
    }
}

pub(crate) proof fn lemma_pass_polled_bounded(l: LogModel, a: Answer<CmdResult>)
    requires
        l.bounded(),
    ensures
        l.pass_polled(a).0.bounded(),
{
    match a {
        Answer::Got(r) => {
            let t = LogModel { pass_pending: false, ..l };
            lemma_push_all_bounded(t, r@.messages);
            if l.shows_running() {
                lemma_push_all_bounded(
                    LogModel { messages: l.messages.drop_last(), ..t },
                    r@.messages,
                );
            }
        },
        _ => {},
    }
}

/// One memory command runs at a time: while one does, another only leaves a word in
/// the log. It does not keep other subcommands from running.
pub proof fn law_one_memory_command_at_a_time(
    s: LogModel,
    first: Seq<char>,
    j: JobModel,
    second: Seq<char>,
    k: JobModel,
)
    requires
        !s.cmd_pending,
    ensures
        s.memory_command(first, j).1 == seq![ActionModel::Run(j)],
        s.memory_command(first, j).0.memory_command(second, k).1 == Seq::<ActionModel>::empty(),
        s.memory_command(first, j).0.pass_pending == s.pass_pending,
{
}

/// One other subcommand runs at a time, and it does not keep memory commands from
/// running.
pub proof fn law_one_subcommand_at_a_time(
    s: LogModel,
    label: Seq<char>,
    args: Seq<Seq<char>>,
    secs: u64,
    other: Seq<char>,
    more: Seq<Seq<char>>,
    limit: u64,
)
    requires
        !s.pass_pending,
    ensures
        s.passthrough(label, args, secs).1 == seq![
            ActionModel::Run(JobModel::Pass { args, secs }),
        ],
        s.passthrough(label, args, secs).0.passthrough(other, more, limit).1 == Seq::<
            ActionModel,
        >::empty(),
        s.passthrough(label, args, secs).0.cmd_pending == s.cmd_pending,
{
}

/// The report of a subcommand takes the place of the line that said it runs.
pub proof fn law_report_replaces_the_running_line(
    s: LogModel,
    label: Seq<char>,
    args: Seq<Seq<char>>,
    secs: u64,
    r: CmdResult,
)
    requires
        !s.pass_pending,
        s.messages.len() + 2 <= MESSAGES_CAP,
    ensures
        s.passthrough(label, args, secs).0.pass_polled(Answer::Got(r)).0.messages == s.push(
            msg(Role::User, label),
        ).push_all(r@.messages).messages,
{
    reveal_strlit("Running...");
    reveal_strlit("Running... (up to ");
    let ran = s.passthrough(label, args, secs).0;
    let words = "Running... (up to "@ + decimal(secs as nat) + "s)"@;
    assert(ran.messages.last() == msg(Role::System, words));
    assert(words.subrange(0, "Running..."@.len() as int) =~= "Running..."@);
    assert(starts(words, "Running..."@));
    assert(ran.shows_running());
    assert(ran.messages.drop_last() =~= s.push(msg(Role::User, label)).messages);
    let a = LogModel { pass_pending: false, messages: ran.messages.drop_last(), ..ran };
    lemma_push_all_messages(a, s.push(msg(Role::User, label)), r@.messages);
}

proof fn lemma_push_all_messages(a: LogModel, b: LogModel, ms: Seq<MessageModel>)
    requires
        a.messages == b.messages,
    ensures
        a.push_all(ms).messages == b.push_all(ms).messages,
    decreases ms.len(),
{
    if ms.len() > 0 {
        lemma_push_all_messages(a, b, ms.drop_last());
    }
}

/// Asking for fresh figures while they are under way asks for nothing.
pub proof fn law_figures_are_asked_for_once(s: LogModel, then: u64, now: u64)
    ensures
        s.refreshed(then).0.refreshed(now) == (s.refreshed(then).0, Seq::<ActionModel>::empty()),
{
    assert(s.refreshed(then).0.refreshed(now).1 =~= Seq::<ActionModel>::empty());
}

} // verus!
