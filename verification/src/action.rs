//! What the state machine asks the outside world to do.

use vstd::prelude::*;
use crate::text::texts;

verus! {

/// A one-shot run of the `kannaka` binary.
pub enum Job {
    Status,
    Observe,
    Constellation,
    Radio,
    /// A dream in the given mode.
    Dream(String),
    Remember(String),
    Recall(String),
    Forget(String),
    /// Any other subcommand, with its time limit in seconds.
    Pass { args: Vec<String>, secs: u64 },
}

/// What a [`Job`] says.
pub ghost enum JobModel {
    Status,
    Observe,
    Constellation,
    Radio,
    Dream(Seq<char>),
    Remember(Seq<char>),
    Recall(Seq<char>),
    Forget(Seq<char>),
    Pass { args: Seq<Seq<char>>, secs: u64 },
}

impl View for Job {
    type V = JobModel;

    open spec fn view(&self) -> JobModel {
        match *self {
            Job::Status => JobModel::Status,
            Job::Observe => JobModel::Observe,
            Job::Constellation => JobModel::Constellation,
            Job::Radio => JobModel::Radio,
            Job::Dream(m) => JobModel::Dream(m@),
            Job::Remember(t) => JobModel::Remember(t@),
            Job::Recall(t) => JobModel::Recall(t@),
            Job::Forget(t) => JobModel::Forget(t@),
            Job::Pass { args, secs } => JobModel::Pass { args: texts(args@), secs },
        }
    }
}

/// The arguments with which a job runs the binary.
pub open spec fn job_args(j: JobModel) -> Seq<Seq<char>> {
    match j {
        JobModel::Status => seq!["status"@, "--envelope"@],
        JobModel::Observe => seq!["observe"@, "--json"@],
        JobModel::Constellation => seq!["constellation"@],
        JobModel::Radio => seq!["radio"@],
        JobModel::Dream(mode) => seq!["dream"@, "--mode"@, mode],
        JobModel::Remember(t) => seq!["remember"@, t],
        JobModel::Recall(q) => seq!["recall"@, q, "--top-k"@, "5"@],
        JobModel::Forget(q) => seq!["forget"@, q],
        JobModel::Pass { args, .. } => args,
    }
}

/// The time limit of a job in seconds.
pub open spec fn job_secs(j: JobModel) -> u64 {
    match j {
        JobModel::Dream(_) => 300,
        JobModel::Constellation => 30,
        JobModel::Radio => 15,
        JobModel::Pass { secs, .. } => secs,
        _ => 60,
    }
}

/// The list of one word.
pub(crate) fn words1(a: &str) -> (r: Vec<String>)
    ensures
        texts(r@) == seq![a@],
{
    let mut v: Vec<String> = Vec::new();
    v.push(a.to_owned());
    assert(texts(v@) =~= seq![a@]);
    v
}

/// The list of two words.
pub(crate) fn words2(a: &str, b: &str) -> (r: Vec<String>)
    ensures
        texts(r@) == seq![a@, b@],
{
    let mut v: Vec<String> = Vec::new();
    v.push(a.to_owned());
    v.push(b.to_owned());
    assert(texts(v@) =~= seq![a@, b@]);
    v
}

/// The list of three words.
fn words3(a: &str, b: &str, c: &str) -> (r: Vec<String>)
    ensures
        texts(r@) == seq![a@, b@, c@],
{
    let mut v: Vec<String> = Vec::new();
    v.push(a.to_owned());
    v.push(b.to_owned());
    v.push(c.to_owned());
    assert(texts(v@) =~= seq![a@, b@, c@]);
    v
}

/// The list of four words.
pub(crate) fn words4(a: &str, b: &str, c: &str, d: &str) -> (r: Vec<String>)
    ensures
        texts(r@) == seq![a@, b@, c@, d@],
{
    let mut v: Vec<String> = Vec::new();
    v.push(a.to_owned());
    v.push(b.to_owned());
    v.push(c.to_owned());
    v.push(d.to_owned());
    assert(texts(v@) =~= seq![a@, b@, c@, d@]);
    v
}

/// A copy of the texts.
pub(crate) fn copied(v: &Vec<String>) -> (r: Vec<String>)
    ensures
        texts(r@) == texts(v@),
{
    let n: usize = v.len();
    let mut out: Vec<String> = Vec::new();
    let mut i: usize = 0;
    while i < n
        invariant
            n == v@.len(),
            i <= n,
            out@.len() == i,
            forall|k: int| 0 <= k < i ==> (#[trigger] out@[k])@ == v@[k]@,
        decreases n - i,
    {
        out.push(v[i].clone());
        i = i + 1;
    }
    assert(texts(out@) =~= texts(v@));
    out
}

impl Job {
    /// The arguments with which the job runs the binary ([`job_args`]).
    pub fn args(&self) -> (r: Vec<String>)
        ensures
            texts(r@) == job_args(self@),
    {
        match self {
            Job::Status => words2("status", "--envelope"),
            Job::Observe => words2("observe", "--json"),
            Job::Constellation => words1("constellation"),
            Job::Radio => words1("radio"),
            Job::Dream(mode) => words3("dream", "--mode", mode.as_str()),
            Job::Remember(t) => words2("remember", t.as_str()),
            Job::Recall(q) => words4("recall", q.as_str(), "--top-k", "5"),
            Job::Forget(q) => words2("forget", q.as_str()),
            Job::Pass { args, .. } => copied(args),
        }
    }

    /// The time limit of the job in seconds ([`job_secs`]).
    pub fn secs(&self) -> (r: u64)
        ensures
            r == job_secs(self@),
    {
        match self {
            Job::Dream(_) => 300,
            Job::Constellation => 30,
            Job::Radio => 15,
            Job::Pass { secs, .. } => *secs,
            _ => 60,
        }
    }
}

/// What came of something that was asked for.
pub enum Answer<T> {
    /// Nothing yet.
    Waiting,
    /// This.
    Got(T),
    /// Nothing, and nothing will come.
    Lost,
}

/// One thing to do, in the order in which it is asked.
pub enum Action {
    /// Start the agent, and report how that went together with the turn.
    SpawnAgent { mode: String, model: String, turn: String },
    /// Write one line to the agent.
    SendAgent(String),
    /// End the agent and let go of its pipes.
    KillAgent,
    /// Start the bus stream, and report how that went.
    SpawnBus,
    /// End the bus stream and let go of its channels.
    KillBus,
    /// Run a command in the background, and report how it ended.
    Run(Job),
    /// Poll the constellation and the radio in the background.
    LoadCosmos,
    /// Start the chat partner in the background.
    SpawnChat,
    /// Write one line to the chat partner.
    SendChat(String),
    /// See whether a plugin can be run, and report that.
    ProbePlugin { binary: String, prompt: String },
    /// Run a plugin in the background, its output streaming in.
    RunPlugin { binary: String, prompt: String },
}

/// What an [`Action`] says.
pub ghost enum ActionModel {
    SpawnAgent { mode: Seq<char>, model: Seq<char>, turn: Seq<char> },
    SendAgent(Seq<char>),
    KillAgent,
    SpawnBus,
    KillBus,
    Run(JobModel),
    LoadCosmos,
    SpawnChat,
    SendChat(Seq<char>),
    ProbePlugin { binary: Seq<char>, prompt: Seq<char> },
    RunPlugin { binary: Seq<char>, prompt: Seq<char> },
}

impl View for Action {
    type V = ActionModel;

    open spec fn view(&self) -> ActionModel {
        match *self {
            Action::SpawnAgent { mode, model, turn } => ActionModel::SpawnAgent {
                mode: mode@,
                model: model@,
                turn: turn@,
            },
            Action::SendAgent(t) => ActionModel::SendAgent(t@),
            Action::KillAgent => ActionModel::KillAgent,
            Action::SpawnBus => ActionModel::SpawnBus,
            Action::KillBus => ActionModel::KillBus,
            Action::Run(j) => ActionModel::Run(j@),
            Action::LoadCosmos => ActionModel::LoadCosmos,
            Action::SpawnChat => ActionModel::SpawnChat,
            Action::SendChat(t) => ActionModel::SendChat(t@),
            Action::ProbePlugin { binary, prompt } => ActionModel::ProbePlugin {
                binary: binary@,
                prompt: prompt@,
            },
            Action::RunPlugin { binary, prompt } => ActionModel::RunPlugin {
                binary: binary@,
                prompt: prompt@,
            },
        }
    }
}

/// What each of the actions says.
pub open spec fn actions(v: Seq<Action>) -> Seq<ActionModel> {
    v.map_values(|a: Action| a@)
}

/// Appends one action.
pub(crate) fn emit(out: &mut Vec<Action>, a: Action)
    ensures
        actions(final(out)@) == actions(old(out)@).push(a@),
{
    out.push(a);
    assert(actions(out@) =~= actions(old(out)@).push(a@));
}

} // verus!
