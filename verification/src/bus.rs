//! The live bus: its lines, the agents heard on it, the dreams reported on it,
//! and the dream that runs here.

use vstd::prelude::*;
use crate::action::{actions, emit, Action, ActionModel, Answer, Job, JobModel};
use crate::buffer::{first_of, keep_last, last_of, lemma_first_of_map, lemma_last_of_map};
use crate::clock::{elapsed, since};
use crate::payload::{
    AgentSnapshot, BusFrame, BusFrameModel, BusLine, BusLineModel, DreamEvent, DreamModel,
    SnapshotModel,
};
use crate::reports::outcome;
use crate::text::{
    before, cat2, earlier, lemma_before_chain, lemma_before_total, same,
};

verus! {

/// The most lines of the bus that are kept.
pub const BUS_BACKLOG_CAP: usize = 500;

/// The most dreams that are kept.
pub const DREAM_HISTORY_CAP: usize = 30;

/// An agent heard from within this time is shown as present, in nanoseconds.
pub const AGENT_FRESH_WINDOW: u64 = 120_000_000_000;

/// An agent not heard from for this time is dropped, in nanoseconds.
pub const AGENT_EVICT_WINDOW: u64 = 1_200_000_000_000;

/// How the stream is.
#[derive(Clone, Copy, PartialEq, Eq, Structural, Debug)]
pub enum BusStatus {
    Off,
    Connecting,
    Streaming,
    Failed,
}

/// The dream that was last run here. Times are in nanoseconds.
pub enum DreamRun {
    Idle,
    Running { mode: String, started: u64 },
    Done { mode: String, took: u64, summary: String },
    Failed { mode: String, error: String },
}

/// What a [`DreamRun`] says.
pub ghost enum DreamRunModel {
    Idle,
    Running { mode: Seq<char>, started: u64 },
    Done { mode: Seq<char>, took: u64, summary: Seq<char> },
    Failed { mode: Seq<char>, error: Seq<char> },
}

impl View for DreamRun {
    type V = DreamRunModel;

    open spec fn view(&self) -> DreamRunModel {
        match *self {
            DreamRun::Idle => DreamRunModel::Idle,
            DreamRun::Running { mode, started } => DreamRunModel::Running { mode: mode@, started },
            DreamRun::Done { mode, took, summary } => DreamRunModel::Done {
                mode: mode@,
                took,
                summary: summary@,
            },
            DreamRun::Failed { mode, error } => DreamRunModel::Failed {
                mode: mode@,
                error: error@,
            },
        }
    }
}

/// How the start of the stream went.
pub enum BusSpawn {
    /// It could not be started; the time is in milliseconds of the Unix epoch.
    Failed { error: String, ts_ms: i64 },
    /// It runs, but its output cannot be read.
    NoOutput,
    /// It runs.
    Up,
}

/// The state of the bus.
pub struct Bus {
    /// The lines, the newest last.
    pub lines: Vec<BusLine>,
    pub status: BusStatus,
    /// Whether the stream runs.
    pub child: bool,
    /// The agents, in the order of their ids.
    pub agents: Vec<AgentSnapshot>,
    /// The dreams, the newest first.
    pub dreams: Vec<DreamEvent>,
    pub dream_run: DreamRun,
    /// Whether a dream runs here.
    pub dream_pending: bool,
}

/// What a [`Bus`] says.
#[verifier::ext_equal]
pub ghost struct BusModel {
    pub lines: Seq<BusLineModel>,
    pub status: BusStatus,
    pub child: bool,
    pub agents: Seq<SnapshotModel>,
    pub dreams: Seq<DreamModel>,
    pub dream_run: DreamRunModel,
    pub dream_pending: bool,
}

/// What each of the lines says.
pub open spec fn bus_line_models(v: Seq<BusLine>) -> Seq<BusLineModel> {
    v.map_values(|l: BusLine| l@)
}

/// What each of the snapshots says.
pub open spec fn snapshot_models(v: Seq<AgentSnapshot>) -> Seq<SnapshotModel> {
    v.map_values(|a: AgentSnapshot| a@)
}

/// What each of the dreams says.
pub open spec fn dream_models(v: Seq<DreamEvent>) -> Seq<DreamModel> {
    v.map_values(|d: DreamEvent| d@)
}

/// What each of the frames says.
pub open spec fn frame_models(v: Seq<BusFrame>) -> Seq<BusFrameModel> {
    v.map_values(|f: BusFrame| f@)
}

impl View for Bus {
    type V = BusModel;

    open spec fn view(&self) -> BusModel {
        BusModel {
            lines: bus_line_models(self.lines@),
            status: self.status,
            child: self.child,
            agents: snapshot_models(self.agents@),
            dreams: dream_models(self.dreams@),
            dream_run: self.dream_run@,
            dream_pending: self.dream_pending,
        }
    }
}

/// The agents, in order, with the latest news of one of them.
pub open spec fn with_agent(agents: Seq<SnapshotModel>, a: SnapshotModel) -> Seq<SnapshotModel>
    decreases agents.len(),
{
    if agents.len() == 0 {
        seq![a]
    } else if agents.last().agent_id == a.agent_id {
        agents.drop_last().push(a)
    } else if before(agents.last().agent_id, a.agent_id) {
        agents.push(a)
    } else {
        with_agent(agents.drop_last(), a).push(agents.last())
    }
}

/// Whether the agents stand in the order of their ids, each of them once.
pub open spec fn in_order(agents: Seq<SnapshotModel>) -> bool {
    forall|i: int, j: int|
        0 <= i < j < agents.len() ==> before(
            (#[trigger] agents[i]).agent_id,
            (#[trigger] agents[j]).agent_id,
        )
}

/// Whether an agent was heard from lately enough to be kept.
pub open spec fn is_kept(a: SnapshotModel, now: u64) -> bool {
    since(now, a.last_seen) < AGENT_EVICT_WINDOW
}

/// The agents that were heard from lately enough to be kept.
pub open spec fn kept_agents(agents: Seq<SnapshotModel>, now: u64) -> Seq<SnapshotModel>
    decreases agents.len(),
{
    if agents.len() == 0 {
        agents
    } else {
        let rest = kept_agents(agents.drop_last(), now);
        if is_kept(agents.last(), now) {
            rest.push(agents.last())
        } else {
            rest
        }
    }
}

/// Whether an agent was heard from lately enough to be shown as present.
pub open spec fn is_fresh(a: SnapshotModel, now: u64) -> bool {
    since(now, a.last_seen) < AGENT_FRESH_WINDOW
}

impl BusModel {
    /// Before the stream was started.
    pub open spec fn initial() -> BusModel {
        BusModel {
            lines: Seq::empty(),
            status: BusStatus::Off,
            child: false,
            agents: Seq::empty(),
            dreams: Seq::empty(),
            dream_run: DreamRunModel::Idle,
            dream_pending: false,
        }
    }

    /// Whether the buffers keep to their bounds and the agents to their order.
    pub open spec fn wf(self) -> bool {
        &&& self.lines.len() <= BUS_BACKLOG_CAP
        &&& self.dreams.len() <= DREAM_HISTORY_CAP
        &&& in_order(self.agents)
    }

    /// After the stream was asked for.
    pub open spec fn started(self) -> BusModel {
        if self.child {
            self
        } else {
            BusModel { status: BusStatus::Connecting, ..self }
        }
    }

    /// What the start asks for: the stream, where it does not run.
    pub open spec fn start_actions(self) -> Seq<ActionModel> {
        if self.child {
            Seq::empty()
        } else {
            seq![ActionModel::SpawnBus]
        }
    }

    /// After the stream was torn down and asked for anew.
    pub open spec fn restarted(self) -> BusModel {
        BusModel { child: false, status: BusStatus::Connecting, ..self }
    }

    /// With one more line.
    pub open spec fn line(self, l: BusLineModel) -> BusModel {
        BusModel { lines: last_of(self.lines.push(l), BUS_BACKLOG_CAP as nat), ..self }
    }

    /// After the start of the stream.
    pub open spec fn spawned(self, o: BusSpawn) -> BusModel {
        match o {
            BusSpawn::Failed { error, ts_ms } => BusModel {
                status: BusStatus::Failed,
                ..self.line(
                    BusLineModel {
                        ts_ms,
                        subject: "tui.error"@,
                        summary: "could not spawn 'kannaka swarm tail': "@ + error@,
                    },
                )
            },
            BusSpawn::NoOutput => BusModel { status: BusStatus::Failed, ..self },
            BusSpawn::Up => BusModel { child: true, ..self },
        }
    }

    /// With one more frame.
    pub open spec fn frame(self, f: BusFrameModel) -> BusModel {
        BusModel {
            agents: match f.agent {
                Some(a) => with_agent(self.agents, a),
                None => self.agents,
            },
            dreams: match f.dream {
                Some(d) => first_of(seq![d] + self.dreams, DREAM_HISTORY_CAP as nat),
                None => self.dreams,
            },
            ..self.line(f.line)
        }
    }

    /// With more frames.
    pub open spec fn frames(self, fs: Seq<BusFrameModel>) -> BusModel
        decreases fs.len(),
    {
        if fs.len() == 0 {
            self
        } else {
            self.frames(fs.drop_last()).frame(fs.last())
        }
    }

    /// After the frames that came, and the end of the stream where `gone`.
    pub open spec fn polled(self, fs: Seq<BusFrameModel>, gone: bool, now: u64) -> BusModel {
        let s = self.frames(fs);
        BusModel {
            status: if gone {
                BusStatus::Failed
            } else if fs.len() > 0 && self.status == BusStatus::Connecting {
                BusStatus::Streaming
            } else {
                self.status
            },
            agents: kept_agents(s.agents, now),
            ..s
        }
    }

    /// After a dream was asked for.
    pub open spec fn dreaming(self, mode: Seq<char>, now: u64) -> BusModel {
        if self.dream_pending {
            self
        } else {
            BusModel {
                dream_run: DreamRunModel::Running { mode, started: now },
                dream_pending: true,
                ..self
            }
        }
    }

    /// What a dream asks for: its run, where none is under way.
    pub open spec fn dream_actions(self, mode: Seq<char>) -> Seq<ActionModel> {
        if self.dream_pending {
            Seq::empty()
        } else {
            seq![ActionModel::Run(JobModel::Dream(mode))]
        }
    }

    /// After the dream that ran was asked about.
    pub open spec fn dreamt(self, a: Answer<Result<String, String>>, now: u64) -> BusModel {
        match a {
            Answer::Waiting => self,
            Answer::Lost => BusModel { dream_pending: false, ..self },
            Answer::Got(r) => BusModel {
                dream_pending: false,
                dream_run: match self.dream_run {
                    DreamRunModel::Running { mode, started } => match outcome(r) {
                        Ok(summary) => DreamRunModel::Done {
                            mode,
                            took: since(now, started),
                            summary,
                        },
                        Err(error) => DreamRunModel::Failed { mode, error },
                    },
                    other => other,
                },
                ..self
            },
        }
    }
}

/// Puts the latest news of an agent among the others.
fn note_agent(agents: &mut Vec<AgentSnapshot>, a: AgentSnapshot)
    ensures
        snapshot_models(final(agents)@) == with_agent(snapshot_models(old(agents)@), a@),
{
    let ghost all = snapshot_models(agents@);
    let ghost target = with_agent(all, a@);
    let mut i: usize = agents.len();
    assert(all.take(i as int) =~= all);
    assert(all.skip(i as int) =~= Seq::<SnapshotModel>::empty());
    while i > 0
        invariant
            i <= agents@.len(),
            agents@ == old(agents)@,
            all == snapshot_models(agents@),
            target == with_agent(all, a@),
            target == with_agent(all.take(i as int), a@) + all.skip(i as int),
        decreases i,
    {
        let ghost part = all.take(i as int);
        assert(part.last() == agents@[i - 1]@);
        assert(part.drop_last() =~= all.take(i - 1));
        if same(agents[i - 1].agent_id.as_str(), a.agent_id.as_str()) {
            agents.set(i - 1, a);
            assert(snapshot_models(agents@) =~= target);
            return;
        }
        if earlier(agents[i - 1].agent_id.as_str(), a.agent_id.as_str()) {
            agents.insert(i, a);
            assert(snapshot_models(agents@) =~= target);
            return;
        }
        assert(all.skip(i - 1) =~= seq![all[i - 1]] + all.skip(i as int));
        assert(target =~= with_agent(all.take(i - 1), a@) + all.skip(i - 1));
        i = i - 1;
    }
    assert(all.take(0) =~= Seq::<SnapshotModel>::empty());
    agents.insert(0, a);
    assert(snapshot_models(agents@) =~= target);
}

/// Drops the agents that were not heard from lately.
fn drop_silent(agents: Vec<AgentSnapshot>, now: u64) -> (r: Vec<AgentSnapshot>)
    ensures
        snapshot_models(r@) == kept_agents(snapshot_models(agents@), now),
{
    let ghost given = agents@;
    let ghost all = snapshot_models(agents@);
    let mut out: Vec<AgentSnapshot> = Vec::new();
    assert(all.take(0) =~= Seq::<SnapshotModel>::empty());
    assert(snapshot_models(out@) =~= Seq::<SnapshotModel>::empty());
    for a in it: agents
        invariant
            it.seq() == given,
            all == snapshot_models(given),
            snapshot_models(out@) == kept_agents(all.take(it.index() as int), now),
    {
        let ghost k = it.index() as int;
        let ghost had = out@;
        assert(all.take(k + 1).drop_last() =~= all.take(k));
        assert(all.take(k + 1).last() == a@);
        if elapsed(now, a.last_seen) < AGENT_EVICT_WINDOW {
            out.push(a);
            assert(snapshot_models(out@) =~= snapshot_models(had).push(a@));
        }
    }
    assert(all.take(given.len() as int) =~= all);
    out
}

impl Bus {
    /// The bus before the stream was started.
    pub fn new() -> (r: Bus)
        ensures
            r@ == BusModel::initial(),
    {
        let r = Bus {
            lines: Vec::new(),
            status: BusStatus::Off,
            child: false,
            agents: Vec::new(),
            dreams: Vec::new(),
            dream_run: DreamRun::Idle,
            dream_pending: false,
        };
        assert(r@ =~= BusModel::initial());
        r
    }

    /// Asks for the stream, where it does not run.
    pub fn start_bus(&mut self, out: &mut Vec<Action>)
        ensures
            final(self)@ == old(self)@.started(),
            actions(final(out)@) == actions(old(out)@) + old(self)@.start_actions(),
    {
        if !self.child {
            self.status = BusStatus::Connecting;
            emit(out, Action::SpawnBus);
        }
        assert(actions(out@) =~= actions(old(out)@) + old(self)@.start_actions());
    }

    /// Tears the stream down and asks for a new one.
    pub fn restart_bus(&mut self, out: &mut Vec<Action>)
        ensures
            final(self)@ == old(self)@.restarted(),
            actions(final(out)@) == actions(old(out)@) + seq![
                ActionModel::KillBus,
                ActionModel::SpawnBus,
            ],
    {
        self.child = false;
        emit(out, Action::KillBus);
        self.start_bus(out);
        assert(actions(out@) =~= actions(old(out)@) + seq![
            ActionModel::KillBus,
            ActionModel::SpawnBus,
        ]);
    }

    /// Appends a line, dropping the oldest past the bound.
    fn push_line(&mut self, l: BusLine)
        ensures
            final(self)@ == old(self)@.line(l@),
    {
        self.lines.push(l);
        keep_last(&mut self.lines, BUS_BACKLOG_CAP);
        proof {
            let f = |l: BusLine| l@;
            let all = old(self).lines@.push(l);
            lemma_last_of_map(all, BUS_BACKLOG_CAP as nat, f);
            assert(all.map_values(f) =~= bus_line_models(old(self).lines@).push(l@));
        }
    }

    /// Takes note of how the start of the stream went.
    pub fn bus_spawned(&mut self, o: BusSpawn)
        ensures
            final(self)@ == old(self)@.spawned(o),
    {
        match o {
            BusSpawn::Failed { error, ts_ms } => {
                self.push_line(
                    BusLine {
                        ts_ms,
                        subject: "tui.error".to_owned(),
                        summary: cat2("could not spawn 'kannaka swarm tail': ", error.as_str()),
                    },
                );
                self.status = BusStatus::Failed;
            },
            BusSpawn::NoOutput => {
                self.status = BusStatus::Failed;
            },
            BusSpawn::Up => {
                self.child = true;
            },
        }
    }

    /// Takes in one frame.
    fn take_frame(&mut self, f: BusFrame)
        ensures
            final(self)@ == old(self)@.frame(f@),
    {
        let BusFrame { line, agent, dream } = f;
        self.push_line(line);
        match agent {
            Some(a) => {
                note_agent(&mut self.agents, a);
            },
            None => {},
        }
        match dream {
            Some(d) => {
                let ghost had = self.dreams@;
                self.dreams.insert(0, d);
                let ghost all = self.dreams@;
                if self.dreams.len() > DREAM_HISTORY_CAP {
                    self.dreams.truncate(DREAM_HISTORY_CAP);
                }
                proof {
                    let g = |d: DreamEvent| d@;
                    assert(all.map_values(g) =~= seq![d@] + dream_models(had));
                    lemma_first_of_map(all, DREAM_HISTORY_CAP as nat, g);
                    assert(self.dreams@ =~= first_of(all, DREAM_HISTORY_CAP as nat));
                }
            },
            None => {},
        }
    }

    /// Takes in the frames that came since the last time; `gone` says that there
    /// will be no more. Agents that fell silent are dropped.
    pub fn poll_bus(&mut self, frames: Vec<BusFrame>, gone: bool, now: u64)
        ensures
            final(self)@ == old(self)@.polled(frame_models(frames@), gone, now),
    {
        let ghost given = frames@;
        let ghost all = frame_models(frames@);
        let any = frames.len() > 0;
        assert(all.take(0) =~= Seq::<BusFrameModel>::empty());
        for f in it: frames
            invariant
                it.seq() == given,
                all == frame_models(given),
                self@ == old(self)@.frames(all.take(it.index() as int)),
        {
            let ghost k = it.index() as int;
            assert(all.take(k + 1).drop_last() =~= all.take(k));
            assert(all.take(k + 1).last() == f@);
            self.take_frame(f);
        }
        assert(all.take(given.len() as int) =~= all);
        proof {
            lemma_frames_keep_status(old(self)@, all);
        }
        if gone {
            self.status = BusStatus::Failed;
        } else if any && self.status == BusStatus::Connecting {
            self.status = BusStatus::Streaming;
        }
        let mut agents: Vec<AgentSnapshot> = Vec::new();
        std::mem::swap(&mut agents, &mut self.agents);
        self.agents = drop_silent(agents, now);
    }

    /// Asks for a dream, where none is under way.
    pub fn start_dream(&mut self, mode: &str, now: u64, out: &mut Vec<Action>)
        ensures
            final(self)@ == old(self)@.dreaming(mode@, now),
            actions(final(out)@) == actions(old(out)@) + old(self)@.dream_actions(mode@),
    {
        if !self.dream_pending {
            self.dream_run = DreamRun::Running { mode: mode.to_owned(), started: now };
            self.dream_pending = true;
            emit(out, Action::Run(Job::Dream(mode.to_owned())));
        }
        assert(actions(out@) =~= actions(old(out)@) + old(self)@.dream_actions(mode@));
    }

    /// Takes note of how the dream ended, where it did.
    pub fn poll_dream(&mut self, a: Answer<Result<String, String>>, now: u64)
        ensures
            final(self)@ == old(self)@.dreamt(a, now),
    {
        match a {
            Answer::Waiting => {},
            Answer::Lost => {
                self.dream_pending = false;
            },
            Answer::Got(r) => {
                self.dream_pending = false;
                let mut run = DreamRun::Idle;
                std::mem::swap(&mut run, &mut self.dream_run);
                self.dream_run = match run {
                    DreamRun::Running { mode, started } => match r {
                        Ok(summary) => DreamRun::Done {
                            mode,
                            took: elapsed(now, started),
                            summary,
                        },
                        Err(error) => DreamRun::Failed { mode, error },
                    },
                    other => other,
                };
            },
        }
    }
}

proof fn lemma_frames_keep_status(b: BusModel, fs: Seq<BusFrameModel>)
    ensures
        b.frames(fs).status == b.status,
    decreases fs.len(),
{
    if fs.len() > 0 {
        lemma_frames_keep_status(b, fs.drop_last());
    }
}

/// The agents by their ids.
pub open spec fn by_id(agents: Seq<SnapshotModel>) -> Map<Seq<char>, SnapshotModel>
    decreases agents.len(),
{
    if agents.len() == 0 {
        Map::empty()
    } else {
        by_id(agents.drop_last()).insert(agents.last().agent_id, agents.last())
    }
}

/// The news of an agent replaces what was known of it and leaves the others as
/// they were, in order.
pub proof fn law_news_replaces_one_agent(agents: Seq<SnapshotModel>, a: SnapshotModel)
    requires
        in_order(agents),
    ensures
        in_order(with_agent(agents, a)),
        by_id(with_agent(agents, a)) == by_id(agents).insert(a.agent_id, a),
    decreases agents.len(),
{
    let r = with_agent(agents, a);
    if agents.len() > 0 {
        let rest = agents.drop_last();
        let last = agents.last();
        assert(in_order(rest)) by {
            assert forall|i: int, j: int| 0 <= i < j < rest.len() implies before(
                (#[trigger] rest[i]).agent_id,
                (#[trigger] rest[j]).agent_id,
            ) by {
                assert(agents[i] == rest[i] && agents[j] == rest[j]);
            }
        }
        if last.agent_id == a.agent_id {
            assert(r.drop_last() =~= rest);
            assert(by_id(r) =~= by_id(agents).insert(a.agent_id, a));
            assert forall|i: int, j: int| 0 <= i < j < r.len() implies before(
                (#[trigger] r[i]).agent_id,
                (#[trigger] r[j]).agent_id,
            ) by {
                assert(before(agents[i].agent_id, agents[j].agent_id));
            }
        } else if before(last.agent_id, a.agent_id) {
            assert(r.drop_last() =~= agents);
            assert forall|i: int, j: int| 0 <= i < j < r.len() implies before(
                (#[trigger] r[i]).agent_id,
                (#[trigger] r[j]).agent_id,
            ) by {
                if j == agents.len() {
                    if i < agents.len() - 1 {
                        assert(before(agents[i].agent_id, agents[agents.len() - 1].agent_id));
                        lemma_before_chain(r[i].agent_id, last.agent_id, a.agent_id);
                    }
                } else {
                    assert(before(agents[i].agent_id, agents[j].agent_id));
                }
            }
        } else {
            law_news_replaces_one_agent(rest, a);
            lemma_before_total(last.agent_id, a.agent_id);
            assert(r.drop_last() =~= with_agent(rest, a));
            assert(by_id(r) =~= by_id(agents).insert(a.agent_id, a));
            lemma_with_agent_members(rest, a);
            let w = with_agent(rest, a);
            assert forall|i: int, j: int| 0 <= i < j < r.len() implies before(
                (#[trigger] r[i]).agent_id,
                (#[trigger] r[j]).agent_id,
            ) by {
                if j < w.len() {
                    assert(before(w[i].agent_id, w[j].agent_id));
                } else if w[i] != a {
                    let k = choose|k: int| 0 <= k < rest.len() && rest[k] == w[i];
                    assert(before(agents[k].agent_id, agents[agents.len() - 1].agent_id));
                }
            }
        }
    } else {
        assert(r.drop_last() =~= agents);
    }
}

proof fn lemma_with_agent_members(agents: Seq<SnapshotModel>, a: SnapshotModel)
    ensures
        forall|i: int|
            0 <= i < with_agent(agents, a).len() ==> (#[trigger] with_agent(agents, a)[i]) == a || (
            exists|k: int| 0 <= k < agents.len() && agents[k] == with_agent(agents, a)[i]),
    decreases agents.len(),
{
    let r = with_agent(agents, a);
    if agents.len() > 0 {
        let rest = agents.drop_last();
        lemma_with_agent_members(rest, a);
        let w = with_agent(rest, a);
        assert forall|i: int| 0 <= i < r.len() implies (#[trigger] r[i]) == a || (exists|k: int|
            0 <= k < agents.len() && agents[k] == r[i]) by {
            if agents.last().agent_id == a.agent_id || before(agents.last().agent_id, a.agent_id) {
                if i < agents.len() && r[i] != a {
                    assert(agents[i] == r[i]);
                }
            } else if i < w.len() {
                assert(r[i] == w[i]);
                if w[i] != a {
                    let k = choose|k: int| 0 <= k < rest.len() && rest[k] == w[i];
                    assert(agents[k] == r[i]);
                }
            } else {
                assert(agents[agents.len() - 1] == r[i]);
            }
        }
    }
}

/// Only agents that fell silent are dropped, and the others keep their order.
pub proof fn law_only_silent_agents_are_dropped(agents: Seq<SnapshotModel>, now: u64)
    requires
        in_order(agents),
    ensures
        in_order(kept_agents(agents, now)),
        forall|a: SnapshotModel| #[trigger]
            kept_agents(agents, now).contains(a) <==> agents.contains(a) && is_kept(a, now),
    decreases agents.len(),
{
    let r = kept_agents(agents, now);
    if agents.len() > 0 {
        let rest = agents.drop_last();
        let last = agents.last();
        assert(in_order(rest)) by {
            assert forall|i: int, j: int| 0 <= i < j < rest.len() implies before(
                (#[trigger] rest[i]).agent_id,
                (#[trigger] rest[j]).agent_id,
            ) by {
                assert(agents[i] == rest[i] && agents[j] == rest[j]);
            }
        }
        law_only_silent_agents_are_dropped(rest, now);
        let k = kept_agents(rest, now);
        assert forall|a: SnapshotModel| #[trigger] r.contains(a) <==> agents.contains(a) && is_kept(
            a,
            now,
        ) by {
            assert(agents =~= rest.push(last));
            if agents.contains(a) && is_kept(a, now) {
                let i = agents.index_of(a);
                if i < rest.len() {
                    assert(rest[i] == a);
                    assert(rest.contains(a));
                    assert(k.contains(a));
                    let m = k.index_of(a);
                    assert(r[m] == a);
                } else {
                    assert(r[r.len() - 1] == a);
                }
            }
            if r.contains(a) {
                let m = r.index_of(a);
                if m < k.len() {
                    assert(k[m] == a);
                    assert(k.contains(a));
                    let i = rest.index_of(a);
                    assert(agents[i] == a);
                } else {
                    assert(agents[agents.len() - 1] == a);
                }
            }
        }
        assert forall|i: int, j: int| 0 <= i < j < r.len() implies before(
            (#[trigger] r[i]).agent_id,
            (#[trigger] r[j]).agent_id,
        ) by {
            if j < k.len() {
                assert(before(k[i].agent_id, k[j].agent_id));
            } else {
                assert(k.contains(k[i]));
                let m = rest.index_of(k[i]);
                assert(before(agents[m].agent_id, agents[agents.len() - 1].agent_id));
            }
        }
    }
}

/// Every step keeps the buffers within their bounds and the agents in order.
pub proof fn law_bus_stays_well_formed(b: BusModel)
    requires
        b.wf(),
    ensures
        forall|fs: Seq<BusFrameModel>, g: bool, now: u64| (#[trigger] b.polled(fs, g, now)).wf(),
        forall|o: BusSpawn| (#[trigger] b.spawned(o)).wf(),
        forall|m: Seq<char>, now: u64| (#[trigger] b.dreaming(m, now)).wf(),
        forall|a: Answer<Result<String, String>>, now: u64| (#[trigger] b.dreamt(a, now)).wf(),
        b.started().wf(),
        b.restarted().wf(),
        BusModel::initial().wf(),
{
    assert forall|fs: Seq<BusFrameModel>, g: bool, now: u64| (#[trigger] b.polled(
        fs,
        g,
        now,
    )).wf() by {
        lemma_polled_wf(b, fs, g, now);
    }
}

pub(crate) proof fn lemma_polled_wf(b: BusModel, fs: Seq<BusFrameModel>, gone: bool, now: u64)
    requires
        b.wf(),
    ensures
        b.polled(fs, gone, now).wf(),
{
    lemma_frames_wf(b, fs);
    law_only_silent_agents_are_dropped(b.frames(fs).agents, now);
}

pub(crate) proof fn lemma_frames_wf(b: BusModel, fs: Seq<BusFrameModel>)
    requires
        b.wf(),
    ensures
        b.frames(fs).wf(),
    decreases fs.len(),
{
    if fs.len() > 0 {
        let s = b.frames(fs.drop_last());
        lemma_frames_wf(b, fs.drop_last());
        match fs.last().agent {
            Some(a) => law_news_replaces_one_agent(s.agents, a),
            None => {},
        }
    }
}

/// A dream that runs keeps others from being started until it has ended.
pub proof fn law_one_dream_at_a_time(
    b: BusModel,
    first: Seq<char>,
    second: Seq<char>,
    then: u64,
    now: u64,
    a: Answer<Result<String, String>>,
)
    ensures
        b.dreaming(first, then).dreaming(second, now) == b.dreaming(first, then),
        b.dreaming(first, then).dream_actions(second) == Seq::<ActionModel>::empty(),
        !(a is Waiting) ==> b.dreaming(first, then).dreamt(a, now).dream_actions(second) == seq![
            ActionModel::Run(JobModel::Dream(second)),
        ],
{
}

} // verus!
