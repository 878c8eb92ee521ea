//! What holds of the bus: what its frames say, and what they do.

use vstd::prelude::*;
use crate::action::{ActionModel, Answer, JobModel};
use crate::bus::{
    by_id, is_fresh, is_kept, law_news_replaces_one_agent, law_only_silent_agents_are_dropped,
    lemma_frames_wf, BusModel, BusSpawn, BusStatus, DreamRunModel,
};
use crate::json::{json_read, json_written, member, number_fixed, number_signed, Tree};
use crate::laws::fields::{is_count_under, is_number_under, is_text_under, is_truth_under};
use crate::laws::words::{all_white, law_trim_undoes_padding, neat};
use crate::payload::{
    bus_frame, bus_line_frame, dream_in, payload_bits, payload_line, snapshot_in, time_column,
    BusFrameModel, BusLineModel, SnapshotModel,
};
use crate::text::{cut, join, starts};

verus! {

/// A dream has the figures of its payload, each under its own name.
pub proof fn law_dream_has_its_figures(ts_ms: i64, t: Tree)
    requires
        t is Object,
    ensures
        ({
            let d = dream_in(ts_ms, t)->Some_0;
            &&& dream_in(ts_ms, t) is Some && d.ts_ms == ts_ms
            &&& is_text_under(t, "agent_id"@, "?"@, d.agent_id)
            &&& is_count_under(t, "cycles"@, d.cycles)
            &&& is_count_under(t, "memories_strengthened"@, d.strengthened)
            &&& is_count_under(t, "memories_pruned"@, d.pruned)
            &&& is_count_under(t, "new_connections"@, d.new_connections)
            &&& is_count_under(t, "hallucinations_created"@, d.hallucinations)
            &&& is_number_under(t, "consciousness_before"@, d.consciousness_before)
            &&& is_number_under(t, "consciousness_after"@, d.consciousness_after)
            &&& is_truth_under(t, "emerged"@, d.emerged)
        }),
{
}

/// A phase has the figures of its payload, each under its own name, and was seen now. Its
/// angle is `theta`, or `phase` where there is none.
pub proof fn law_phase_has_its_figures(subject: Seq<char>, t: Tree, id: Seq<char>, now: u64)
    requires
        t is Object,
        member(t, "agent_id"@) == Some(Tree::Text(id)),
    ensures
        ({
            let a = snapshot_in(subject, t, now)->Some_0;
            &&& snapshot_in(subject, t, now) is Some
            &&& a.agent_id == id && a.last_seen == now
            &&& member(t, "theta"@) is Some ==> is_number_under(t, "theta"@, a.theta)
            &&& member(t, "theta"@) is None ==> is_number_under(t, "phase"@, a.theta)
            &&& is_number_under(t, "phi"@, a.phi)
            &&& is_number_under(t, "coherence"@, a.coherence)
            &&& is_number_under(t, "order_parameter"@, a.order_parameter)
            &&& is_text_under(t, "handedness"@, "achiral"@, a.handedness)
            &&& is_count_under(t, "memory_count"@, a.memory_count)
        }),
{
}

/// A phase without a name in it is that of the agent that its subject names.
pub proof fn law_subject_names_the_agent(id: Seq<char>, t: Tree, now: u64)
    requires
        t is Object,
        member(t, "agent_id"@) is None,
    ensures
        snapshot_in("QUEEN.phase."@ + id, t, now) is Some,
        snapshot_in("QUEEN.phase."@ + id, t, now)->Some_0.agent_id == id,
{
    let s = "QUEEN.phase."@ + id;
    let p = "QUEEN.phase."@;
    assert(s.subrange(0, p.len() as int) =~= p);
    assert(s.subrange(p.len() as int, s.len() as int) =~= id);
}

/// A frame has the time and the subject of its document. It brings news of an agent only on
/// a phase subject, and a dream only on the subject of dreams.
pub proof fn law_frame_has_its_subject(t: Tree, now: u64, subject: Seq<char>, payload: Tree)
    requires
        member(t, "subject"@) == Some(Tree::Text(subject)),
        member(t, "payload"@) == Some(payload),
    ensures
        ({
            let f = bus_frame(t, now);
            &&& f.line.subject == subject
            &&& f.line.summary == payload_line(payload)
            &&& member(t, "ts"@) matches Some(Tree::Number(n)) ==> f.line.ts_ms == (
            match number_signed(n) {
                Some(i) => i,
                None => 0,
            })
            &&& member(t, "ts"@) is None ==> f.line.ts_ms == 0
            &&& starts(subject, "QUEEN.phase."@) ==> f.agent == snapshot_in(subject, payload, now)
            &&& !starts(subject, "QUEEN.phase."@) ==> f.agent is None
            &&& subject == "KANNAKA.dreams"@ ==> f.dream == dream_in(f.line.ts_ms, payload)
            &&& subject != "KANNAKA.dreams"@ ==> f.dream is None
        }),
{
}

/// A line of the bus is the document that it spells, whatever white space stands round it;
/// a blank line and one that spells no document are passed over.
pub proof fn law_lines_of_the_bus_are_documents(
    a: Seq<char>,
    s: Seq<char>,
    b: Seq<char>,
    now: u64,
)
    requires
        all_white(a),
        all_white(b),
        neat(s),
    ensures
        s.len() == 0 ==> bus_line_frame(a + s + b, now) is None,
        s.len() > 0 && json_read(s) is Ok ==> bus_line_frame(a + s + b, now) == Some(
            bus_frame(json_read(s)->Ok_0, now),
        ),
        json_read(s) is Err ==> bus_line_frame(a + s + b, now) is None,
{
    law_trim_undoes_padding(a, s, b);
}

/// Whether the payload `t` has a number under `key` that is written as `s` to three digits.
pub open spec fn is_written_under(t: Tree, key: Seq<char>, s: Seq<char>) -> bool {
    match member(t, key) {
        Some(Tree::Number(n)) => number_fixed(n, 3) == Some(s),
        _ => false,
    }
}

/// A payload is told by what it holds of the known things, each under its sign, in their
/// order: the agent, its angle, the two figures, the level, the content up to 60 characters
/// and the event.
pub proof fn law_payload_tells_what_it_holds(
    t: Tree,
    agent: Seq<char>,
    theta: Seq<char>,
    phi: Seq<char>,
    xi: Seq<char>,
    level: Seq<char>,
    content: Seq<char>,
    event: Seq<char>,
)
    requires
        t is Object,
        member(t, "agent_id"@) == Some(Tree::Text(agent)),
        is_written_under(t, "theta"@, theta),
        is_written_under(t, "phi"@, phi),
        is_written_under(t, "xi"@, xi),
        member(t, "consciousness_level"@) == Some(Tree::Text(level)),
        member(t, "content"@) == Some(Tree::Text(content)),
        member(t, "event"@) == Some(Tree::Text(event)),
    ensures
        payload_line(t) == join(
            seq![
                "agent="@ + agent,
                "\u{3b8}="@ + theta,
                "\u{3a6}="@ + phi,
                "\u{39e}="@ + xi,
                "level="@ + level,
                "\""@ + (cut(content, 60) + "\""@),
                "event="@ + event,
            ],
            " \u{b7} "@,
        ),
{
    assert(payload_bits(t) =~= seq![
        "agent="@ + agent,
        "\u{3b8}="@ + theta,
        "\u{3a6}="@ + phi,
        "\u{39e}="@ + xi,
        "level="@ + level,
        "\""@ + (cut(content, 60) + "\""@),
        "event="@ + event,
    ]);
}

/// Whether one of the known things is not in the payload.
pub open spec fn lacks(t: Tree, key: Seq<char>) -> bool {
    member(t, key) is None
}

/// A payload that holds one of the known things is told by that alone.
pub proof fn law_payload_tells_no_more_than_it_holds(t: Tree, s: Seq<char>)
    requires
        t is Object,
    ensures
        member(t, "agent_id"@) == Some(Tree::Text(s)) && lacks(t, "theta"@) && lacks(t, "phi"@)
            && lacks(t, "xi"@) && lacks(t, "consciousness_level"@) && lacks(t, "content"@)
            && lacks(t, "event"@) ==> payload_line(t) == "agent="@ + s,
        lacks(t, "agent_id"@) && is_written_under(t, "theta"@, s) && lacks(t, "phi"@) && lacks(
            t,
            "xi"@,
        ) && lacks(t, "consciousness_level"@) && lacks(t, "content"@) && lacks(t, "event"@)
            ==> payload_line(t) == "\u{3b8}="@ + s,
        lacks(t, "agent_id"@) && lacks(t, "theta"@) && is_written_under(t, "phi"@, s) && lacks(
            t,
            "xi"@,
        ) && lacks(t, "consciousness_level"@) && lacks(t, "content"@) && lacks(t, "event"@)
            ==> payload_line(t) == "\u{3a6}="@ + s,
        lacks(t, "agent_id"@) && lacks(t, "theta"@) && lacks(t, "phi"@) && is_written_under(
            t,
            "xi"@,
            s,
        ) && lacks(t, "consciousness_level"@) && lacks(t, "content"@) && lacks(t, "event"@)
            ==> payload_line(t) == "\u{39e}="@ + s,
        lacks(t, "agent_id"@) && lacks(t, "theta"@) && lacks(t, "phi"@) && lacks(t, "xi"@)
            && member(t, "consciousness_level"@) == Some(Tree::Text(s)) && lacks(t, "content"@)
            && lacks(t, "event"@) ==> payload_line(t) == "level="@ + s,
        lacks(t, "agent_id"@) && lacks(t, "theta"@) && lacks(t, "phi"@) && lacks(t, "xi"@)
            && lacks(t, "consciousness_level"@) && member(t, "content"@) == Some(Tree::Text(s))
            && lacks(t, "event"@) ==> payload_line(t) == "\""@ + (cut(s, 60) + "\""@),
        lacks(t, "agent_id"@) && lacks(t, "theta"@) && lacks(t, "phi"@) && lacks(t, "xi"@)
            && lacks(t, "consciousness_level"@) && lacks(t, "content"@) && member(t, "event"@)
            == Some(Tree::Text(s)) ==> payload_line(t) == "event="@ + s,
        lacks(t, "agent_id"@) && lacks(t, "theta"@) && lacks(t, "phi"@) && lacks(t, "xi"@)
            && lacks(t, "consciousness_level"@) && lacks(t, "content"@) && lacks(t, "event"@)
            ==> payload_line(t) == cut(json_written(t), 120),
{
}

/// A payload that is a text is shown as it is, and any other that is no object as it is
/// written, both up to 120 characters.
pub proof fn law_plain_payload_is_shown(t: Tree)
    ensures
        t is Text ==> payload_line(t) == cut(t->Text_0, 120),
        t !is Text && t !is Object ==> payload_line(t) == cut(json_written(t), 120),
{
}

/// A frame without a time has a blank in the time column, and so has one whose time is none
/// of the calendar's; else the clock stands there.
pub proof fn law_no_time_is_blank(ts_ms: i64, clock: Seq<char>)
    ensures
        time_column(0, Some(clock)) == "        "@,
        time_column(ts_ms, None) == "        "@,
        ts_ms != 0 ==> time_column(ts_ms, Some(clock)) == clock,
{
}

/// Whether `new` is `old` with one more line at its end: where there is room no line is
/// lost, else only the oldest one.
pub open spec fn adds_bus_line(
    old: Seq<BusLineModel>,
    new: Seq<BusLineModel>,
    l: BusLineModel,
) -> bool {
    &&& new.len() > 0 && new.last() == l
    &&& old.len() < 500 ==> new.drop_last() == old
    &&& old.len() == 500 ==> new.drop_last() == old.skip(1)
}

proof fn lemma_bus_line(b: BusModel, l: BusLineModel)
    requires
        b.wf(),
    ensures
        adds_bus_line(b.lines, b.line(l).lines, l),
{
    let all = b.lines.push(l);
    if b.lines.len() < 500 {
        assert(all.drop_last() =~= b.lines);
    } else {
        assert(b.line(l).lines =~= all.skip(1));
        assert(all.skip(1).drop_last() =~= b.lines.skip(1));
    }
}

/// A frame is shown at the end of the lines; its dream goes before the others, of which no
/// more than 30 are kept. What it does not bring stays.
pub proof fn law_frame_is_kept(b: BusModel, f: BusFrameModel)
    requires
        b.wf(),
    ensures
        ({
            let r = b.frame(f);
            &&& adds_bus_line(b.lines, r.lines, f.line)
            &&& f.dream is None ==> r.dreams == b.dreams
            &&& f.agent is None ==> r.agents == b.agents
            &&& f.dream matches Some(d) ==> r.dreams.len() > 0 && r.dreams[0] == d && (
            b.dreams.len() < 30 ==> r.dreams.skip(1) == b.dreams) && (b.dreams.len() == 30
                ==> r.dreams.skip(1) == b.dreams.drop_last())
            &&& r == (BusModel { lines: r.lines, dreams: r.dreams, agents: r.agents, ..b })
        }),
{
    lemma_bus_line(b, f.line);
    if let Some(d) = f.dream {
        let all = seq![d] + b.dreams;
        let r = b.frame(f).dreams;
        assert(all.len() == b.dreams.len() + 1);
        if b.dreams.len() < 30 {
            assert(r =~= all);
            assert(all.skip(1) =~= b.dreams);
        } else {
            assert(r =~= all.take(30));
            assert(r.skip(1) =~= b.dreams.drop_last());
        }
    }
}

/// The frames of a poll are taken in their order, each exactly once.
pub proof fn law_frames_are_taken_in_order(b: BusModel, fs: Seq<BusFrameModel>, f: BusFrameModel)
    ensures
        b.frames(Seq::empty()) == b,
        b.frames(fs.push(f)) == b.frames(fs).frame(f),
{
    assert(fs.push(f).drop_last() =~= fs);
}

/// The first frames turn a connecting bus into a streaming one; a tail that is gone fails
/// it. Else its status stays.
pub proof fn law_bus_streams_with_its_first_frame(b: BusModel, fs: Seq<BusFrameModel>, now: u64)
    ensures
        b.polled(fs, true, now).status == BusStatus::Failed,
        b.status == BusStatus::Connecting && fs.len() > 0 ==> b.polled(fs, false, now).status
            == BusStatus::Streaming,
        b.status != BusStatus::Connecting || fs.len() == 0 ==> b.polled(fs, false, now).status
            == b.status,
        forall|gone: bool|
            (#[trigger] b.polled(fs, gone, now)).lines == b.frames(fs).lines && b.polled(
                fs,
                gone,
                now,
            ).dreams == b.frames(fs).dreams && b.polled(fs, gone, now).child == b.child && b.polled(
                fs,
                gone,
                now,
            ).dream_run == b.dream_run && b.polled(fs, gone, now).dream_pending
                == b.dream_pending,
{
    lemma_frames_keep(b, fs);
}

proof fn lemma_frames_keep(b: BusModel, fs: Seq<BusFrameModel>)
    ensures
        b.frames(fs).child == b.child,
        b.frames(fs).dream_run == b.dream_run,
        b.frames(fs).dream_pending == b.dream_pending,
        b.frames(fs).status == b.status,
    decreases fs.len(),
{
    if fs.len() > 0 {
        lemma_frames_keep(b, fs.drop_last());
    }
}

/// After a poll the agents are those that the frames left, without the ones that were silent
/// for twenty minutes.
pub proof fn law_poll_drops_silent_agents(
    b: BusModel,
    fs: Seq<BusFrameModel>,
    gone: bool,
    a: SnapshotModel,
    now: u64,
)
    requires
        b.wf(),
        a.last_seen <= now,
    ensures
        b.polled(fs, gone, now).agents.contains(a) <==> b.frames(fs).agents.contains(a) && now
            - a.last_seen < 1200 * 1_000_000_000,
        b.polled(Seq::empty(), gone, now).agents.contains(a) ==> b.agents.contains(a),
{
    lemma_frames_wf(b, fs);
    law_only_silent_agents_are_dropped(b.frames(fs).agents, now);
    law_only_silent_agents_are_dropped(b.agents, now);
}

/// News of an agent takes the place of what was known of it, and of nothing else.
pub proof fn law_frame_brings_its_agent(b: BusModel, f: BusFrameModel, a: SnapshotModel)
    requires
        b.wf(),
        f.agent == Some(a),
    ensures
        by_id(b.frame(f).agents) == by_id(b.agents).insert(a.agent_id, a),
{
    law_news_replaces_one_agent(b.agents, a);
}

/// An agent is fresh for two minutes after it was seen, and is kept for twenty.
pub proof fn law_agents_fade(a: SnapshotModel, now: u64)
    requires
        now >= a.last_seen,
    ensures
        is_fresh(a, now) <==> now < a.last_seen + 120 * 1_000_000_000,
        is_kept(a, now) <==> now < a.last_seen + 1200 * 1_000_000_000,
        is_fresh(a, now) ==> is_kept(a, now),
{
}

/// The tail is started once, and the bus connects meanwhile; a failed one can be started
/// anew.
pub proof fn law_tail_is_started_once(b: BusModel)
    ensures
        b.child ==> b.start_actions().len() == 0 && b.started() == b,
        !b.child ==> b.start_actions() == seq![ActionModel::SpawnBus] && b.started() == (BusModel {
            status: BusStatus::Connecting,
            ..b
        }),
        b.spawned(BusSpawn::Up).child,
        b.spawned(BusSpawn::Up).start_actions().len() == 0,
        b.spawned(BusSpawn::NoOutput).status == BusStatus::Failed,
        b.spawned(BusSpawn::NoOutput).child == b.child,
        b.restarted().status == BusStatus::Connecting,
        !b.restarted().child && b.restarted().lines == b.lines && b.restarted().agents == b.agents
            && b.restarted().dreams == b.dreams,
{
}

/// A tail that could not be started fails the bus, and a line says why.
pub proof fn law_failed_tail_says_why(b: BusModel, error: String, ts_ms: i64)
    requires
        b.wf(),
    ensures
        ({
            let r = b.spawned(BusSpawn::Failed { error, ts_ms });
            &&& r.status == BusStatus::Failed && r.child == b.child
            &&& adds_bus_line(
                b.lines,
                r.lines,
                BusLineModel {
                    ts_ms,
                    subject: "tui.error"@,
                    summary: "could not spawn 'kannaka swarm tail': "@ + error@,
                },
            )
        }),
{
    lemma_bus_line(
        b,
        BusLineModel {
            ts_ms,
            subject: "tui.error"@,
            summary: "could not spawn 'kannaka swarm tail': "@ + error@,
        },
    );
}

/// A dream runs in the mode that was asked for from the time at which it was asked for; its
/// end is kept with that mode, how long it took and what it said, or with its error.
pub proof fn law_dream_runs_and_ends(
    b: BusModel,
    mode: Seq<char>,
    then: u64,
    now: u64,
    summary: String,
    error: String,
)
    requires
        !b.dream_pending,
        then <= now,
    ensures
        b.dream_actions(mode) == seq![ActionModel::Run(JobModel::Dream(mode))],
        b.dreaming(mode, then) == (BusModel {
            dream_pending: true,
            dream_run: DreamRunModel::Running { mode, started: then },
            ..b
        }),
        b.dreaming(mode, then).dreamt(Answer::Got(Ok(summary)), now) == (BusModel {
            dream_run: DreamRunModel::Done { mode, took: (now - then) as u64, summary: summary@ },
            ..b
        }),
        b.dreaming(mode, then).dreamt(Answer::Got(Err(error)), now) == (BusModel {
            dream_run: DreamRunModel::Failed { mode, error: error@ },
            ..b
        }),
        b.dreaming(mode, then).dreamt(Answer::Waiting, now) == b.dreaming(mode, then),
        !b.dreaming(mode, then).dreamt(Answer::Lost, now).dream_pending,
{
}

} // verus!
