//! What holds of the requests of the agent and the keys and lines that answer them.

use vstd::prelude::*;
use crate::action::ActionModel;
use crate::agent::AgentEventModel;
use crate::app::{AppModel, Tab};
use crate::harness::{
    agent_words, approval_frame, exit_frame, frame_tree, mode_frame, user_frame, ApprovalModel,
    Decision, HarnessModel, HarnessStatus, LineModel, SpawnModel,
};
use crate::json::{json_written, Tree};
use crate::keys::{Key, KeyPress, Mods};
use crate::laws::events::adds_row;

verus! {

/// A key pressed by itself.
pub open spec fn plain_key(key: Key) -> KeyPress {
    KeyPress { mods: Mods::Plain, key }
}

/// The document of an answer to the request `id`.
pub open spec fn answer(id: Seq<char>, decision: Seq<char>) -> Tree {
    Tree::Object(
        map![
            "type"@ => Tree::Text("approval"@),
            "id"@ => Tree::Text(id),
            "decision"@ => Tree::Text(decision),
        ],
    )
}

proof fn lemma_keys_differ()
    ensures
        "type"@ != "id"@ && "type"@ != "decision"@ && "id"@ != "decision"@,
        "type"@ != "text"@ && "type"@ != "mode"@,
{
    reveal_strlit("type");
    reveal_strlit("id");
    reveal_strlit("decision");
    reveal_strlit("text");
    reveal_strlit("mode");
    assert("type"@.len() == 4);
    assert("id"@.len() == 2);
    assert("decision"@.len() == 8);
    assert("text"@.len() == 4);
    assert("mode"@.len() == 4);
    assert("type"@[1] != "text"@[1]);
    assert("type"@[0] != "mode"@[0]);
    assert("text"@[0] != "mode"@[0]);
}

/// A frame to the agent is one document: an answer names the request and the decision, a
/// turn carries the user's text whole, a mode its name.
pub proof fn law_frames_say_what_they_carry(id: Seq<char>, text: Seq<char>)
    ensures
        approval_frame(id, Decision::Allow) == json_written(answer(id, "allow"@)),
        approval_frame(id, Decision::AllowAlways) == json_written(answer(id, "allow_always"@)),
        approval_frame(id, Decision::Deny) == json_written(answer(id, "deny"@)),
        user_frame(text) == json_written(
            Tree::Object(map!["type"@ => Tree::Text("user"@), "text"@ => Tree::Text(text)]),
        ),
        mode_frame(text) == json_written(
            Tree::Object(map!["type"@ => Tree::Text("mode"@), "mode"@ => Tree::Text(text)]),
        ),
        exit_frame() == json_written(Tree::Object(map!["type"@ => Tree::Text("exit"@)])),
{
    lemma_keys_differ();
    reveal_with_fuel(frame_tree, 4);
    lemma_answer(id, Decision::Allow, "allow"@);
    lemma_answer(id, Decision::AllowAlways, "allow_always"@);
    lemma_answer(id, Decision::Deny, "deny"@);
    let u = seq![("type"@, "user"@), ("text"@, text)];
    assert(u.drop_last() =~= seq![("type"@, "user"@)]);
    assert(u.drop_last().drop_last() =~= Seq::empty());
    assert(frame_tree(u) =~= map!["type"@ => Tree::Text("user"@), "text"@ => Tree::Text(text)]);
    let m = seq![("type"@, "mode"@), ("mode"@, text)];
    assert(m.drop_last() =~= seq![("type"@, "mode"@)]);
    assert(m.drop_last().drop_last() =~= Seq::empty());
    assert(frame_tree(m) =~= map!["type"@ => Tree::Text("mode"@), "mode"@ => Tree::Text(text)]);
    let e = seq![("type"@, "exit"@)];
    assert(e.drop_last() =~= Seq::empty());
    assert(frame_tree(e) =~= map!["type"@ => Tree::Text("exit"@)]);
}

proof fn lemma_answer(id: Seq<char>, d: Decision, word: Seq<char>)
    requires
        word == crate::harness::decision_word(d),
    ensures
        approval_frame(id, d) == json_written(answer(id, word)),
{
    lemma_keys_differ();
    reveal_with_fuel(frame_tree, 4);
    let f = seq![("type"@, "approval"@), ("id"@, id), ("decision"@, word)];
    assert(f.drop_last() =~= seq![("type"@, "approval"@), ("id"@, id)]);
    assert(f.drop_last().drop_last() =~= seq![("type"@, "approval"@)]);
    assert(f.drop_last().drop_last().drop_last() =~= Seq::empty());
    assert(frame_tree(f) =~= answer(id, word)->Object_0);
}

/// Whether the step from `s` to `r` answers the pending request `p` by `decision`: the
/// answer goes to the agent, the request is gone, a notice says what was decided, and the
/// agent goes on. Nothing else changes.
pub open spec fn answers(
    s: AppModel,
    r: (AppModel, Seq<ActionModel>),
    p: ApprovalModel,
    decision: Seq<char>,
    verb: Seq<char>,
) -> bool {
    &&& r.1 == seq![ActionModel::SendAgent(json_written(answer(p.id, decision)))]
    &&& r.0.harness.pending is None
    &&& r.0.harness.status == HarnessStatus::Thinking
    &&& adds_row(
        s.harness.lines,
        r.0.harness.lines,
        LineModel::Notice("["@ + verb + ": "@ + p.name + " "@ + p.summary + "]"@),
    )
    &&& r.0.harness == (HarnessModel {
        pending: None,
        status: HarnessStatus::Thinking,
        lines: r.0.harness.lines,
        ..s.harness
    })
    &&& r.0 == (AppModel { harness: r.0.harness, ..s })
}

/// Whether a request waits for a key: on the Agent tab, with nothing in the bar.
pub open spec fn waits_for_key(s: AppModel, p: ApprovalModel) -> bool {
    &&& !s.show_help
    &&& s.tab == Tab::Agent
    &&& s.bar.input.len() == 0
    &&& s.harness.pending == Some(p)
    &&& s.harness.stdin
    &&& s.harness.bounded()
}

/// The keys that decide a pending request are those of its three answers, on the Agent tab
/// with an empty bar, whether or not the agent still listens.
pub proof fn law_keys_name_the_decision(s: AppModel, now: u64)
    requires
        !s.show_help,
        s.tab == Tab::Agent,
        s.bar.input.len() == 0,
        s.harness.pending is Some,
    ensures
        s.keyed(plain_key(Key::Char('a')), now) == s.decided(Decision::Allow),
        s.keyed(plain_key(Key::Char('A')), now) == s.decided(Decision::Allow),
        s.keyed(plain_key(Key::Char('s')), now) == s.decided(Decision::AllowAlways),
        s.keyed(plain_key(Key::Char('S')), now) == s.decided(Decision::AllowAlways),
        s.keyed(plain_key(Key::Char('d')), now) == s.decided(Decision::Deny),
        s.keyed(plain_key(Key::Char('D')), now) == s.decided(Decision::Deny),
        s.keyed(plain_key(Key::Esc), now) == s.decided(Decision::Deny),
        s.decided(Decision::Allow).0.harness.pending is None,
        s.decided(Decision::AllowAlways).0.harness.pending is None,
        s.decided(Decision::Deny).0.harness.pending is None,
        !s.harness.stdin ==> s.decided(Decision::Allow).1.len() == 0 && s.decided(
            Decision::AllowAlways,
        ).1.len() == 0 && s.decided(Decision::Deny).1.len() == 0,
{
}

/// While a request waits for a key, `a` allows it once, `s` always, and `d` and Escape
/// deny it; the letters in either case.
pub proof fn law_keys_decide_the_request(s: AppModel, p: ApprovalModel, now: u64)
    requires
        waits_for_key(s, p),
    ensures
        answers(s, s.keyed(plain_key(Key::Char('a')), now), p, "allow"@, "allowed"@),
        answers(s, s.keyed(plain_key(Key::Char('A')), now), p, "allow"@, "allowed"@),
        answers(s, s.keyed(plain_key(Key::Char('s')), now), p, "allow_always"@, "allowed (always)"@),
        answers(s, s.keyed(plain_key(Key::Char('S')), now), p, "allow_always"@, "allowed (always)"@),
        answers(s, s.keyed(plain_key(Key::Char('d')), now), p, "deny"@, "denied"@),
        answers(s, s.keyed(plain_key(Key::Char('D')), now), p, "deny"@, "denied"@),
        answers(s, s.keyed(plain_key(Key::Esc), now), p, "deny"@, "denied"@),
{
    lemma_decided(s, p, Decision::Allow, "allow"@, "allowed"@);
    lemma_decided(s, p, Decision::AllowAlways, "allow_always"@, "allowed (always)"@);
    lemma_decided(s, p, Decision::Deny, "deny"@, "denied"@);
}

proof fn lemma_decided(s: AppModel, p: ApprovalModel, d: Decision, word: Seq<char>, verb: Seq<char>)
    requires
        waits_for_key(s, p),
        word == crate::harness::decision_word(d),
        verb == crate::harness::decision_verb(d),
    ensures
        answers(s, s.decided(d), p, word, verb),
{
    lemma_answer(p.id, d, word);
    let row = LineModel::Notice("["@ + verb + ": "@ + p.name + " "@ + p.summary + "]"@);
    let h = HarnessModel { pending: None, ..s.harness };
    crate::laws::events::lemma_pushed(h, row);
    assert(s.decided(d).0.harness == (HarnessModel {
        status: HarnessStatus::Thinking,
        ..h.push(row)
    }));
    assert(s.decided(d).0.harness == (HarnessModel {
        pending: None,
        status: HarnessStatus::Thinking,
        lines: s.decided(d).0.harness.lines,
        ..s.harness
    }));
    assert(s.decided(d).0 == (AppModel { harness: s.decided(d).0.harness, ..s }));
}

/// While the agent runs, a turn of the user stands in the transcript as it was written
/// and goes to the agent whole; the agent is at work then.
pub proof fn law_turn_reaches_the_agent(h: HarnessModel, text: Seq<char>)
    requires
        h.bounded(),
        h.child,
        h.stdin,
    ensures
        h.user_turn_actions(text) == seq![
            ActionModel::SendAgent(
                json_written(
                    Tree::Object(map!["type"@ => Tree::Text("user"@), "text"@ => Tree::Text(text)]),
                ),
            ),
        ],
        adds_row(h.lines, h.user_turn(text).lines, LineModel::User(text)),
        h.user_turn(text).status == HarnessStatus::Thinking,
{
    law_frames_say_what_they_carry(text, text);
    crate::laws::events::lemma_pushed(h, LineModel::User(text));
}

/// Without an agent a turn starts one, in the mode and with the model that were set, and
/// goes to it whole as soon as it runs.
pub proof fn law_first_turn_starts_the_agent(h: HarnessModel, cwd: Seq<char>, text: Seq<char>)
    requires
        !h.child,
    ensures
        h.user_turn_actions(text) == seq![
            ActionModel::SpawnAgent { mode: h.mode, model: h.model, turn: text },
        ],
        ({
            let up = h.spawned(cwd, SpawnModel::Up { stdin: true });
            &&& up.child && up.stdin && up.cwd == cwd && up.lines == h.lines
            &&& up.sent(user_frame(text)) == seq![
                ActionModel::SendAgent(
                    json_written(
                        Tree::Object(
                            map!["type"@ => Tree::Text("user"@), "text"@ => Tree::Text(text)],
                        ),
                    ),
                ),
            ]
        }),
{
    law_frames_say_what_they_carry(text, text);
}

/// An agent that could not be started says why, and none runs.
pub proof fn law_failed_start_says_why(h: HarnessModel, cwd: Seq<char>, e: Seq<char>)
    requires
        h.bounded(),
        !h.child,
    ensures
        ({
            let r = h.spawned(cwd, SpawnModel::Failed(e));
            &&& !r.child && r.status == HarnessStatus::Closed
            &&& adds_row(
                h.lines,
                r.lines,
                LineModel::Notice(
                    "[could not start 'kannaka agent': "@ + e
                        + " \u{2014} is the kannaka binary on PATH?]"@,
                ),
            )
        }),
        forall|stdin: bool|
            ({
                let r = #[trigger] h.spawned(cwd, SpawnModel::NoOutput { stdin });
                !r.child && r.status == HarnessStatus::Closed && r.lines == h.lines
            }),
{
    crate::laws::events::lemma_pushed(
        HarnessModel { cwd, ..h },
        LineModel::Notice(
            "[could not start 'kannaka agent': "@ + e + " \u{2014} is the kannaka binary on PATH?]"@,
        ),
    );
}

/// A mode that is set is the mode; a running agent is told, and without one a notice says
/// that it is kept for the next.
pub proof fn law_mode_is_passed_on(h: HarnessModel, mode: Seq<char>)
    requires
        h.bounded(),
    ensures
        h.with_mode(mode).mode == mode,
        h.child && h.stdin ==> h.mode_actions(mode) == seq![
            ActionModel::SendAgent(
                json_written(
                    Tree::Object(map!["type"@ => Tree::Text("mode"@), "mode"@ => Tree::Text(mode)]),
                ),
            ),
        ] && h.with_mode(mode) == (HarnessModel { mode, ..h }),
        !h.child ==> h.mode_actions(mode).len() == 0 && adds_row(
            h.lines,
            h.with_mode(mode).lines,
            LineModel::Notice("[mode set to "@ + mode + " \u{2014} applies when the agent starts]"@),
        ),
{
    law_frames_say_what_they_carry(mode, mode);
    crate::laws::events::lemma_pushed(
        HarnessModel { mode, ..h },
        LineModel::Notice("[mode set to "@ + mode + " \u{2014} applies when the agent starts]"@),
    );
}

/// Ending the agent tells it so, then ends it; no request and no pipe is left, and the
/// next task starts a new one. A new model is the model of that one; a cleared transcript
/// holds one notice, and its counts are 0.
pub proof fn law_ending_leaves_nothing_behind(h: HarnessModel, model: Seq<char>)
    requires
        h.bounded(),
    ensures
        h.child && h.stdin ==> h.end_actions() == seq![
            ActionModel::SendAgent(json_written(Tree::Object(map!["type"@ => Tree::Text("exit"@)]))),
            ActionModel::KillAgent,
        ],
        h.end_actions().last() == ActionModel::KillAgent,
        forall|r: HarnessModel|
            r == h.stopped() || r == h.cleared() || r == h.with_model(model) ==> !(#[trigger] r.child)
                && !r.stdin && r.pending is None && r.status == HarnessStatus::Off,
        h.stopped().model == h.model && h.stopped().mode == h.mode,
        h.child ==> adds_row(
            h.lines,
            h.stopped().lines,
            LineModel::Notice("[stopped \u{2014} turn cancelled. Type a new task to start again.]"@),
        ),
        !h.child ==> h.stopped().lines == h.lines,
        h.with_model(model).model == model && h.with_model(model).mode == h.mode,
        adds_row(
            h.lines,
            h.with_model(model).lines,
            LineModel::Notice("[model set to "@ + model + " \u{2014} type a task to start]"@),
        ),
        h.cleared().lines == seq![
            LineModel::Notice("[cleared \u{2014} type a task to start a fresh agent]"@),
        ],
        h.cleared().usage_in == 0 && h.cleared().usage_out == 0 && h.cleared().iter == 0,
        h.cleared().mode == h.mode && h.cleared().model == h.model,
{
    law_frames_say_what_they_carry(model, model);
    crate::laws::events::lemma_pushed(
        h.ended(),
        LineModel::Notice("[stopped \u{2014} turn cancelled. Type a new task to start again.]"@),
    );
    crate::laws::events::lemma_pushed(
        HarnessModel { model, ..h }.ended(),
        LineModel::Notice("[model set to "@ + model + " \u{2014} type a task to start]"@),
    );
    assert(h.end_actions() =~= if h.child {
        h.sent(exit_frame()).push(ActionModel::KillAgent)
    } else {
        seq![ActionModel::KillAgent]
    });
    assert(h.cleared().lines =~= seq![
        LineModel::Notice("[cleared \u{2014} type a task to start a fresh agent]"@),
    ]);
}

/// The agent is started in its directory and mode, and with its model where one is set.
pub proof fn law_agent_is_started_as_set(cwd: Seq<char>, mode: Seq<char>, model: Seq<char>)
    ensures
        model.len() == 0 ==> agent_words(cwd, mode, model) == seq![
            "agent"@,
            "--json"@,
            "--cwd"@,
            cwd,
            "--mode"@,
            mode,
        ],
        model.len() > 0 ==> agent_words(cwd, mode, model) == seq![
            "agent"@,
            "--json"@,
            "--cwd"@,
            cwd,
            "--mode"@,
            mode,
            "--model"@,
            model,
        ],
{
}

/// Events are taken in the order in which they came, each exactly once.
pub proof fn law_events_are_taken_in_order(
    h: HarnessModel,
    evs: Seq<AgentEventModel>,
    e: AgentEventModel,
)
    ensures
        h.applied_all(Seq::empty()) == h,
        h.applied_all(evs.push(e)) == h.applied_all(evs).applied(e),
{
    assert(evs.push(e).drop_last() =~= evs);
}

/// The count of ticks goes up while the agent works or starts, and stands still else.
pub proof fn law_only_a_busy_agent_ticks(h: HarnessModel)
    ensures
        (h.status == HarnessStatus::Thinking || h.status == HarnessStatus::Starting) && h.tick
            < usize::MAX ==> h.ticked().tick == h.tick + 1,
        h.status != HarnessStatus::Thinking && h.status != HarnessStatus::Starting ==> h.ticked()
            == h,
        h.ticked() == (HarnessModel { tick: h.ticked().tick, ..h }),
{
}

/// A new agent is off, in the default mode and without a model, and has used nothing.
pub proof fn law_new_agent_is_off()
    ensures
        ({
            let h = HarnessModel::initial();
            &&& !h.child && !h.stdin && h.status == HarnessStatus::Off && h.pending is None
            &&& h.mode == "default"@ && h.model.len() == 0
            &&& h.usage_in == 0 && h.usage_out == 0 && h.iter == 0
            &&& h.lines.len() == 1 && h.lines[0] is Notice
        }),
{
    reveal_strlit("");
}

} // verus!
