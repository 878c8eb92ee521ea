//! What holds of the application as a whole.

use vstd::prelude::*;
use crate::action::{ActionModel, JobModel};
use crate::app::{approval_notice, tab_after, tab_before, tab_index, AppModel, Tab, TABS};
use crate::bar::PASTE_WINDOW;
use crate::command::{
    agent_command, bar_command, AgentCommandModel, CommandModel,
};
use crate::harness::{is_busy, Decision};
use crate::keys::{burst_text, Key, KeyPress, Mods};
use crate::text::{starts, trim};

pub mod approval;
pub mod dispatch;
pub mod editing;
pub mod events;
pub mod fields;
pub mod figures;
pub mod ledger;
pub mod models;
pub mod screens;
pub mod sky;
pub mod startup;
pub mod stream;
pub mod talk;
pub mod verbs;
pub mod words;

verus! {

proof fn lemma_refreshed_wf(s: AppModel, now: u64)
    requires
        s.wf(),
    ensures
        s.refreshed(now).0.wf(),
        s.cosmos_asked(now).0.wf(),
        s.bus_asked().0.wf(),
        forall|m: Seq<char>| (#[trigger] s.dream_asked(m, now)).0.wf(),
        s.unscrolled().wf(),
{
}

proof fn lemma_agent_did_wf(s: AppModel, c: AgentCommandModel)
    requires
        s.wf(),
    ensures
        s.agent_did(c).0.wf(),
{
}

proof fn lemma_did_wf(s: AppModel, c: CommandModel, input: Seq<char>, now: u64)
    requires
        s.wf(),
    ensures
        s.did(c, input, now).0.wf(),
{
}

proof fn lemma_submitted_wf(s: AppModel, now: u64)
    requires
        s.wf(),
    ensures
        s.submitted(now).0.wf(),
{
    let input = trim(s.bar.input);
    let t = AppModel { bar: s.bar.remembering(input).emptied(), ..s };
    assert(t.wf());
    match s.tab {
        Tab::Agent => lemma_agent_did_wf(t, agent_command(input)),
        _ => lemma_did_wf(t, bar_command(input), input, now),
    }
}

proof fn lemma_entered_wf(s: AppModel, now: u64)
    requires
        s.wf(),
    ensures
        s.entered(now).0.wf(),
{
    lemma_refreshed_wf(s, now);
    lemma_refreshed_wf(s.unscrolled(), now);
}

proof fn lemma_hotkey_wf(s: AppModel, k: KeyPress, now: u64)
    requires
        s.wf(),
    ensures
        s.hotkey(k, now) is Some ==> s.hotkey(k, now)->Some_0.0.wf(),
{
}

proof fn lemma_edited_wf(s: AppModel, k: KeyPress, now: u64)
    requires
        s.wf(),
    ensures
        s.edited(k, now).0.wf(),
{
    match k.key {
        Key::Enter => {
            lemma_submitted_wf(s, now);
            lemma_bar_wf(s, Seq::empty(), now);
        },
        Key::Tab => {
            let t = AppModel { tab: tab_after(s.tab), ..s };
            assert(t.wf());
            lemma_entered_wf(t, now);
        },
        Key::BackTab => {
            let t = AppModel { tab: tab_before(s.tab), ..s };
            assert(t.wf());
            lemma_entered_wf(t, now);
        },
        _ => {},
    }
}

pub(crate) proof fn lemma_bar_wf(s: AppModel, text: Seq<char>, now: u64)
    requires
        s.wf(),
    ensures
        s.bar.wf(),
        s.pasted(text, now).wf(),
        (AppModel { bar: s.bar.pasted_break(now), ..s }).wf(),
{
}

pub(crate) proof fn lemma_keyed_wf(s: AppModel, k: KeyPress, now: u64)
    requires
        s.wf(),
    ensures
        s.keyed(k, now).0.wf(),
{
    lemma_hotkey_wf(s, k, now);
    lemma_edited_wf(s, k, now);
    assert(AppModel { show_help: false, ..s }.wf());
}

/// Stepping forward and back between the tabs are each other's inverse, and each
/// step goes to the next place, round and round.
pub proof fn law_tabs_go_round(t: Tab)
    ensures
        tab_before(tab_after(t)) == t,
        tab_after(tab_before(t)) == t,
        tab_index(tab_after(t)) == (tab_index(t) + 1) % TABS as nat,
        (tab_index(tab_before(t)) + 1) % TABS as nat == tab_index(t),
{
}

/// Entering a tab shows its newest text.
pub proof fn law_entering_a_tab_shows_its_end(s: AppModel, now: u64)
    ensures
        s.entered(now).0.scroll == 0,
        s.entered(now).0.tab == s.tab,
{
}

/// While help is shown, a key closes it and does nothing else.
pub proof fn law_any_key_closes_the_help(s: AppModel, k: KeyPress, now: u64)
    requires
        s.show_help,
    ensures
        s.keyed(k, now) == (AppModel { show_help: false, ..s }, Seq::<ActionModel>::empty()),
{
}

/// A line that is sent leaves the bar empty and stands last in the history.
pub proof fn law_sent_line_goes_to_the_history(s: AppModel, now: u64)
    requires
        trim(s.bar.input).len() > 0,
    ensures
        s.submitted(now).0.bar.input.len() == 0,
        s.submitted(now).0.bar.cursor == 0,
        s.submitted(now).0.bar.history.last() == trim(s.bar.input),
{
    let input = trim(s.bar.input);
    let t = AppModel { bar: s.bar.remembering(input).emptied(), ..s };
    assert(t.bar.history.last() == input);
    lemma_agent_did_keeps_bar(t, agent_command(input));
    lemma_did_keeps_bar(t, bar_command(input), input, now);
}

proof fn lemma_agent_did_keeps_bar(s: AppModel, c: AgentCommandModel)
    ensures
        s.agent_did(c).0.bar == s.bar,
{
}

proof fn lemma_did_keeps_bar(s: AppModel, c: CommandModel, input: Seq<char>, now: u64)
    ensures
        s.did(c, input, now).0.bar == s.bar,
{
}

/// Whether the line in the bar asks to quit.
pub open spec fn line_quits(s: AppModel) -> bool {
    if s.tab == Tab::Agent {
        agent_command(trim(s.bar.input)) is Quit
    } else {
        bar_command(trim(s.bar.input)) is Quit
    }
}

/// Nothing ends the application but Ctrl+C, `q` or Escape while the bar is empty,
/// and a line that asks for it.
pub proof fn law_only_asking_quits(s: AppModel, k: KeyPress, now: u64)
    requires
        !s.should_quit,
        s.keyed(k, now).0.should_quit,
    ensures
        ({
            ||| k.mods == Mods::Control && k.key == Key::Char('c')
            ||| s.bar.input.len() == 0 && (k.spec_letter('q', 'Q') || k.spec_esc())
            ||| k.key is Enter && line_quits(s)
        }),
{
    if k.key is Enter {
        let input = trim(s.bar.input);
        let t = AppModel { bar: s.bar.remembering(input).emptied(), ..s };
        lemma_agent_did_quits(t, agent_command(input));
        lemma_did_quits(t, bar_command(input), input, now);
    }
}

proof fn lemma_agent_did_quits(s: AppModel, c: AgentCommandModel)
    ensures
        s.agent_did(c).0.should_quit == (s.should_quit || c is Quit),
{
}

proof fn lemma_did_quits(s: AppModel, c: CommandModel, input: Seq<char>, now: u64)
    ensures
        s.did(c, input, now).0.should_quit == (s.should_quit || c is Quit),
{
}

/// Whether the agent tab waits for the human or the agent.
pub open spec fn occupied(s: AppModel) -> bool {
    s.harness.pending is Some || is_busy(s.harness.status)
}

/// While a request is pending or the agent is at work, Escape does not end the
/// application: it denies the request, or does what `/stop` does.
pub proof fn law_escape_spares_a_busy_agent(s: AppModel, k: KeyPress, now: u64)
    requires
        !s.show_help,
        s.tab == Tab::Agent,
        s.bar.input.len() == 0,
        occupied(s),
        k.spec_esc(),
    ensures
        s.keyed(k, now).0.should_quit == s.should_quit,
        s.harness.pending is Some ==> s.keyed(k, now) == s.decided(Decision::Deny),
        s.harness.pending is None ==> s.keyed(k, now) == s.agent_did(AgentCommandModel::Stop),
{
}

/// While a request is pending or the agent is at work, no task reaches it: nothing
/// is asked for, and the transcript gets a notice.
pub proof fn law_no_task_for_a_busy_agent(s: AppModel, now: u64)
    requires
        s.tab == Tab::Agent,
        occupied(s),
        trim(s.bar.input).len() > 0,
        agent_command(trim(s.bar.input)) is Task || agent_command(trim(s.bar.input)) is Qos,
    ensures
        s.submitted(now).1 == Seq::<ActionModel>::empty(),
        exists|words: Seq<char>| s.submitted(now).0.harness == #[trigger] s.harness.note(words),
{
    let busy_words = if agent_command(trim(s.bar.input)) is Qos {
        "[agent is working \u{2014} wait for it to finish or /stop]"@
    } else {
        "[agent is working \u{2014} wait for it to finish]"@
    };
    let words = if s.harness.pending is Some {
        approval_notice()
    } else {
        busy_words
    };
    assert(s.submitted(now).0.harness == s.harness.note(words));
}

/// A line that ends the agent.
pub open spec fn line_ends_agent(s: AppModel) -> bool {
    s.tab == Tab::Agent && {
        let c = agent_command(trim(s.bar.input));
        c is Stop || c is Clear || c is Model
    }
}

/// A request stays pending under every key but those that decide it and a line that
/// ends the agent.
pub proof fn law_request_stays_until_decided(s: AppModel, k: KeyPress, now: u64)
    requires
        s.harness.pending is Some,
        s.keyed(k, now).0.harness.pending != s.harness.pending,
    ensures
        s.tab == Tab::Agent,
        ({
            ||| s.bar.input.len() == 0 && (k.spec_letter('a', 'A') || k.spec_letter('s', 'S')
                || k.spec_letter('d', 'D') || k.spec_esc())
            ||| k.key is Enter && line_ends_agent(s)
        }),
{
    if k.key is Enter {
        let input = trim(s.bar.input);
        let t = AppModel { bar: s.bar.remembering(input).emptied(), ..s };
        lemma_did_keeps_harness(t, bar_command(input), input, now);
    }
}

proof fn lemma_did_keeps_harness(s: AppModel, c: CommandModel, input: Seq<char>, now: u64)
    ensures
        s.did(c, input, now).0.harness == s.harness,
{
}

/// Whether a key decides the pending request.
pub open spec fn decides(s: AppModel, k: KeyPress) -> bool {
    s.tab == Tab::Agent && s.bar.input.len() == 0 && (k.spec_letter('a', 'A') || k.spec_letter(
        's',
        'S',
    ) || k.spec_letter('d', 'D') || k.spec_esc())
}

/// Whether something is written to the agent or a new one is started.
pub open spec fn reaches_agent(a: Seq<ActionModel>) -> bool {
    exists|i: int| 0 <= i < a.len() && (#[trigger] a[i] is SendAgent || a[i] is SpawnAgent)
}

proof fn lemma_did_spares_agent(s: AppModel, c: CommandModel, input: Seq<char>, now: u64)
    ensures
        !reaches_agent(s.did(c, input, now).1),
{
}

proof fn lemma_entered_spares_agent(s: AppModel, now: u64)
    ensures
        !reaches_agent(s.entered(now).1),
{
}

/// While a request is pending, no key makes anything reach the agent but one that
/// decides the request, a line that ends the agent, and a change of its mode.
pub proof fn law_waiting_agent_hears_only_the_decision(s: AppModel, k: KeyPress, now: u64)
    requires
        s.harness.pending is Some,
        reaches_agent(s.keyed(k, now).1),
    ensures
        s.tab == Tab::Agent,
        decides(s, k) || k.key is Enter && (line_ends_agent(s) || agent_command(
            trim(s.bar.input),
        ) is Mode),
{
    let input = trim(s.bar.input);
    let t = AppModel { bar: s.bar.remembering(input).emptied(), ..s };
    lemma_did_spares_agent(t, bar_command(input), input, now);
    lemma_entered_spares_agent(AppModel { tab: tab_after(s.tab), ..s }, now);
    lemma_entered_spares_agent(AppModel { tab: tab_before(s.tab), ..s }, now);
}

/// A line that is no command opens the chat and is said there, unless a turn is
/// under way.
pub proof fn law_the_rest_is_chat(s: AppModel, now: u64)
    requires
        s.tab != Tab::Agent,
        !s.chat.pending,
        trim(s.bar.input).len() > 0,
        bar_command(trim(s.bar.input)) is Chat,
        s.tab == Tab::Chat ==> !calls_plugin(trim(s.bar.input)),
    ensures
        s.submitted(now).0.tab == Tab::Chat,
        s.submitted(now).0.chat == s.chat.said(trim(s.bar.input)),
        s.submitted(now).1 == s.chat.turn_actions(trim(s.bar.input)),
{
}

/// Keys that come at once and stand for text never send a line: only the bar
/// changes, and nothing is asked for.
pub proof fn law_burst_of_text_sends_nothing(s: AppModel, keys: Seq<KeyPress>, now: u64)
    requires
        keys.len() > 1,
        burst_text(keys).len() > 0,
    ensures
        s.burst(keys, now) == (
            AppModel { bar: s.bar.pasted(burst_text(keys), now), ..s },
            Seq::<ActionModel>::empty(),
        ),
{
}

/// A line break right after pasted text does not send it.
pub proof fn law_line_break_of_a_paste_sends_nothing(
    s: AppModel,
    text: Seq<char>,
    then: u64,
    k: KeyPress,
    now: u64,
)
    requires
        !s.show_help,
        k.key is Enter,
        then <= now < then + PASTE_WINDOW,
    ensures
        ({
            let t = s.pasted(text, then);
            t.keyed(k, now) == (
                AppModel { bar: t.bar.pasted_break(now), ..t },
                Seq::<ActionModel>::empty(),
            )
        }),
{
}

/// Whether a line on the Chat tab calls a plugin.
pub open spec fn calls_plugin(line: Seq<char>) -> bool {
    starts(line, "/code "@) || starts(line, "/topus "@)
}

/// While a turn of the chat is under way, a line for the chat and a call of a plugin
/// are dropped: the conversation stays as it is and nothing is asked for.
pub proof fn law_chat_takes_one_turn_at_a_time(s: AppModel, now: u64)
    requires
        s.tab != Tab::Agent,
        s.chat.pending,
        bar_command(trim(s.bar.input)) is Chat || s.tab == Tab::Chat && calls_plugin(
            trim(s.bar.input),
        ),
    ensures
        s.submitted(now).0.chat == s.chat,
        s.submitted(now).1 == Seq::<ActionModel>::empty(),
{
}

/// The Memory and the Chat tab share the command bar: a line that calls no plugin does
/// the same on both of them, and asks for the same, turn under way or not.
pub proof fn law_chat_tab_shares_the_command_bar(s: AppModel, now: u64)
    requires
        s.tab == Tab::Chat,
        !calls_plugin(trim(s.bar.input)),
    ensures
        ({
            let m = AppModel { tab: Tab::Memory, ..s };
            let there = m.submitted(now);
            let here = s.submitted(now);
            &&& here.1 == there.1
            &&& here.0.log == there.0.log
            &&& here.0.bus == there.0.bus
            &&& here.0.chat == there.0.chat
            &&& here.0.cosmos == there.0.cosmos
            &&& here.0.should_quit == there.0.should_quit
            &&& here.0.show_help == there.0.show_help
        }),
{
}

/// Up and Down walk the history, whatever the bar holds, and the page keys scroll:
/// neither touches what the other is for. Up on a fresh bar calls up the newest line,
/// with the cursor at its end.
pub proof fn law_arrows_walk_the_history(s: AppModel, k: KeyPress, now: u64)
    requires
        s.wf(),
        !s.show_help,
    ensures
        k.key is Up ==> s.keyed(k, now) == (
            AppModel { bar: s.bar.older(), ..s },
            Seq::<ActionModel>::empty(),
        ),
        k.key is Down ==> s.keyed(k, now) == (
            AppModel { bar: s.bar.newer(), ..s },
            Seq::<ActionModel>::empty(),
        ),
        k.key is PageUp || k.key is PageDown ==> s.keyed(k, now).0 == (AppModel {
            scroll: s.keyed(k, now).0.scroll,
            ..s
        }),
        k.key is Up && s.bar.history.len() > 0 && s.bar.history_idx is None ==> ({
            let b = s.keyed(k, now).0.bar;
            &&& b.input == s.bar.history.last()
            &&& b.cursor == b.input.len()
            &&& b.history_idx == Some((s.bar.history.len() - 1) as usize)
            &&& b.history == s.bar.history
        }),
{
}

/// A slash before a command makes no difference.
pub proof fn law_slash_is_optional(c: Seq<char>)
    requires
        !starts(c, "/"@),
    ensures
        bar_command("/"@ + c) == bar_command(c),
{
    reveal_strlit("/");
    assert(("/"@ + c).subrange(0, 1) =~= "/"@);
    assert(("/"@ + c).skip(1) =~= c);
    assert(("/"@ + c).subrange(1, ("/"@ + c).len() as int) =~= c);
}

/// A dream from the command bar turns the bus on, where its report will come in.
pub proof fn law_dream_turns_the_bus_on(s: AppModel, mode: Seq<char>, now: u64)
    requires
        !s.bus.dream_pending,
    ensures
        s.bus.child || s.dream_command(mode, now).1 == seq![
            ActionModel::SpawnBus,
            ActionModel::Run(JobModel::Dream(mode)),
        ],
        s.bus.child ==> s.dream_command(mode, now).1 == seq![
            ActionModel::Run(JobModel::Dream(mode)),
        ],
{
    assert(s.dream_command(mode, now).1 =~= if s.bus.child {
        seq![ActionModel::Run(JobModel::Dream(mode))]
    } else {
        seq![ActionModel::SpawnBus, ActionModel::Run(JobModel::Dream(mode))]
    });
}

} // verus!
