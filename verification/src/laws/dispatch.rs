//! What holds of the commands: what each of them does.

use vstd::prelude::*;
use crate::action::{ActionModel, JobModel};
use crate::app::{AppModel, Tab};
use crate::bus::{BusModel, BusStatus};
use crate::chat::{ChatLineModel, ChatWho};
use crate::command::{agent_command, slash_command, AgentCommandModel, CommandModel};
use crate::harness::{HarnessStatus, LineModel};
use crate::keys::Key;
use crate::laws::approval::plain_key;
use crate::laws::events::{adds_row, lemma_pushed};
use crate::laws::ledger::{adds_message, law_messages_go_to_the_end, law_refresh_asks_for_both};
use crate::laws::words::{all_white, law_trim_undoes_padding, neat};
use crate::prompts::{QOS_BOOT_GRAPHICAL_PROMPT, QOS_BOOT_PROMPT};
use crate::reports::{MessageModel, Role};
use crate::text::{after, starts};

verus! {

/// Whether the hot keys hold: no help covers the tab, and the bar is empty.
pub open spec fn hears_keys(s: AppModel) -> bool {
    !s.show_help && s.bar.input.len() == 0
}

/// On the Dreams tab `d` starts a deep dream and `l` a lite one, in either case, unless one
/// runs.
pub proof fn law_keys_start_dreams(s: AppModel, now: u64)
    requires
        hears_keys(s),
        s.tab == Tab::Dreams,
        !s.bus.dream_pending,
    ensures
        starts_dream(s, s.keyed(plain_key(Key::Char('d')), now), "deep"@, now),
        starts_dream(s, s.keyed(plain_key(Key::Char('D')), now), "deep"@, now),
        starts_dream(s, s.keyed(plain_key(Key::Char('l')), now), "lite"@, now),
        starts_dream(s, s.keyed(plain_key(Key::Char('L')), now), "lite"@, now),
{
}

/// Whether the step from `s` to `r` starts a dream in the given mode, and does nothing else.
pub open spec fn starts_dream(
    s: AppModel,
    r: (AppModel, Seq<ActionModel>),
    mode: Seq<char>,
    now: u64,
) -> bool {
    &&& r.1 == seq![ActionModel::Run(JobModel::Dream(mode))]
    &&& r.0 == (AppModel {
        bus: BusModel {
            dream_pending: true,
            dream_run: crate::bus::DreamRunModel::Running { mode, started: now },
            ..s.bus
        },
        ..s
    })
}

/// On the Bus tab `r` starts a failed tail anew; on the Cosmos tab it asks for the
/// constellation; in either case.
pub proof fn law_keys_refresh(s: AppModel, now: u64)
    requires
        hears_keys(s),
    ensures
        s.tab == Tab::Bus && s.bus.status == BusStatus::Failed ==> s.keyed(
            plain_key(Key::Char('r')),
            now,
        ) == s.keyed(plain_key(Key::Char('R')), now) && s.keyed(plain_key(Key::Char('r')), now) == (
            AppModel {
                bus: BusModel { child: false, status: BusStatus::Connecting, ..s.bus },
                ..s
            },
            seq![ActionModel::KillBus, ActionModel::SpawnBus],
        ),
        s.tab == Tab::Cosmos ==> s.keyed(plain_key(Key::Char('r')), now) == s.keyed(
            plain_key(Key::Char('R')),
            now,
        ),
        s.tab == Tab::Cosmos && !s.cosmos.pending ==> s.keyed(plain_key(Key::Char('r')), now).1
            == seq![ActionModel::LoadCosmos] && s.keyed(
            plain_key(Key::Char('r')),
            now,
        ).0.cosmos.pending,
        s.tab == Tab::Cosmos && s.cosmos.pending ==> s.keyed(plain_key(Key::Char('r')), now) == (
            s,
            Seq::<ActionModel>::empty(),
        ),
{
}

/// `q` quits, in either case; Escape quits unless the agent works or asks. Escape stops an
/// agent that works.
pub proof fn law_keys_quit(s: AppModel, now: u64)
    requires
        hears_keys(s),
    ensures
        ({
            let quit = (AppModel { should_quit: true, ..s }, Seq::<ActionModel>::empty());
            let busy = s.harness.status == HarnessStatus::Thinking || s.harness.status
                == HarnessStatus::Starting;
            let esc = s.keyed(plain_key(Key::Esc), now);
            &&& s.keyed(plain_key(Key::Char('q')), now) == quit
            &&& s.keyed(plain_key(Key::Char('Q')), now) == quit
            &&& s.tab != Tab::Agent ==> esc == quit
            &&& s.tab == Tab::Agent && s.harness.pending is None && !busy ==> esc == quit
            &&& s.tab == Tab::Agent && s.harness.pending is None && busy ==> !esc.0.harness.child
                && esc.0.harness.status == HarnessStatus::Off && esc.1.last()
                == ActionModel::KillAgent && esc.0.should_quit == s.should_quit
        }),
{
}

/// Any other letter is typed, also into an empty bar.
pub proof fn law_other_letters_are_typed(s: AppModel, c: char, now: u64)
    requires
        hears_keys(s),
        c != 'd' && c != 'D' && c != 'l' && c != 'L' && c != 'r' && c != 'R',
        c != 'a' && c != 'A' && c != 's' && c != 'S' && c != 'q' && c != 'Q',
    ensures
        s.keyed(plain_key(Key::Char(c)), now) == (
            AppModel { bar: s.bar.with_text(seq![c]), ..s },
            Seq::<ActionModel>::empty(),
        ),
{
}

proof fn lemma_starts_with(c: Seq<char>, p: Seq<char>)
    ensures
        starts(c, p) ==> c.len() >= p.len(),
        forall|i: int| starts(c, p) && 0 <= i < p.len() ==> c[i] == #[trigger] p[i],
{
    if starts(c, p) {
        let s = c.subrange(0, p.len() as int);
        assert forall|i: int| 0 <= i < p.len() implies c[i] == #[trigger] p[i] by {
            assert(c[i] == s[i]);
        }
    }
}

proof fn lemma_put_behind(p: Seq<char>, t: Seq<char>)
    ensures
        starts(p + t, p),
        after(p + t, p) == Some(t),
{
    let c = p + t;
    assert(c.subrange(0, p.len() as int) =~= p);
    assert(c.subrange(p.len() as int, c.len() as int) =~= t);
}

proof fn lemma_slash_words()
    ensures
        "help"@.len() == 4 && "help"@[0] == 'h' && "help"@[1] == 'e' && "help"@[2] == 'l' && "help"@[3] == 'p',
        "?"@.len() == 1 && "?"@[0] == '?',
        "quit"@.len() == 4 && "quit"@[0] == 'q' && "quit"@[1] == 'u' && "quit"@[2] == 'i' && "quit"@[3] == 't',
        "exit"@.len() == 4 && "exit"@[0] == 'e' && "exit"@[1] == 'x' && "exit"@[2] == 'i' && "exit"@[3] == 't',
        "q"@.len() == 1 && "q"@[0] == 'q',
        "yolo"@.len() == 4 && "yolo"@[0] == 'y' && "yolo"@[1] == 'o' && "yolo"@[2] == 'l' && "yolo"@[3] == 'o',
        "plan"@.len() == 4 && "plan"@[0] == 'p' && "plan"@[1] == 'l' && "plan"@[2] == 'a' && "plan"@[3] == 'n',
        "default"@.len() == 7 && "default"@[0] == 'd' && "default"@[1] == 'e' && "default"@[2] == 'f' && "default"@[3] == 'a' && "default"@[4] == 'u',
        "auto"@.len() == 4 && "auto"@[0] == 'a' && "auto"@[1] == 'u' && "auto"@[2] == 't' && "auto"@[3] == 'o',
        "auto-edit"@.len() == 9 && "auto-edit"@[0] == 'a' && "auto-edit"@[1] == 'u' && "auto-edit"@[2] == 't' && "auto-edit"@[3] == 'o' && "auto-edit"@[4] == '-',
        "stop"@.len() == 4 && "stop"@[0] == 's' && "stop"@[1] == 't' && "stop"@[2] == 'o' && "stop"@[3] == 'p',
        "cancel"@.len() == 6 && "cancel"@[0] == 'c' && "cancel"@[1] == 'a' && "cancel"@[2] == 'n' && "cancel"@[3] == 'c' && "cancel"@[4] == 'e',
        "clear"@.len() == 5 && "clear"@[0] == 'c' && "clear"@[1] == 'l' && "clear"@[2] == 'e' && "clear"@[3] == 'a' && "clear"@[4] == 'r',
        "qos"@.len() == 3 && "qos"@[0] == 'q' && "qos"@[1] == 'o' && "qos"@[2] == 's',
        "mode "@.len() == 5 && "mode "@[0] == 'm' && "mode "@[1] == 'o' && "mode "@[2] == 'd' && "mode "@[3] == 'e' && "mode "@[4] == ' ',
        "model "@.len() == 6 && "model "@[0] == 'm' && "model "@[1] == 'o' && "model "@[2] == 'd' && "model "@[3] == 'e' && "model "@[4] == 'l',
        "qos "@.len() == 4 && "qos "@[0] == 'q' && "qos "@[1] == 'o' && "qos "@[2] == 's' && "qos "@[3] == ' ',
        "/"@.len() == 1 && "/"@[0] == '/',
{
    reveal_strlit("help");
    reveal_strlit("?");
    reveal_strlit("quit");
    reveal_strlit("exit");
    reveal_strlit("q");
    reveal_strlit("yolo");
    reveal_strlit("plan");
    reveal_strlit("default");
    reveal_strlit("auto");
    reveal_strlit("auto-edit");
    reveal_strlit("stop");
    reveal_strlit("cancel");
    reveal_strlit("clear");
    reveal_strlit("qos");
    reveal_strlit("mode ");
    reveal_strlit("model ");
    reveal_strlit("qos ");
    reveal_strlit("/");
}

/// The first letters tell the slash commands apart.
proof fn lemma_slash_word_of(c: Seq<char>)
    ensures
        c == "help"@ ==> c.len() == 4 && c[0] == 'h' && c[1] == 'e' && c[2] == 'l' && c[3] == 'p',
        c == "?"@ ==> c.len() == 1 && c[0] == '?',
        c == "quit"@ ==> c.len() == 4 && c[0] == 'q' && c[1] == 'u' && c[2] == 'i' && c[3] == 't',
        c == "exit"@ ==> c.len() == 4 && c[0] == 'e' && c[1] == 'x' && c[2] == 'i' && c[3] == 't',
        c == "q"@ ==> c.len() == 1 && c[0] == 'q',
        c == "yolo"@ ==> c.len() == 4 && c[0] == 'y' && c[1] == 'o' && c[2] == 'l' && c[3] == 'o',
        c == "plan"@ ==> c.len() == 4 && c[0] == 'p' && c[1] == 'l' && c[2] == 'a' && c[3] == 'n',
        c == "default"@ ==> c.len() == 7 && c[0] == 'd' && c[1] == 'e' && c[2] == 'f' && c[3] == 'a' && c[4] == 'u',
        c == "auto"@ ==> c.len() == 4 && c[0] == 'a' && c[1] == 'u' && c[2] == 't' && c[3] == 'o',
        c == "auto-edit"@ ==> c.len() == 9 && c[0] == 'a' && c[1] == 'u' && c[2] == 't' && c[3] == 'o' && c[4] == '-',
        c == "stop"@ ==> c.len() == 4 && c[0] == 's' && c[1] == 't' && c[2] == 'o' && c[3] == 'p',
        c == "cancel"@ ==> c.len() == 6 && c[0] == 'c' && c[1] == 'a' && c[2] == 'n' && c[3] == 'c' && c[4] == 'e',
        c == "clear"@ ==> c.len() == 5 && c[0] == 'c' && c[1] == 'l' && c[2] == 'e' && c[3] == 'a' && c[4] == 'r',
        c == "qos"@ ==> c.len() == 3 && c[0] == 'q' && c[1] == 'o' && c[2] == 's',
        starts(c, "mode "@) ==> c.len() >= 5 && c[0] == 'm' && c[1] == 'o' && c[2] == 'd' && c[3] == 'e' && c[4] == ' ',
        starts(c, "model "@) ==> c.len() >= 6 && c[0] == 'm' && c[1] == 'o' && c[2] == 'd' && c[3] == 'e' && c[4] == 'l',
        starts(c, "qos "@) ==> c.len() >= 4 && c[0] == 'q' && c[1] == 'o' && c[2] == 's' && c[3] == ' ',
{
    lemma_slash_words();
    lemma_starts_with(c, "mode "@);
    if starts(c, "mode "@) {
        assert(c[0] == "mode "@[0]);
        assert(c[1] == "mode "@[1]);
        assert(c[2] == "mode "@[2]);
        assert(c[3] == "mode "@[3]);
        assert(c[4] == "mode "@[4]);
    }
    lemma_starts_with(c, "model "@);
    if starts(c, "model "@) {
        assert(c[0] == "model "@[0]);
        assert(c[1] == "model "@[1]);
        assert(c[2] == "model "@[2]);
        assert(c[3] == "model "@[3]);
        assert(c[4] == "model "@[4]);
    }
    lemma_starts_with(c, "qos "@);
    if starts(c, "qos "@) {
        assert(c[0] == "qos "@[0]);
        assert(c[1] == "qos "@[1]);
        assert(c[2] == "qos "@[2]);
        assert(c[3] == "qos "@[3]);
    }
}

proof fn lemma_slashed(c: Seq<char>)
    requires
        neat(c),
    ensures
        agent_command("/"@ + c) == slash_command(c),
{
    lemma_put_behind("/"@, c);
    law_trim_undoes_padding(Seq::empty(), c, Seq::empty());
}

/// The slash commands of the Agent tab that are one word.
pub proof fn law_slash_words()
    ensures
        agent_command("/"@ + "help"@) == AgentCommandModel::Help,
        agent_command("/"@ + "?"@) == AgentCommandModel::Help,
        agent_command("/"@ + "quit"@) == AgentCommandModel::Quit,
        agent_command("/"@ + "exit"@) == AgentCommandModel::Quit,
        agent_command("/"@ + "q"@) == AgentCommandModel::Quit,
        agent_command("/"@ + "yolo"@) == AgentCommandModel::Mode("yolo"@),
        agent_command("/"@ + "plan"@) == AgentCommandModel::Mode("plan"@),
        agent_command("/"@ + "default"@) == AgentCommandModel::Mode("default"@),
        agent_command("/"@ + "auto"@) == AgentCommandModel::Mode("auto-edit"@),
        agent_command("/"@ + "auto-edit"@) == AgentCommandModel::Mode("auto-edit"@),
        agent_command("/"@ + "stop"@) == AgentCommandModel::Stop,
        agent_command("/"@ + "cancel"@) == AgentCommandModel::Stop,
        agent_command("/"@ + "clear"@) == AgentCommandModel::Clear,
        agent_command("/"@ + "qos"@) == (AgentCommandModel::Qos { graphical: false }),
{
    lemma_slash_words();
    lemma_slashed("help"@);
    lemma_slash_word_of("help"@);
    lemma_slashed("?"@);
    lemma_slash_word_of("?"@);
    lemma_slashed("quit"@);
    lemma_slash_word_of("quit"@);
    lemma_slashed("exit"@);
    lemma_slash_word_of("exit"@);
    lemma_slashed("q"@);
    lemma_slash_word_of("q"@);
    lemma_slashed("yolo"@);
    lemma_slash_word_of("yolo"@);
    lemma_slashed("plan"@);
    lemma_slash_word_of("plan"@);
    reveal_strlit("default");
    assert("default"@[6] == 't');
    lemma_slashed("default"@);
    lemma_slash_word_of("default"@);
    lemma_slashed("auto"@);
    lemma_slash_word_of("auto"@);
    reveal_strlit("auto-edit");
    assert("auto-edit"@[8] == 't');
    lemma_slashed("auto-edit"@);
    lemma_slash_word_of("auto-edit"@);
    lemma_slashed("stop"@);
    lemma_slash_word_of("stop"@);
    reveal_strlit("cancel");
    assert("cancel"@[5] == 'l');
    lemma_slashed("cancel"@);
    lemma_slash_word_of("cancel"@);
    lemma_slashed("clear"@);
    lemma_slash_word_of("clear"@);
    lemma_slashed("qos"@);
    lemma_slash_word_of("qos"@);
    assert("qos"@ + Seq::<char>::empty() =~= "qos"@);
    lemma_put_behind("qos"@, Seq::empty());
    law_trim_undoes_padding(Seq::empty(), Seq::empty(), Seq::empty());
    assert(Seq::<char>::empty() + Seq::<char>::empty() + Seq::<char>::empty() =~= Seq::empty());
    reveal_strlit("--graphical");
    reveal_strlit("-g");
    reveal_strlit("graphical");
    assert("--graphical"@.len() == 11 && "-g"@.len() == 2 && "graphical"@.len() == 9);
}

proof fn lemma_slash_mode(m: Seq<char>)
    requires
        neat(m),
        m.len() > 0,
    ensures
        agent_command("/"@ + ("mode "@ + m)) == AgentCommandModel::Mode(m),
{
    let c = "mode "@ + m;
    assert("mode "@.len() == 5 && c[0] == 'm' && c[1] == 'o' && c[2] == 'd' && c[4] == ' ') by {
        reveal_strlit("mode ");
        assert("mode "@[0] == 'm' && "mode "@[1] == 'o' && "mode "@[2] == 'd' && "mode "@[4] == ' ');
    }
    assert(c.last() == m.last());
    lemma_slashed(c);
    lemma_slash_word_of(c);
    lemma_put_behind("mode "@, m);
    law_trim_undoes_padding(Seq::empty(), m, Seq::empty());
}

proof fn lemma_slash_model(m: Seq<char>)
    requires
        neat(m),
        m.len() > 0,
    ensures
        agent_command("/"@ + ("model "@ + m)) == AgentCommandModel::Model(m),
{
    let c = "model "@ + m;
    assert("model "@.len() == 6 && c[0] == 'm' && c[1] == 'o' && c[2] == 'd' && c[4] == 'l') by {
        reveal_strlit("model ");
        assert("model "@[0] == 'm' && "model "@[1] == 'o' && "model "@[2] == 'd' && "model "@[4] == 'l');
    }
    assert(c.last() == m.last());
    lemma_slashed(c);
    lemma_slash_word_of(c);
    lemma_put_behind("model "@, m);
    law_trim_undoes_padding(Seq::empty(), m, Seq::empty());
}

/// `/mode m` sets the mode `m` and `/model m` the model `m`, each whole.
pub proof fn law_slash_settings_take_the_whole_word(m: Seq<char>)
    requires
        neat(m),
        m.len() > 0,
    ensures
        agent_command("/"@ + ("mode "@ + m)) == AgentCommandModel::Mode(m),
        agent_command("/"@ + ("model "@ + m)) == AgentCommandModel::Model(m),
{
    lemma_slash_mode(m);
    lemma_slash_model(m);
}

/// `/qos w` boots with a display exactly where `w` asks for one.
pub proof fn law_boot_is_graphical_when_asked(w: Seq<char>)
    requires
        neat(w),
        w.len() > 0,
    ensures
        agent_command("/"@ + ("qos "@ + w)) == (AgentCommandModel::Qos {
            graphical: w == "--graphical"@ || w == "-g"@ || w == "graphical"@,
        }),
{
    lemma_slash_words();
    let a = "qos "@ + w;
    assert(a.last() == w.last());
    lemma_slashed(a);
    lemma_slash_word_of(a);
    reveal_strlit(" ");
    assert(a =~= "qos"@ + (" "@ + w));
    lemma_put_behind("qos "@, w);
    lemma_put_behind("qos"@, " "@ + w);
    law_trim_undoes_padding(" "@, w, Seq::empty());
    assert(" "@ + w + Seq::<char>::empty() =~= " "@ + w);
}

/// A slash command that is none of these is not known, and is named as it was written.
pub proof fn law_strange_slash_commands_are_named(c: Seq<char>)
    requires
        neat(c),
        c != "help"@ && c != "?"@ && c != "quit"@ && c != "exit"@ && c != "q"@,
        c != "yolo"@ && c != "plan"@ && c != "default"@ && c != "auto"@ && c != "auto-edit"@,
        c != "stop"@ && c != "cancel"@ && c != "clear"@ && c != "qos"@,
        !starts(c, "mode "@) && !starts(c, "model "@) && !starts(c, "qos "@),
    ensures
        agent_command("/"@ + c) == AgentCommandModel::Unknown(c),
{
    lemma_slashed(c);
}

/// A line without a slash is a task for the agent, whole.
pub proof fn law_lines_are_tasks(t: Seq<char>)
    requires
        t.len() == 0 || t[0] != '/',
    ensures
        agent_command(t) == AgentCommandModel::Task(t),
{
    reveal_strlit("/");
    lemma_starts_with(t, "/"@);
    assert("/"@[0] == '/');
}

/// A task goes to an agent that is ready, whole; the view goes to the end.
pub proof fn law_task_is_a_turn(s: AppModel, t: Seq<char>)
    requires
        s.harness.pending is None,
        s.harness.status != HarnessStatus::Thinking && s.harness.status
            != HarnessStatus::Starting,
    ensures
        s.agent_did(AgentCommandModel::Task(t)) == (
            AppModel { harness: s.harness.user_turn(t), scroll: 0, ..s },
            s.harness.user_turn_actions(t),
        ),
{
}

/// A task for an agent that works or asks is refused with a notice, and nothing is sent.
pub proof fn law_refused_task_is_noted(s: AppModel, t: Seq<char>, graphical: bool)
    requires
        s.harness.bounded(),
    ensures
        ({
            let task = s.agent_did(AgentCommandModel::Task(t));
            let boot = s.agent_did(AgentCommandModel::Qos { graphical });
            let asks
                = "[approval pending \u{2014} press a (allow), s (allow always), or d (deny)]"@;
            let busy = s.harness.status == HarnessStatus::Thinking || s.harness.status
                == HarnessStatus::Starting;
            &&& s.harness.pending is Some ==> task.1.len() == 0 && boot.1.len() == 0 && adds_row(
                s.harness.lines,
                task.0.harness.lines,
                LineModel::Notice(asks),
            ) && adds_row(s.harness.lines, boot.0.harness.lines, LineModel::Notice(asks))
            &&& s.harness.pending is None && busy ==> task.1.len() == 0 && boot.1.len() == 0
                && adds_row(
                s.harness.lines,
                task.0.harness.lines,
                LineModel::Notice("[agent is working \u{2014} wait for it to finish]"@),
            ) && adds_row(
                s.harness.lines,
                boot.0.harness.lines,
                LineModel::Notice("[agent is working \u{2014} wait for it to finish or /stop]"@),
            )
            &&& s.harness.pending is Some || busy ==> task.0.harness.pending == s.harness.pending
                && task.0.harness.status == s.harness.status && task.0.harness.child
                == s.harness.child
        }),
{
    lemma_pushed(
        s.harness,
        LineModel::Notice(
            "[approval pending \u{2014} press a (allow), s (allow always), or d (deny)]"@,
        ),
    );
    lemma_pushed(
        s.harness,
        LineModel::Notice("[agent is working \u{2014} wait for it to finish]"@),
    );
    lemma_pushed(
        s.harness,
        LineModel::Notice("[agent is working \u{2014} wait for it to finish or /stop]"@),
    );
}

/// The boot command is a notice and a turn with its own prompt, the graphical one with the
/// graphical prompt.
pub proof fn law_boot_is_a_turn(s: AppModel)
    requires
        s.harness.bounded(),
        s.harness.pending is None,
        s.harness.status != HarnessStatus::Thinking && s.harness.status
            != HarnessStatus::Starting,
        !s.harness.child,
    ensures
        s.agent_did(AgentCommandModel::Qos { graphical: false }).1 == seq![
            ActionModel::SpawnAgent {
                mode: s.harness.mode,
                model: s.harness.model,
                turn: QOS_BOOT_PROMPT@,
            },
        ],
        s.agent_did(AgentCommandModel::Qos { graphical: true }).1 == seq![
            ActionModel::SpawnAgent {
                mode: s.harness.mode,
                model: s.harness.model,
                turn: QOS_BOOT_GRAPHICAL_PROMPT@,
            },
        ],
        adds_row(
            s.harness.lines,
            s.agent_did(AgentCommandModel::Qos { graphical: false }).0.harness.lines,
            LineModel::Notice("[/qos \u{2014} booting QuantumOS on a qBraid Lab instance]"@),
        ),
        adds_row(
            s.harness.lines,
            s.agent_did(AgentCommandModel::Qos { graphical: true }).0.harness.lines,
            LineModel::Notice(
                "[/qos --graphical \u{2014} booting QuantumOS with a live browser view]"@,
            ),
        ),
{
    lemma_pushed(
        s.harness,
        LineModel::Notice("[/qos \u{2014} booting QuantumOS on a qBraid Lab instance]"@),
    );
    lemma_pushed(
        s.harness,
        LineModel::Notice("[/qos --graphical \u{2014} booting QuantumOS with a live browser view]"@),
    );
}

/// The other commands of the Agent tab: help, quitting, the mode, the model, stopping and
/// clearing each do their own thing; one that is not known is named in a notice.
pub proof fn law_agent_commands_do_their_own_thing(s: AppModel, m: Seq<char>)
    requires
        s.harness.bounded(),
    ensures
        s.agent_did(AgentCommandModel::Help) == (
            AppModel { show_help: true, ..s },
            Seq::<ActionModel>::empty(),
        ),
        s.agent_did(AgentCommandModel::Quit) == (
            AppModel { should_quit: true, ..s },
            Seq::<ActionModel>::empty(),
        ),
        s.agent_did(AgentCommandModel::Mode(m)).0 == (AppModel {
            harness: s.harness.with_mode(m),
            ..s
        }),
        s.agent_did(AgentCommandModel::Mode(m)).1 == s.harness.mode_actions(m),
        s.agent_did(AgentCommandModel::Model(m)) == (
            AppModel { harness: s.harness.with_model(m), ..s },
            s.harness.end_actions(),
        ),
        s.agent_did(AgentCommandModel::Stop) == (
            AppModel { harness: s.harness.stopped(), ..s },
            s.harness.end_actions(),
        ),
        s.agent_did(AgentCommandModel::Clear) == (
            AppModel { harness: s.harness.cleared(), ..s },
            s.harness.end_actions(),
        ),
        s.agent_did(AgentCommandModel::Unknown(m)).1.len() == 0,
        adds_row(
            s.harness.lines,
            s.agent_did(AgentCommandModel::Unknown(m)).0.harness.lines,
            LineModel::Notice("[unknown command /"@ + m + " \u{2014} try /help]"@),
        ),
{
    lemma_pushed(
        s.harness,
        LineModel::Notice("[unknown command /"@ + m + " \u{2014} try /help]"@),
    );
}

/// A memory command is echoed with its text in quotation marks, and runs its job on that
/// text.
pub proof fn law_memory_commands_are_echoed(s: AppModel, t: Seq<char>, input: Seq<char>, now: u64)
    requires
        s.log.bounded(),
        !s.log.cmd_pending,
    ensures
        runs_job(
            s,
            s.did(CommandModel::Remember(t), input, now),
            "remember"@ + " \""@ + t + "\""@,
            JobModel::Remember(t),
        ),
        runs_job(
            s,
            s.did(CommandModel::Recall(t), input, now),
            "recall"@ + " \""@ + t + "\""@,
            JobModel::Recall(t),
        ),
        runs_job(
            s,
            s.did(CommandModel::Forget(t), input, now),
            "forget"@ + " \""@ + t + "\""@,
            JobModel::Forget(t),
        ),
{
    law_messages_go_to_the_end(
        s.log,
        MessageModel { role: Role::User, content: "remember"@ + " \""@ + t + "\""@ },
    );
    law_messages_go_to_the_end(
        s.log,
        MessageModel { role: Role::User, content: "recall"@ + " \""@ + t + "\""@ },
    );
    law_messages_go_to_the_end(
        s.log,
        MessageModel { role: Role::User, content: "forget"@ + " \""@ + t + "\""@ },
    );
}

/// Whether the step from `s` to `r` echoes `label` and runs the memory job, and does nothing
/// else.
pub open spec fn runs_job(
    s: AppModel,
    r: (AppModel, Seq<ActionModel>),
    label: Seq<char>,
    job: JobModel,
) -> bool {
    &&& r.1 == seq![ActionModel::Run(job)]
    &&& adds_message(s.log.messages, r.0.log.messages, Role::User, label)
    &&& r.0 == (AppModel {
        scroll: 0,
        log: crate::log::LogModel {
            cmd_pending: true,
            messages: r.0.log.messages,
            ..s.log
        },
        ..s
    })
}

/// A dream that is asked for in the bar is echoed and started, and the bus with it where it
/// is off; while one runs it is refused.
pub proof fn law_dream_command_starts_a_dream(
    s: AppModel,
    mode: Seq<char>,
    input: Seq<char>,
    now: u64,
)
    requires
        s.log.bounded(),
    ensures
        ({
            let r = s.did(CommandModel::Dream(mode), input, now);
            &&& !s.bus.dream_pending && !s.bus.child ==> r.1 == seq![
                ActionModel::SpawnBus,
                ActionModel::Run(JobModel::Dream(mode)),
            ]
            &&& !s.bus.dream_pending && s.bus.child ==> r.1 == seq![
                ActionModel::Run(JobModel::Dream(mode)),
            ]
            &&& !s.bus.dream_pending ==> r.0.bus.dream_pending && r.0.bus.dream_run
                == (crate::bus::DreamRunModel::Running { mode, started: now })
            &&& !s.bus.dream_pending ==> r.0.log.messages.last() == (MessageModel {
                role: Role::System,
                content: "Dream cycle started in background \u{2014} Dreams tab for progress."@,
            })
            &&& s.bus.dream_pending ==> r.1.len() == 0 && r.0.bus == s.bus && adds_message(
                s.log.messages,
                r.0.log.messages,
                Role::System,
                "A dream is already running \u{2014} wait for it to finish."@,
            )
            &&& r.0.tab == s.tab && r.0.scroll == 0
        }),
{
    let refused = MessageModel {
        role: Role::System,
        content: "A dream is already running \u{2014} wait for it to finish."@,
    };
    let echo = MessageModel { role: Role::User, content: "dream --mode "@ + mode };
    let told = MessageModel {
        role: Role::System,
        content: "Dream cycle started in background \u{2014} Dreams tab for progress."@,
    };
    law_messages_go_to_the_end(s.log, refused);
    law_messages_go_to_the_end(s.log, echo);
    law_messages_go_to_the_end(s.log.push(echo), told);
}

/// The other commands of the bar: the figures are asked for, a wrong use is told, a
/// subcommand runs, the constellation is opened, help is shown, the program is left; what
/// is no command is a turn of the conversation.
pub proof fn law_bar_commands_do_their_own_thing(
    s: AppModel,
    words: Seq<char>,
    args: Seq<Seq<char>>,
    secs: u64,
    input: Seq<char>,
    now: u64,
)
    requires
        s.log.bounded(),
    ensures
        ({
            let r = s.did(CommandModel::Refresh, input, now);
            &&& r.1 == s.log.refreshed(now).1
            &&& adds_message(s.log.messages, r.0.log.messages, Role::System, "Status refreshed."@)
            &&& r.0.log.status_pending && r.0.log.observe_pending
        }),
        ({
            let r = s.did(CommandModel::Usage(words), input, now);
            &&& r.1.len() == 0
            &&& adds_message(s.log.messages, r.0.log.messages, Role::Error, words)
        }),
        !s.log.pass_pending ==> s.did(
            CommandModel::Pass { label: words, args, secs },
            input,
            now,
        ).1 == seq![ActionModel::Run(JobModel::Pass { args, secs })],
        ({
            let r = s.did(CommandModel::Cosmos, input, now);
            &&& r.0.tab == Tab::Cosmos
            &&& !s.cosmos.pending ==> r.1 == seq![ActionModel::LoadCosmos]
            &&& s.cosmos.pending ==> r.1.len() == 0
            &&& adds_message(
                s.log.messages,
                r.0.log.messages,
                Role::System,
                "Opening Cosmos \u{2014} constellation + radio status."@,
            )
        }),
        s.did(CommandModel::Help, input, now) == (
            AppModel { show_help: true, scroll: 0, ..s },
            Seq::<ActionModel>::empty(),
        ),
        s.did(CommandModel::Quit, input, now) == (
            AppModel { should_quit: true, scroll: 0, ..s },
            Seq::<ActionModel>::empty(),
        ),
        !s.chat.pending ==> s.did(CommandModel::Chat, input, now) == (
            AppModel { tab: Tab::Chat, scroll: 0, chat: s.chat.said(input), ..s },
            s.chat.turn_actions(input),
        ),
        s.chat.pending ==> s.did(CommandModel::Chat, input, now) == (
            AppModel { tab: Tab::Chat, ..s },
            Seq::<ActionModel>::empty(),
        ),
{
    law_refresh_asks_for_both(s.log, now);
    law_messages_go_to_the_end(
        s.log.refreshed(now).0,
        MessageModel { role: Role::System, content: "Status refreshed."@ },
    );
    law_messages_go_to_the_end(s.log, MessageModel { role: Role::Error, content: words });
    law_messages_go_to_the_end(
        s.log,
        MessageModel {
            role: Role::System,
            content: "Opening Cosmos \u{2014} constellation + radio status."@,
        },
    );
}

/// On the Chat tab `/code t` and `/topus t` ask each for its own plugin with `t`, whole;
/// while a turn is pending they do nothing.
pub proof fn law_plugins_get_their_prompt(s: AppModel, t: Seq<char>, now: u64)
    requires
        neat(t),
    ensures
        !s.chat.pending ==> s.chat_did("/code "@ + t, now).1 == seq![
            ActionModel::ProbePlugin { binary: "kannaka-code"@, prompt: t },
        ] && s.chat_did("/code "@ + t, now).0.chat == s.chat.plugin_called("/code"@, t),
        !s.chat.pending ==> s.chat_did("/topus "@ + t, now).1 == seq![
            ActionModel::ProbePlugin { binary: "kannaktopus"@, prompt: t },
        ] && s.chat_did("/topus "@ + t, now).0.chat == s.chat.plugin_called("/topus"@, t),
        s.chat.pending ==> s.chat_did("/code "@ + t, now) == (s, Seq::<ActionModel>::empty())
            && s.chat_did("/topus "@ + t, now) == (s, Seq::<ActionModel>::empty()),
{
    law_trim_undoes_padding(Seq::empty(), t, Seq::empty());
    lemma_put_behind("/code "@, t);
    lemma_put_behind("/topus "@, t);
    reveal_strlit("/code ");
    reveal_strlit("/topus ");
    lemma_starts_with("/topus "@ + t, "/code "@);
    assert("/code "@.len() == 6);
    assert("/topus "@[1] == 't');
    assert(("/topus "@ + t)[1] == 't');
    assert("/code "@[1] == 'c');
}

/// Enter sends the line, unless it belongs to a paste. White space round a line makes no
/// difference, and a blank line does nothing.
pub proof fn law_enter_sends_the_line(
    s: AppModel,
    a: Seq<char>,
    t: Seq<char>,
    b: Seq<char>,
    now: u64,
)
    requires
        !s.show_help,
        !s.bar.pasting(now),
        all_white(a),
        all_white(b),
        neat(t),
    ensures
        s.keyed(plain_key(Key::Enter), now) == s.submitted(now),
        t.len() == 0 && s.bar.input == a + t + b ==> s.submitted(now) == (
            s,
            Seq::<ActionModel>::empty(),
        ),
        t.len() > 0 && s.bar.input == a + t + b ==> s.submitted(now) == with_line(s, t).submitted(
            now,
        ),
{
    law_trim_undoes_padding(a, t, b);
    if t.len() > 0 && s.bar.input == a + t + b {
        let l = with_line(s, t);
        assert((AppModel { bar: s.bar.remembering(t).emptied(), ..s }) == (AppModel {
            bar: l.bar.remembering(t).emptied(),
            ..l
        }));
    }
}

/// The application with a line in its bar.
pub open spec fn with_line(s: AppModel, t: Seq<char>) -> AppModel {
    AppModel { bar: crate::bar::BarModel { input: t, ..s.bar }, ..s }
}

/// A tab that is entered shows its end and asks for what it shows: the Status tab for the
/// figures, the three tabs of the bus for the bus, the Cosmos tab for the constellation
/// when it is due.
pub proof fn law_tab_asks_for_what_it_shows(s: AppModel, now: u64)
    ensures
        s.entered(now).0.scroll == 0,
        s.entered(now).0.tab == s.tab,
        s.tab == Tab::Status ==> s.entered(now).1 == s.log.refreshed(now).1,
        (s.tab == Tab::Bus || s.tab == Tab::Constellation || s.tab == Tab::Dreams) && !s.bus.child
            ==> s.entered(now).1 == seq![ActionModel::SpawnBus],
        (s.tab == Tab::Bus || s.tab == Tab::Constellation || s.tab == Tab::Dreams) && s.bus.child
            ==> s.entered(now).1.len() == 0,
        s.tab == Tab::Cosmos && s.cosmos.due(now) && !s.cosmos.pending ==> s.entered(now).1
            == seq![ActionModel::LoadCosmos],
        s.tab == Tab::Cosmos && !s.cosmos.due(now) ==> s.entered(now).1.len() == 0,
        s.tab == Tab::Memory || s.tab == Tab::Chat || s.tab == Tab::Agent ==> s.entered(now) == (
            AppModel { scroll: 0, ..s },
            Seq::<ActionModel>::empty(),
        ),
{
}

/// The program starts on the Agent tab, with an empty bar and nothing running.
pub proof fn law_program_starts_with_the_agent(name: Seq<char>)
    ensures
        ({
            let s = AppModel::initial(name);
            &&& s.tab == Tab::Agent && s.bar.input.len() == 0 && s.agent_name == name
            &&& !s.should_quit && !s.show_help && s.scroll == 0
            &&& !s.chat.pending && s.chat.child is None && !s.bus.child && !s.bus.dream_pending
            &&& s.bus.status == BusStatus::Off && !s.cosmos.pending && !s.harness.child
            &&& !s.log.cmd_pending && !s.log.pass_pending && !s.log.status_pending
            &&& !s.log.observe_pending && s.log.last_status_poll is None
            &&& s.log.status is None && s.log.memories.len() == 0 && s.cosmos.last_load is None
            &&& s.log.messages == seq![
                MessageModel {
                    role: Role::System,
                    content: "Welcome to Kannaka TUI. Agent: "@ + name
                        + ". Type a command or press F1 for help."@,
                },
            ]
            &&& s.chat.messages == seq![
                ChatLineModel {
                    who: ChatWho::System,
                    text: "Chat with Kannaka. Memories surface via wave resonance each turn. Enter to send."@,
                },
            ]
            &&& s.bus.lines.len() == 0 && s.bus.agents.len() == 0 && s.bus.dreams.len() == 0
            &&& s.bus.dream_run is Idle && s.cosmos.apps.len() == 0 && s.cosmos.error is None
            &&& s.bar.cursor == 0 && s.bar.history.len() == 0 && s.bar.history_idx is None
            &&& s.bar.last_paste_at is None
            &&& s.wf()
        }),
{
}

/// A dream that ended well asks for the figures again, one that failed does not.
pub proof fn law_dream_refreshes_the_figures(
    s: AppModel,
    fs: Seq<crate::payload::BusFrameModel>,
    gone: bool,
    summary: String,
    error: String,
    now: u64,
)
    ensures
        s.bus_polled(fs, gone, crate::action::Answer::Got(Ok(summary)), now).1
            == s.log.refreshed(now).1,
        s.bus_polled(fs, gone, crate::action::Answer::Got(Err(error)), now).1.len() == 0,
        s.bus_polled(fs, gone, crate::action::Answer::Waiting, now).1.len() == 0,
        s.bus_polled(fs, gone, crate::action::Answer::Waiting, now).0.bus == s.bus.polled(
            fs,
            gone,
            now,
        ),
{
}

} // verus!
