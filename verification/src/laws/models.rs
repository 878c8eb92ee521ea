//! What holds of the models: each says of its value what the value holds, field by field.

use vstd::prelude::*;
use crate::action::{Action, ActionModel, Job, JobModel};
use crate::agent::{AgentEvent, AgentEventModel};
use crate::app::App;
use crate::bar::Bar;
use crate::bus::{Bus, DreamRun, DreamRunModel};
use crate::chat::{Chat, ChatEvent, ChatEventModel, ChatLine};
use crate::command::{AgentCommand, AgentCommandModel, Command, CommandModel};
use crate::cosmos::{Cosmos, CosmosApp};
use crate::harness::{AgentLine, Harness, LineModel, PendingApproval, SpawnModel, SpawnOutcome};
use crate::log::Log;
use crate::payload::{AgentSnapshot, BusFrame, BusLine, DreamEvent};
use crate::reports::{Capture, CaptureModel, CmdResult, MemoryEntry, Message, Status};
use crate::view::rows::Span;

verus! {

/// The figures of a status stand in the fields of their names, and so do those of a memory,
/// a dream and a phase.
pub proof fn law_figures_stand_in_their_fields(
    s: Status,
    m: MemoryEntry,
    d: DreamEvent,
    a: AgentSnapshot,
)
    ensures
        s@.phi == s.phi && s@.xi == s.xi && s@.order == s.order && s@.memories == s.memories,
        s@.clusters == s.clusters && s@.links == s.links && s@.level == s.level@,
        s@.active == s.active,
        m@.content == m.content@ && m@.amplitude == m.amplitude,
        d@.ts_ms == d.ts_ms && d@.agent_id == d.agent_id@ && d@.cycles == d.cycles,
        d@.strengthened == d.strengthened && d@.pruned == d.pruned,
        d@.new_connections == d.new_connections && d@.hallucinations == d.hallucinations,
        d@.consciousness_before == d.consciousness_before,
        d@.consciousness_after == d.consciousness_after && d@.emerged == d.emerged,
        a@.agent_id == a.agent_id@ && a@.theta == a.theta && a@.phi == a.phi,
        a@.coherence == a.coherence && a@.order_parameter == a.order_parameter,
        a@.handedness == a.handedness@ && a@.memory_count == a.memory_count,
        a@.last_seen == a.last_seen,
{
}

/// So do the parts of the lines of the log, the bus, the chat and the constellation, and
/// those of a request and of a span.
pub proof fn law_lines_stand_in_their_fields(
    m: Message,
    r: CmdResult,
    b: BusLine,
    f: BusFrame,
    c: ChatLine,
    a: CosmosApp,
    p: PendingApproval,
    s: Span,
)
    ensures
        m@.role == m.role && m@.content == m.content@,
        r@.refresh_observe == r.refresh_observe && r@.messages.len() == r.messages@.len(),
        forall|i: int|
            0 <= i < r.messages@.len() ==> #[trigger] r@.messages[i] == r.messages@[i]@,
        b@.ts_ms == b.ts_ms && b@.subject == b.subject@ && b@.summary == b.summary@,
        f@.line == f.line@ && (f@.agent is Some <==> f.agent is Some),
        f@.dream is Some <==> f.dream is Some,
        f.agent is Some ==> f@.agent == Some(f.agent->Some_0@),
        f.dream is Some ==> f@.dream == Some(f.dream->Some_0@),
        c@.who == c.who && c@.text == c.text@,
        a@.name == a.name@ && a@.up == a.up && a@.url == a.url@,
        p@.id == p.id@ && p@.name == p.name@ && p@.summary == p.summary@ && p@.danger == p.danger,
        s@.text == s.text@ && s@.style == s.style,
{
}

/// So do the parts of what the agent and the partner say and of what they are started with.
pub proof fn law_events_stand_for_what_they_say(
    e: AgentEvent,
    c: ChatEvent,
    o: SpawnOutcome,
    x: Capture,
)
    ensures
        e matches AgentEvent::ToolResult { id, content, is_error } ==> e@ == (
        AgentEventModel::ToolResult { id: id@, content: content@, is_error }),
        e matches AgentEvent::ToolUse { id, name, summary, read_only, danger } ==> e@ == (
        AgentEventModel::ToolUse { id: id@, name: name@, summary: summary@, read_only, danger }),
        e matches AgentEvent::ApprovalRequired { id, name, summary, danger } ==> e@ == (
        AgentEventModel::ApprovalRequired { id: id@, name: name@, summary: summary@, danger }),
        e matches AgentEvent::Ready { model, mode, cwd } ==> e@ == (AgentEventModel::Ready {
            model: model@,
            mode: mode@,
            cwd: cwd@,
        }),
        e matches AgentEvent::Usage { input, output } ==> e@ == (AgentEventModel::Usage {
            input,
            output,
        }),
        e matches AgentEvent::Text(t) ==> e@ == AgentEventModel::Text(t@),
        e matches AgentEvent::Done(t) ==> e@ == AgentEventModel::Done(t@),
        e matches AgentEvent::Error(t) ==> e@ == AgentEventModel::Error(t@),
        e matches AgentEvent::Mode(t) ==> e@ == AgentEventModel::Mode(t@),
        e matches AgentEvent::Closed(t) ==> e@ == AgentEventModel::Closed(t@),
        e matches AgentEvent::Iteration(n) ==> e@ == AgentEventModel::Iteration(n),
        c matches ChatEvent::Response { kind, text } ==> c@ == (ChatEventModel::Response {
            kind: kind@,
            text: text@,
        }),
        c matches ChatEvent::Closed(t) ==> c@ == ChatEventModel::Closed(t@),
        c is Stdin <==> c@ is Stdin,
        c is Ready <==> c@ is Ready,
        o matches SpawnOutcome::Up { stdin } ==> o@ == (SpawnModel::Up { stdin }),
        o matches SpawnOutcome::NoOutput { stdin } ==> o@ == (SpawnModel::NoOutput { stdin }),
        o matches SpawnOutcome::Failed(t) ==> o@ == SpawnModel::Failed(t@),
        x matches Capture::Exit { success, stdout, stderr } ==> x@ == (CaptureModel::Exit {
            success,
            stdout: stdout@,
            stderr: stderr@,
        }),
        x matches Capture::Failed(t) ==> x@ == CaptureModel::Failed(t@),
{
}

/// So do the parts of the commands and of what they ask for.
pub proof fn law_commands_stand_for_what_they_ask(
    c: Command,
    k: AgentCommand,
    a: Action,
    j: Job,
)
    ensures
        c matches Command::Remember(t) ==> c@ == CommandModel::Remember(t@),
        c matches Command::Recall(t) ==> c@ == CommandModel::Recall(t@),
        c matches Command::Forget(t) ==> c@ == CommandModel::Forget(t@),
        c matches Command::Dream(t) ==> c@ == CommandModel::Dream(t@),
        c matches Command::Usage(t) ==> c@ == CommandModel::Usage(t@),
        c is Refresh <==> c@ is Refresh,
        c is Cosmos <==> c@ is Cosmos,
        c is Help <==> c@ is Help,
        c is Quit <==> c@ is Quit,
        c is Chat <==> c@ is Chat,
        c is Pass ==> c@ is Pass && c@->Pass_label == c->Pass_label@ && c@->Pass_secs
            == c->Pass_secs && c@->Pass_args.len() == c->Pass_args@.len(),
        forall|i: int|
            c is Pass && 0 <= i < c->Pass_args@.len() ==> #[trigger] c@->Pass_args[i]
                == c->Pass_args@[i]@,
        k matches AgentCommand::Mode(t) ==> k@ == AgentCommandModel::Mode(t@),
        k matches AgentCommand::Model(t) ==> k@ == AgentCommandModel::Model(t@),
        k matches AgentCommand::Unknown(t) ==> k@ == AgentCommandModel::Unknown(t@),
        k matches AgentCommand::Task(t) ==> k@ == AgentCommandModel::Task(t@),
        k matches AgentCommand::Qos { graphical } ==> k@ == (AgentCommandModel::Qos { graphical }),
        k is Help <==> k@ is Help,
        k is Quit <==> k@ is Quit,
        k is Stop <==> k@ is Stop,
        k is Clear <==> k@ is Clear,
        a matches Action::SpawnAgent { mode, model, turn } ==> a@ == (ActionModel::SpawnAgent {
            mode: mode@,
            model: model@,
            turn: turn@,
        }),
        a matches Action::SendAgent(t) ==> a@ == ActionModel::SendAgent(t@),
        a matches Action::SendChat(t) ==> a@ == ActionModel::SendChat(t@),
        a matches Action::Run(j) ==> a@ == ActionModel::Run(j@),
        a matches Action::ProbePlugin { binary, prompt } ==> a@ == (ActionModel::ProbePlugin {
            binary: binary@,
            prompt: prompt@,
        }),
        a matches Action::RunPlugin { binary, prompt } ==> a@ == (ActionModel::RunPlugin {
            binary: binary@,
            prompt: prompt@,
        }),
        a is KillAgent <==> a@ is KillAgent,
        a is SpawnBus <==> a@ is SpawnBus,
        a is KillBus <==> a@ is KillBus,
        a is LoadCosmos <==> a@ is LoadCosmos,
        a is SpawnChat <==> a@ is SpawnChat,
        j matches Job::Remember(t) ==> j@ == JobModel::Remember(t@),
        j matches Job::Recall(t) ==> j@ == JobModel::Recall(t@),
        j matches Job::Forget(t) ==> j@ == JobModel::Forget(t@),
        j matches Job::Dream(t) ==> j@ == JobModel::Dream(t@),
        j is Status <==> j@ is Status,
        j is Observe <==> j@ is Observe,
        j is Constellation <==> j@ is Constellation,
        j is Radio <==> j@ is Radio,
        j is Pass ==> j@ is Pass && j@->Pass_secs == j->Pass_secs && j@->Pass_args.len()
            == j->Pass_args@.len(),
        forall|i: int|
            j is Pass && 0 <= i < j->Pass_args@.len() ==> #[trigger] j@->Pass_args[i]
                == j->Pass_args@[i]@,
{
}

/// So do the parts of the transcript and of a dream that runs.
pub proof fn law_rows_stand_for_what_they_show(l: AgentLine, d: DreamRun)
    ensures
        l matches AgentLine::User(t) ==> l@ == LineModel::User(t@),
        l matches AgentLine::Assistant(t) ==> l@ == LineModel::Assistant(t@),
        l matches AgentLine::Notice(t) ==> l@ == LineModel::Notice(t@),
        l is Tool ==> l@ is Tool && l@->Tool_id == l->Tool_id@ && l@->Tool_name == l->Tool_name@
            && l@->Tool_summary == l->Tool_summary@ && l@->Tool_danger == l->Tool_danger
            && l@->Tool_is_error == l->Tool_is_error && l@->Tool_awaiting == l->Tool_awaiting,
        l is Tool && l->Tool_result is None ==> l@->Tool_result is None,
        l is Tool && l->Tool_result is Some ==> l@->Tool_result == Some(l->Tool_result->Some_0@),
        d is Idle <==> d@ is Idle,
        d matches DreamRun::Running { mode, started } ==> d@ == (DreamRunModel::Running {
            mode: mode@,
            started,
        }),
        d matches DreamRun::Done { mode, took, summary } ==> d@ == (DreamRunModel::Done {
            mode: mode@,
            took,
            summary: summary@,
        }),
        d matches DreamRun::Failed { mode, error } ==> d@ == (DreamRunModel::Failed {
            mode: mode@,
            error: error@,
        }),
{
}

/// So do the parts of the application itself.
pub proof fn law_state_stands_in_its_fields(
    s: App,
    b: Bar,
    l: Log,
    c: Chat,
    u: Bus,
    k: Cosmos,
    h: Harness,
)
    ensures
        s@.tab == s.tab && s@.agent_name == s.agent_name@ && s@.should_quit == s.should_quit,
        s@.scroll == s.scroll && s@.show_help == s.show_help && s@.bar == s.bar@,
        s@.log == s.log@ && s@.chat == s.chat@ && s@.bus == s.bus@ && s@.cosmos == s.cosmos@,
        s@.harness == s.harness@,
        b@.input == b.input@ && b@.cursor == b.cursor && b@.history_idx == b.history_idx,
        b@.last_paste_at == b.last_paste_at,
        l@.status_pending == l.status_pending && l@.observe_pending == l.observe_pending,
        l@.cmd_pending == l.cmd_pending && l@.pass_pending == l.pass_pending,
        l.status is Some ==> l@.status == Some(l.status->Some_0@),
        l.status is None ==> l@.status is None,
        c@.pending == c.pending && c@.tick == c.tick && c@.child == c.child,
        c@.plugin == c.plugin,
        c.waiting is Some ==> c@.waiting == Some(c.waiting->Some_0@),
        c.waiting is None ==> c@.waiting is None,
        u@.status == u.status && u@.child == u.child && u@.dream_pending == u.dream_pending,
        u@.dream_run == u.dream_run@,
        k@.pending == k.pending && k@.last_load == k.last_load,
        k.error is Some ==> k@.error == Some(k.error->Some_0@),
        k.error is None ==> k@.error is None,
        h@.child == h.child && h@.stdin == h.stdin && h@.status == h.status,
        h@.mode == h.mode@ && h@.model == h.model@ && h@.cwd == h.cwd@,
        h@.usage_in == h.usage_in && h@.usage_out == h.usage_out && h@.iter == h.iter,
        h@.tick == h.tick,
        h.pending is Some ==> h@.pending == Some(h.pending->Some_0@),
        h.pending is None ==> h@.pending is None,
        forall|i: int| 0 <= i < b.history@.len() ==> #[trigger] b@.history[i] == b.history@[i]@,
        forall|i: int| 0 <= i < l.messages@.len() ==> #[trigger] l@.messages[i] == l.messages@[i]@,
        forall|i: int| 0 <= i < l.memories@.len() ==> #[trigger] l@.memories[i] == l.memories@[i]@,
        forall|i: int| 0 <= i < c.messages@.len() ==> #[trigger] c@.messages[i] == c.messages@[i]@,
        forall|i: int| 0 <= i < u.lines@.len() ==> #[trigger] u@.lines[i] == u.lines@[i]@,
        forall|i: int| 0 <= i < u.agents@.len() ==> #[trigger] u@.agents[i] == u.agents@[i]@,
        forall|i: int| 0 <= i < u.dreams@.len() ==> #[trigger] u@.dreams[i] == u.dreams@[i]@,
        forall|i: int| 0 <= i < k.apps@.len() ==> #[trigger] k@.apps[i] == k.apps@[i]@,
        forall|i: int| 0 <= i < k.radio@.len() ==> #[trigger] k@.radio[i] == k.radio@[i]@,
        forall|i: int| 0 <= i < h.lines@.len() ==> #[trigger] h@.lines[i] == h.lines@[i]@,
        b@.history.len() == b.history@.len() && l@.messages.len() == l.messages@.len(),
        l@.memories.len() == l.memories@.len() && c@.messages.len() == c.messages@.len(),
        u@.lines.len() == u.lines@.len() && u@.agents.len() == u.agents@.len(),
        u@.dreams.len() == u.dreams@.len() && k@.apps.len() == k.apps@.len(),
        k@.radio.len() == k.radio@.len() && h@.lines.len() == h.lines@.len(),
{
}

} // verus!
