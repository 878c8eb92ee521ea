//! What holds of the log of the command bar.

use vstd::prelude::*;
use crate::action::{ActionModel, Answer, JobModel};
use crate::log::LogModel;
use crate::reports::{
    memory_models, CmdResult, MemoryEntry, MessageModel, Role, Status, StatusModel,
};
use crate::text::decimal;

verus! {

/// Whether `new` is `old` with one more message at its end: where there is room none is
/// lost, else only the oldest one.
pub open spec fn adds_message(
    old: Seq<MessageModel>,
    new: Seq<MessageModel>,
    role: Role,
    content: Seq<char>,
) -> bool {
    &&& new.len() > 0 && new.last() == (MessageModel { role, content })
    &&& old.len() < 1000 ==> new.drop_last() == old
    &&& old.len() == 1000 ==> new.drop_last() == old.skip(1)
}

/// A message goes to the end of the log; nothing but the messages changes.
pub proof fn law_messages_go_to_the_end(l: LogModel, m: MessageModel)
    requires
        l.bounded(),
    ensures
        adds_message(l.messages, l.push(m).messages, m.role, m.content),
        l.push(m) == (LogModel { messages: l.push(m).messages, ..l }),
        l.push(m).bounded(),
{
    let all = l.messages.push(m);
    if l.messages.len() < 1000 {
        assert(all.drop_last() =~= l.messages);
    } else {
        assert(l.push(m).messages =~= all.skip(1));
        assert(all.skip(1).drop_last() =~= l.messages.skip(1));
    }
}

/// Messages are added in their order, each exactly once.
pub proof fn law_messages_are_added_in_order(l: LogModel, ms: Seq<MessageModel>, m: MessageModel)
    ensures
        l.push_all(Seq::empty()) == l,
        l.push_all(ms.push(m)) == l.push_all(ms).push(m),
{
    assert(ms.push(m).drop_last() =~= ms);
}

proof fn lemma_push_all_keeps(l: LogModel, ms: Seq<MessageModel>)
    ensures
        l.push_all(ms) == (LogModel { messages: l.push_all(ms).messages, ..l }),
    decreases ms.len(),
{
    if ms.len() > 0 {
        lemma_push_all_keeps(l, ms.drop_last());
    }
}

/// A memory command is echoed and runs its job; while one runs, the next is echoed and
/// refused, and nothing runs.
pub proof fn law_memory_command_runs_its_job(l: LogModel, label: Seq<char>, job: JobModel)
    requires
        l.bounded(),
    ensures
        ({
            let echoed = l.push(MessageModel { role: Role::User, content: label });
            let r = l.memory_command(label, job);
            &&& adds_message(l.messages, echoed.messages, Role::User, label)
            &&& !l.cmd_pending ==> r.1 == seq![ActionModel::Run(job)] && r.0 == (LogModel {
                cmd_pending: true,
                messages: echoed.messages,
                ..l
            })
            &&& l.cmd_pending ==> r.1.len() == 0 && adds_message(
                echoed.messages,
                r.0.messages,
                Role::System,
                "A memory command is already running \u{2014} wait for it to finish."@,
            ) && r.0.cmd_pending
        }),
{
    let m = MessageModel { role: Role::User, content: label };
    law_messages_go_to_the_end(l, m);
    law_messages_go_to_the_end(
        l.push(m),
        MessageModel {
            role: Role::System,
            content: "A memory command is already running \u{2014} wait for it to finish."@,
        },
    );
}

/// A subcommand is echoed, runs with its arguments and its limit, and is shown to run; while
/// one runs, the next is echoed and refused, and nothing runs.
pub proof fn law_subcommand_runs_its_words(
    l: LogModel,
    label: Seq<char>,
    args: Seq<Seq<char>>,
    secs: u64,
)
    requires
        l.bounded(),
    ensures
        ({
            let echoed = l.push(MessageModel { role: Role::User, content: label });
            let r = l.passthrough(label, args, secs);
            &&& adds_message(l.messages, echoed.messages, Role::User, label)
            &&& !l.pass_pending ==> r.1 == seq![ActionModel::Run(JobModel::Pass { args, secs })]
                && r.0.pass_pending && adds_message(
                echoed.messages,
                r.0.messages,
                Role::System,
                "Running... (up to "@ + decimal(secs as nat) + "s)"@,
            )
            &&& l.pass_pending ==> r.1.len() == 0 && r.0.pass_pending && adds_message(
                echoed.messages,
                r.0.messages,
                Role::System,
                "Another command is already running \u{2014} wait for it to finish."@,
            )
            &&& r.0 == (LogModel { messages: r.0.messages, pass_pending: true, ..l })
        }),
{
    let m = MessageModel { role: Role::User, content: label };
    law_messages_go_to_the_end(l, m);
    law_messages_go_to_the_end(
        l.push(m),
        MessageModel {
            role: Role::System,
            content: "Another command is already running \u{2014} wait for it to finish."@,
        },
    );
    law_messages_go_to_the_end(
        l.push(m),
        MessageModel {
            role: Role::System,
            content: "Running... (up to "@ + decimal(secs as nat) + "s)"@,
        },
    );
}

/// The figures are asked for once at a time: the status and then the observation.
pub proof fn law_refresh_asks_for_both(l: LogModel, now: u64)
    ensures
        !l.status_pending && !l.observe_pending ==> l.refreshed(now).1 == seq![
            ActionModel::Run(JobModel::Status),
            ActionModel::Run(JobModel::Observe),
        ],
        l.status_pending && !l.observe_pending ==> l.refreshed(now).1 == seq![
            ActionModel::Run(JobModel::Observe),
        ],
        !l.status_pending && l.observe_pending ==> l.refreshed(now).1 == seq![
            ActionModel::Run(JobModel::Status),
        ],
        l.status_pending && l.observe_pending ==> l.refreshed(now).1.len() == 0,
        l.refreshed(now).0.status_pending && l.refreshed(now).0.observe_pending,
        !l.status_pending ==> l.refreshed(now).0.last_status_poll == Some(now),
        l.refreshed(now).0.messages == l.messages && l.refreshed(now).0.status == l.status
            && l.refreshed(now).0.memories == l.memories,
{
}

/// The figures are due when they were never asked for, and else five seconds after they
/// were.
pub proof fn law_figures_are_due_after_five_seconds(l: LogModel, then: u64, now: u64)
    requires
        then <= now,
    ensures
        l.last_status_poll is None ==> l.due(now),
        l.last_status_poll == Some(then) ==> (l.due(now) <==> now - then > 5 * 1_000_000_000),
{
}

/// A status is shown as it came; an error is a message, and the status before it stays.
pub proof fn law_status_is_shown(l: LogModel, s: Status, e: String)
    requires
        l.bounded(),
    ensures
        l.status_polled(Answer::Got(Ok(s))) == (LogModel {
            status_pending: false,
            status: Some(s@),
            ..l
        }),
        ({
            let r = l.status_polled(Answer::Got(Err(e)));
            &&& adds_message(l.messages, r.messages, Role::Error, e@)
            &&& r == (LogModel { messages: r.messages, status_pending: false, ..l })
        }),
        l.status_polled(Answer::Waiting) == l,
        l.status_polled(Answer::Lost) == (LogModel { status_pending: false, ..l }),
{
    law_messages_go_to_the_end(l, MessageModel { role: Role::Error, content: e@ });
}

/// An observation gives the status its links and replaces the memories; an error is a
/// message, and what was observed before stays.
pub proof fn law_observation_is_shown(
    l: LogModel,
    links: u64,
    memories: Vec<MemoryEntry>,
    e: String,
)
    requires
        l.bounded(),
    ensures
        ({
            let r = l.observe_polled(Answer::Got(Ok((links, memories))));
            &&& r.memories == memory_models(memories@)
            &&& l.status is None ==> r.status is None
            &&& l.status matches Some(s) ==> r.status == Some(StatusModel { links, ..s })
            &&& r == (LogModel {
                memories: r.memories,
                status: r.status,
                observe_pending: false,
                ..l
            })
        }),
        ({
            let r = l.observe_polled(Answer::Got(Err(e)));
            &&& adds_message(l.messages, r.messages, Role::Error, e@)
            &&& r == (LogModel { messages: r.messages, observe_pending: false, ..l })
        }),
        l.observe_polled(Answer::Waiting) == l,
        l.observe_polled(Answer::Lost) == (LogModel { observe_pending: false, ..l }),
{
    law_messages_go_to_the_end(l, MessageModel { role: Role::Error, content: e@ });
}

/// The report of a command is shown whole, and the observation is asked for again exactly
/// where the command asks for it.
pub proof fn law_report_is_shown(l: LogModel, r: CmdResult)
    ensures
        ({
            let after = l.cmd_polled(Answer::Got(r));
            &&& !after.0.cmd_pending
            &&& after.0.messages == l.push_all(r@.messages).messages
            &&& r@.refresh_observe && !l.observe_pending ==> after.1 == seq![
                ActionModel::Run(JobModel::Observe),
            ] && after.0.observe_pending
            &&& !r@.refresh_observe ==> after.1.len() == 0 && after.0.observe_pending
                == l.observe_pending
            &&& after.0.pass_pending == l.pass_pending && after.0.status == l.status
        }),
        l.cmd_polled(Answer::Waiting) == (l, Seq::<ActionModel>::empty()),
        l.cmd_polled(Answer::Lost) == (
            LogModel { cmd_pending: false, ..l },
            Seq::<ActionModel>::empty(),
        ),
{
    lemma_push_all_keeps(LogModel { cmd_pending: false, ..l }, r@.messages);
    lemma_push_all_keeps(l, r@.messages);
    lemma_push_all_alike(LogModel { cmd_pending: false, ..l }, l, r@.messages);
}

proof fn lemma_push_all_alike(a: LogModel, b: LogModel, ms: Seq<MessageModel>)
    requires
        a.messages == b.messages,
    ensures
        a.push_all(ms).messages == b.push_all(ms).messages,
    decreases ms.len(),
{
    if ms.len() > 0 {
        lemma_push_all_alike(a, b, ms.drop_last());
    }
}

/// The report of a subcommand takes the place of the line that says that it runs.
pub proof fn law_report_replaces_what_runs(
    l: LogModel,
    label: Seq<char>,
    args: Seq<Seq<char>>,
    secs: u64,
    r: CmdResult,
)
    requires
        l.messages.len() + 2 <= 1000,
        !l.pass_pending,
    ensures
        ({
            let after = l.passthrough(label, args, secs).0.pass_polled(Answer::Got(r));
            &&& !after.0.pass_pending
            &&& after.0.messages == l.push(
                MessageModel { role: Role::User, content: label },
            ).push_all(r@.messages).messages
        }),
{
    let running = l.passthrough(label, args, secs).0;
    let echoed = l.push(MessageModel { role: Role::User, content: label });
    law_messages_go_to_the_end(l, MessageModel { role: Role::User, content: label });
    law_subcommand_runs_its_words(l, label, args, secs);
    let words = "Running... (up to "@ + decimal(secs as nat) + "s)"@;
    assert(crate::text::starts(words, "Running..."@)) by {
        reveal_strlit("Running...");
        reveal_strlit("Running... (up to ");
        assert(words.subrange(0, 10) =~= "Running..."@);
    }
    assert(running.shows_running());
    let s = LogModel {
        messages: running.messages.drop_last(),
        ..LogModel { pass_pending: false, ..running }
    };
    assert(s.messages == echoed.messages);
    lemma_push_all_keeps(s, r@.messages);
    lemma_push_all_alike(s, echoed, r@.messages);
}

} // verus!
