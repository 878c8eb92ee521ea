//! What holds of the conversation: what its partner's frames do to it, and what happens
//! to a turn.

use vstd::prelude::*;
use crate::action::ActionModel;
use crate::chat::{chat_line_event, ChatEventModel, ChatLineModel, ChatModel, ChatPartner, ChatWho};
use crate::json::json_read;
use crate::laws::fields::is_text_under;
use crate::laws::words::{all_white, law_trim_undoes_padding};
use crate::text::trim;

verus! {

/// Whether `new` is `old` with one more line, by `who` and of `text`: where there is room
/// no line is lost, else only the oldest one.
pub open spec fn adds_line(
    old: Seq<ChatLineModel>,
    new: Seq<ChatLineModel>,
    who: ChatWho,
    text: Seq<char>,
) -> bool {
    &&& new.len() > 0 && new.last() == (ChatLineModel { who, text })
    &&& old.len() < 500 ==> new.drop_last() == old
    &&& old.len() == 500 ==> new.drop_last() == old.skip(1)
}

proof fn lemma_kept(c: ChatModel, who: ChatWho, text: Seq<char>)
    requires
        c.bounded(),
    ensures
        adds_line(c.messages, c.line(who, text).kept().messages, who, text),
{
    let all = c.messages.push(ChatLineModel { who, text });
    if c.messages.len() < 500 {
        assert(c.line(who, text).kept().messages =~= all);
        assert(all.drop_last() =~= c.messages);
    } else {
        assert(c.line(who, text).kept().messages =~= all.skip(1));
        assert(all.skip(1).drop_last() =~= c.messages.skip(1));
    }
}

/// A frame of any kind but a chunk ends the turn, whether or not pieces of the answer came
/// before it; a chunk leaves the turn as it is. Neither touches anything but the turn and
/// the lines.
pub proof fn law_all_but_a_chunk_ends_the_turn(c: ChatModel, kind: Seq<char>, text: Seq<char>)
    ensures
        ({
            let r = c.heard(ChatEventModel::Response { kind, text });
            &&& kind != "chunk"@ ==> !r.pending
            &&& kind == "chunk"@ ==> r.pending == c.pending
            &&& r == (ChatModel { pending: r.pending, messages: r.messages, ..c })
        }),
{
}

/// An answer that was not streamed is a line of the partner, whole; one that was streamed
/// stands already and is not repeated. A frame of another kind is a line of the system.
pub proof fn law_answer_is_shown_once(c: ChatModel, kind: Seq<char>, text: Seq<char>)
    ensures
        ({
            let spoke = c.messages.len() > 0 && c.messages.last().who == ChatWho::Kannaka;
            let r = c.heard(ChatEventModel::Response { kind, text }).messages;
            &&& kind == "chat"@ && spoke ==> r == c.messages
            &&& kind == "chat"@ && !spoke ==> r == c.messages.push(
                ChatLineModel { who: ChatWho::Kannaka, text },
            )
            &&& kind != "chat"@ && kind != "chunk"@ ==> r == c.messages.push(
                ChatLineModel { who: ChatWho::System, text },
            )
        }),
{
    reveal_strlit("chat");
    reveal_strlit("chunk");
    assert("chat"@.len() == 4);
    assert("chunk"@.len() == 5);
}

/// A chunk goes behind what the partner said last, or begins its line; no line before it
/// changes.
pub proof fn law_chunk_goes_behind(c: ChatModel, text: Seq<char>)
    ensures
        ({
            let spoke = c.messages.len() > 0 && c.messages.last().who == ChatWho::Kannaka;
            let r = c.heard(ChatEventModel::Response { kind: "chunk"@, text }).messages;
            &&& r.last().who == ChatWho::Kannaka
            &&& spoke ==> r.len() == c.messages.len() && r.drop_last() == c.messages.drop_last()
                && r.last().text == c.messages.last().text + text
            &&& !spoke ==> r == c.messages.push(ChatLineModel { who: ChatWho::Kannaka, text })
        }),
{
    if c.messages.len() > 0 && c.messages.last().who == ChatWho::Kannaka {
        let r = c.heard(ChatEventModel::Response { kind: "chunk"@, text }).messages;
        assert(r.drop_last() =~= c.messages.drop_last());
    }
}

/// A frame of the partner has the kind and the text of its document; without a kind it is
/// a whole answer. What is no document is passed over.
pub proof fn law_frame_is_its_document(s: Seq<char>)
    ensures
        json_read(s) is Err ==> chat_line_event(s) is None,
        json_read(s) is Ok ==> (chat_line_event(s) matches Some(
            ChatEventModel::Response { kind, text },
        ) && is_text_under(json_read(s)->Ok_0, "kind"@, "chat"@, kind) && is_text_under(
            json_read(s)->Ok_0,
            "text"@,
            Seq::empty(),
            text,
        )),
{
    reveal_strlit("");
    assert(""@ =~= Seq::<char>::empty());
}

/// A turn is a line of the user as it was written, and is pending. A partner that listens
/// gets it at once and whole.
pub proof fn law_turn_reaches_the_partner(c: ChatModel, text: Seq<char>, ready: bool)
    requires
        c.bounded(),
        c.child == Some(ChatPartner { stdin: true, ready }),
    ensures
        adds_line(c.messages, c.said(text).messages, ChatWho::User, text),
        c.turn_actions(text) == seq![ActionModel::SendChat(text)],
        c.said(text) == (ChatModel { pending: true, messages: c.said(text).messages, ..c }),
{
    lemma_kept(c, ChatWho::User, text);
}

/// Without a partner a turn starts one, and reaches it whole and once, as soon as it
/// listens.
pub proof fn law_first_turn_starts_the_partner(c: ChatModel, text: Seq<char>)
    requires
        c.bounded(),
        c.child is None,
    ensures
        adds_line(c.messages, c.said(text).messages, ChatWho::User, text),
        c.said(text).pending,
        c.turn_actions(text) == seq![ActionModel::SpawnChat],
        c.said(text).heard_actions(ChatEventModel::Stdin) == seq![ActionModel::SendChat(text)],
        ({
            let r = c.said(text).heard(ChatEventModel::Stdin);
            &&& r.pending
            &&& r.child == Some(ChatPartner { stdin: true, ready: false })
            &&& r.messages == c.said(text).messages
            &&& r.heard_actions(ChatEventModel::Stdin).len() == 0
        }),
{
    lemma_kept(c, ChatWho::User, text);
}

/// A partner that closes takes its turn with it, and a line says why; the next turn starts
/// another.
pub proof fn law_closed_partner_ends_the_turn(c: ChatModel, reason: Seq<char>, text: Seq<char>)
    ensures
        ({
            let r = c.closed(reason);
            &&& !r.pending && r.child is None
            &&& r.messages == c.messages.push(
                ChatLineModel {
                    who: ChatWho::System,
                    text: "[chat child closed \u{2014} next turn will respawn: "@ + reason + "]"@,
                },
            )
            &&& r.turn_actions(text) == seq![ActionModel::SpawnChat]
        }),
        c.listened(Seq::empty(), false) == (c, Seq::<ActionModel>::empty()),
        c.listened(Seq::empty(), true) == (c.closed("disconnected"@), Seq::<ActionModel>::empty()),
        forall|rest: Seq<ChatEventModel>, gone: bool| #[trigger]
            c.listened(seq![ChatEventModel::Closed(reason)] + rest, gone) == (
                c.closed(reason),
                Seq::<ActionModel>::empty(),
            ),
{
    assert forall|rest: Seq<ChatEventModel>, gone: bool| #[trigger]
        c.listened(seq![ChatEventModel::Closed(reason)] + rest, gone) == (
            c.closed(reason),
            Seq::<ActionModel>::empty(),
        ) by {
        let evs = seq![ChatEventModel::Closed(reason)] + rest;
        assert(evs[0] == ChatEventModel::Closed(reason));
    }
}

/// Events are heard in the order in which they came, each exactly once.
pub proof fn law_events_are_heard_in_order(
    c: ChatModel,
    ev: ChatEventModel,
    rest: Seq<ChatEventModel>,
    gone: bool,
)
    requires
        ev !is Closed,
    ensures
        c.listened(seq![ev] + rest, gone) == (
            c.heard(ev).listened(rest, gone).0,
            c.heard_actions(ev) + c.heard(ev).listened(rest, gone).1,
        ),
{
    let evs = seq![ev] + rest;
    assert(evs[0] == ev);
    assert(evs.skip(1) =~= rest);
}

/// A call of a plugin is a line of the user with its prompt. A plugin that is found makes
/// the turn pending; one that is not leaves a line that names it, and no turn.
pub proof fn law_missing_plugin_is_named(
    c: ChatModel,
    verb: Seq<char>,
    prompt: Seq<char>,
    binary: Seq<char>,
)
    requires
        c.bounded(),
    ensures
        adds_line(
            c.messages,
            c.plugin_called(verb, prompt).messages,
            ChatWho::User,
            verb + " "@ + prompt,
        ),
        c.plugin_called(verb, prompt) == (ChatModel {
            messages: c.plugin_called(verb, prompt).messages,
            ..c
        }),
        c.plugin_probed(binary, true) == (ChatModel { pending: true, plugin: true, ..c }),
        adds_line(
            c.messages,
            c.plugin_probed(binary, false).messages,
            ChatWho::System,
            "[plugin '"@ + binary
                + "' not found on PATH \u{2014} install it and try again. For kannaka-code: cargo install --git https://github.com/NickFlach/kannaka-code]"@,
        ),
        c.plugin_probed(binary, false) == (ChatModel {
            messages: c.plugin_probed(binary, false).messages,
            ..c
        }),
{
    lemma_kept(c, ChatWho::User, verb + " "@ + prompt);
    lemma_kept(
        c,
        ChatWho::System,
        "[plugin '"@ + binary
            + "' not found on PATH \u{2014} install it and try again. For kannaka-code: cargo install --git https://github.com/NickFlach/kannaka-code]"@,
    );
    assert(c.plugin_probed(binary, true).messages =~= c.messages);
}

/// What a plugin prints is shown line by line, whole and in order, but for blank lines.
/// Its end is the end of the turn, and nothing else is.
pub proof fn law_plugin_is_shown_line_by_line(c: ChatModel, lines: Seq<Seq<char>>, l: Seq<char>)
    requires
        c.bounded(),
    ensures
        c.plugin_said(Seq::empty()) == c,
        trim(l).len() > 0 ==> c.plugin_said(lines.push(l)).messages == c.plugin_said(
            lines,
        ).messages.push(ChatLineModel { who: ChatWho::System, text: l }),
        all_white(l) ==> c.plugin_said(lines.push(l)).messages == c.plugin_said(lines).messages,
        c.plugin_said(lines) == (ChatModel { messages: c.plugin_said(lines).messages, ..c }),
        !c.plugin_polled(lines, true).pending && !c.plugin_polled(lines, true).plugin,
        c.plugin_polled(lines, false).pending == c.pending,
        c.plugin_polled(lines, false).plugin == c.plugin,
        c.messages.len() + lines.len() <= 500 ==> c.plugin_polled(lines, true).messages
            == c.plugin_said(lines).messages && c.plugin_polled(lines, false).messages
            == c.plugin_said(lines).messages,
{
    lemma_plugin_keeps(c, lines);
    assert(lines.push(l).drop_last() =~= lines);
    assert(lines.push(l).last() == l);
    if all_white(l) {
        law_trim_undoes_padding(l, Seq::empty(), Seq::empty());
        assert(l + Seq::<char>::empty() + Seq::<char>::empty() =~= l);
    }
    if c.messages.len() + lines.len() <= 500 {
        assert(c.plugin_polled(lines, true).messages =~= c.plugin_said(lines).messages);
        assert(c.plugin_polled(lines, false).messages =~= c.plugin_said(lines).messages);
    }
}

proof fn lemma_plugin_keeps(c: ChatModel, lines: Seq<Seq<char>>)
    ensures
        c.plugin_said(lines) == (ChatModel { messages: c.plugin_said(lines).messages, ..c }),
        c.plugin_said(lines).messages.len() <= c.messages.len() + lines.len(),
    decreases lines.len(),
{
    if lines.len() > 0 {
        lemma_plugin_keeps(c, lines.drop_last());
    }
}

/// The count of ticks goes up while a turn is pending, and stands still else.
pub proof fn law_only_a_pending_turn_ticks(c: ChatModel)
    ensures
        c.pending && c.tick < usize::MAX ==> c.ticked().tick == c.tick + 1,
        !c.pending ==> c.ticked() == c,
        c.ticked() == (ChatModel { tick: c.ticked().tick, ..c }),
{
}

} // verus!
