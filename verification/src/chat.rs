//! The chat: the conversation, the partner that it is held with, and plugins
//! that write into it.

use vstd::prelude::*;
use crate::action::{actions, emit, Action, ActionModel};
use crate::buffer::{keep_last, last_of, lemma_last_of_map};
use crate::json::{as_text, json_read, member, or, parse_json};
use crate::text::{cat2, cat3, contains, holds, opt, same, texts, trim, trimmed};

verus! {

/// The most lines that the conversation keeps.
pub const CHAT_MESSAGES_CAP: usize = 500;

/// Who said a line.
#[derive(Clone, Copy, PartialEq, Eq, Structural, Debug)]
pub enum ChatWho {
    User,
    Kannaka,
    System,
}

/// One line of the conversation.
pub struct ChatLine {
    pub who: ChatWho,
    pub text: String,
}

/// What a [`ChatLine`] says.
pub ghost struct ChatLineModel {
    pub who: ChatWho,
    pub text: Seq<char>,
}

impl View for ChatLine {
    type V = ChatLineModel;

    open spec fn view(&self) -> ChatLineModel {
        ChatLineModel { who: self.who, text: self.text@ }
    }
}

/// What each of the lines says.
pub open spec fn chat_models(v: Seq<ChatLine>) -> Seq<ChatLineModel> {
    v.map_values(|l: ChatLine| l@)
}

/// The partner that runs.
#[derive(Clone, Copy, PartialEq, Eq, Structural, Debug)]
pub struct ChatPartner {
    /// Whether the pipe to it is there.
    pub stdin: bool,
    /// Whether it said that it is ready.
    pub ready: bool,
}

/// What comes from the partner.
pub enum ChatEvent {
    /// The pipe to it is there.
    Stdin,
    /// It is ready.
    Ready,
    /// It said something.
    Response { kind: String, text: String },
    /// It is gone, with a word why.
    Closed(String),
}

/// What a [`ChatEvent`] says.
pub ghost enum ChatEventModel {
    Stdin,
    Ready,
    Response { kind: Seq<char>, text: Seq<char> },
    Closed(Seq<char>),
}

impl View for ChatEvent {
    type V = ChatEventModel;

    open spec fn view(&self) -> ChatEventModel {
        match *self {
            ChatEvent::Stdin => ChatEventModel::Stdin,
            ChatEvent::Ready => ChatEventModel::Ready,
            ChatEvent::Response { kind, text } => ChatEventModel::Response {
                kind: kind@,
                text: text@,
            },
            ChatEvent::Closed(r) => ChatEventModel::Closed(r@),
        }
    }
}

/// What each of the events says.
pub open spec fn chat_event_models(v: Seq<ChatEvent>) -> Seq<ChatEventModel> {
    v.map_values(|e: ChatEvent| e@)
}

/// The event that a line of the partner's output stands for: none where it is no
/// JSON.
pub open spec fn chat_line_event(line: Seq<char>) -> Option<ChatEventModel> {
    match json_read(line) {
        Ok(t) => Some(
            ChatEventModel::Response {
                kind: or(as_text(member(t, "kind"@)), "chat"@),
                text: or(as_text(member(t, "text"@)), ""@),
            },
        ),
        Err(_) => None,
    }
}

/// What an optional event says.
pub open spec fn chat_event_model(e: Option<ChatEvent>) -> Option<ChatEventModel> {
    match e {
        Some(e) => Some(e@),
        None => None,
    }
}

/// Reads one line of the partner's output ([`chat_line_event`]).
pub fn read_chat_line(line: &str) -> (r: Option<ChatEvent>)
    ensures
        chat_event_model(r) == chat_line_event(line@),
{
    match parse_json(line) {
        Ok(j) => Some(
            ChatEvent::Response { kind: j.text_or("kind", "chat"), text: j.text_or("text", "") },
        ),
        Err(_) => None,
    }
}

/// Whether a line that the partner writes beside its output says that it is ready.
pub fn says_ready(line: &str) -> (r: bool)
    ensures
        r == holds(line@, "\"ready\""@),
{
    contains(line, "\"ready\"")
}

/// The state of the chat.
pub struct Chat {
    pub messages: Vec<ChatLine>,
    /// Whether a turn is under way.
    pub pending: bool,
    pub tick: usize,
    pub child: Option<ChatPartner>,
    /// The turn that waits for the pipe.
    pub waiting: Option<String>,
    /// Whether a plugin runs.
    pub plugin: bool,
}

/// What a [`Chat`] says.
#[verifier::ext_equal]
pub ghost struct ChatModel {
    pub messages: Seq<ChatLineModel>,
    pub pending: bool,
    pub tick: usize,
    pub child: Option<ChatPartner>,
    pub waiting: Option<Seq<char>>,
    pub plugin: bool,
}

impl View for Chat {
    type V = ChatModel;

    open spec fn view(&self) -> ChatModel {
        ChatModel {
            messages: chat_models(self.messages@),
            pending: self.pending,
            tick: self.tick,
            child: self.child,
            waiting: opt(self.waiting),
            plugin: self.plugin,
        }
    }
}

impl ChatModel {
    /// Before the first turn.
    pub open spec fn initial() -> ChatModel {
        ChatModel {
            messages: seq![
                ChatLineModel {
                    who: ChatWho::System,
                    text: "Chat with Kannaka. Memories surface via wave resonance each turn. Enter to send."@,
                },
            ],
            pending: false,
            tick: 0,
            child: None,
            waiting: None,
            plugin: false,
        }
    }

    /// With one more line.
    pub open spec fn line(self, who: ChatWho, text: Seq<char>) -> ChatModel {
        ChatModel { messages: self.messages.push(ChatLineModel { who, text }), ..self }
    }

    /// With the oldest lines past the bound dropped.
    pub open spec fn kept(self) -> ChatModel {
        ChatModel { messages: last_of(self.messages, CHAT_MESSAGES_CAP as nat), ..self }
    }

    /// Whether the conversation keeps to its bound.
    pub open spec fn bounded(self) -> bool {
        self.messages.len() <= CHAT_MESSAGES_CAP
    }

    /// Whether Kannaka said the last line.
    pub open spec fn kannaka_spoke_last(self) -> bool {
        self.messages.len() > 0 && self.messages.last().who == ChatWho::Kannaka
    }

    /// With more text at the end of the last line.
    pub open spec fn grown(self, text: Seq<char>) -> ChatModel {
        let last = self.messages.last();
        ChatModel {
            messages: self.messages.drop_last().push(
                ChatLineModel { who: last.who, text: last.text + text },
            ),
            ..self
        }
    }

    /// After a turn of the user was taken up.
    pub open spec fn turn(self, text: Seq<char>) -> ChatModel {
        let s = ChatModel { pending: true, ..self };
        match self.child {
            Some(p) => if p.stdin {
                s
            } else {
                ChatModel { waiting: Some(text), ..s }
            },
            None => ChatModel {
                child: Some(ChatPartner { stdin: false, ready: false }),
                waiting: Some(text),
                ..s
            },
        }
    }

    /// What a turn asks for: the partner where none runs; the line where the pipe
    /// is there, else nothing yet.
    pub open spec fn turn_actions(self, text: Seq<char>) -> Seq<ActionModel> {
        match self.child {
            Some(p) => if p.stdin {
                seq![ActionModel::SendChat(text)]
            } else {
                Seq::empty()
            },
            None => seq![ActionModel::SpawnChat],
        }
    }

    /// After the user said something, which goes to the partner.
    pub open spec fn said(self, text: Seq<char>) -> ChatModel {
        self.line(ChatWho::User, text).turn(text).kept()
    }

    /// After the user called a plugin: the call stands in the conversation.
    pub open spec fn plugin_called(self, verb: Seq<char>, prompt: Seq<char>) -> ChatModel {
        self.line(ChatWho::User, verb + " "@ + prompt).kept()
    }

    /// After it was seen whether the plugin can be run.
    pub open spec fn plugin_probed(self, binary: Seq<char>, found: bool) -> ChatModel {
        if found {
            ChatModel { pending: true, plugin: true, ..self }.kept()
        } else {
            self.line(
                ChatWho::System,
                "[plugin '"@ + binary
                    + "' not found on PATH \u{2014} install it and try again. For kannaka-code: cargo install --git https://github.com/NickFlach/kannaka-code]"@,
            ).kept()
        }
    }

    /// With the lines of a plugin's output that are not blank.
    pub open spec fn plugin_said(self, lines: Seq<Seq<char>>) -> ChatModel
        decreases lines.len(),
    {
        if lines.len() == 0 {
            self
        } else {
            let s = self.plugin_said(lines.drop_last());
            if trim(lines.last()).len() == 0 {
                s
            } else {
                s.line(ChatWho::System, lines.last())
            }
        }
    }

    /// After more output of a plugin, and its end where `closed`.
    pub open spec fn plugin_polled(self, lines: Seq<Seq<char>>, closed: bool) -> ChatModel {
        let s = self.plugin_said(lines);
        (if closed {
            ChatModel { plugin: false, pending: false, ..s }
        } else {
            s
        }).kept()
    }

    /// After an event of the partner other than its end.
    pub open spec fn heard(self, ev: ChatEventModel) -> ChatModel {
        match ev {
            ChatEventModel::Stdin => match self.child {
                Some(p) => ChatModel {
                    child: Some(ChatPartner { stdin: true, ready: p.ready }),
                    waiting: None,
                    ..self
                },
                None => self,
            },
            ChatEventModel::Ready => match self.child {
                Some(p) => ChatModel {
                    child: Some(ChatPartner { stdin: p.stdin, ready: true }),
                    ..self
                },
                None => self,
            },
            ChatEventModel::Response { kind, text } => if kind == "chunk"@ {
                if self.kannaka_spoke_last() {
                    self.grown(text)
                } else {
                    self.line(ChatWho::Kannaka, text)
                }
            } else if kind == "chat"@ {
                if self.kannaka_spoke_last() {
                    ChatModel { pending: false, ..self }
                } else {
                    ChatModel { pending: false, ..self.line(ChatWho::Kannaka, text) }
                }
            } else {
                ChatModel { pending: false, ..self.line(ChatWho::System, text) }
            },
            ChatEventModel::Closed(_) => self,
        }
    }

    /// What an event of the partner asks for: the turn that waited for the pipe.
    pub open spec fn heard_actions(self, ev: ChatEventModel) -> Seq<ActionModel> {
        match ev {
            ChatEventModel::Stdin => if self.child is Some && self.waiting is Some {
                seq![ActionModel::SendChat(self.waiting->Some_0)]
            } else {
                Seq::empty()
            },
            _ => Seq::empty(),
        }
    }

    /// After the partner is gone.
    pub open spec fn closed(self, reason: Seq<char>) -> ChatModel {
        ChatModel {
            child: None,
            pending: false,
            ..self.line(
                ChatWho::System,
                "[chat child closed \u{2014} next turn will respawn: "@ + reason + "]"@,
            )
        }
    }

    /// After the events up to the partner's end, with what they ask for. `gone`
    /// says that the events just stopped.
    pub open spec fn listened(self, evs: Seq<ChatEventModel>, gone: bool) -> (
        ChatModel,
        Seq<ActionModel>,
    )
        decreases evs.len(),
    {
        if evs.len() == 0 {
            if gone {
                (self.closed("disconnected"@), Seq::empty())
            } else {
                (self, Seq::empty())
            }
        } else {
            match evs[0] {
                ChatEventModel::Closed(reason) => (self.closed(reason), Seq::empty()),
                ev => {
                    let rest = self.heard(ev).listened(evs.skip(1), gone);
                    (rest.0, self.heard_actions(ev) + rest.1)
                },
            }
        }
    }

    /// With the spinner a step further while a turn is under way.
    pub open spec fn ticked(self) -> ChatModel {
        ChatModel {
            tick: if self.pending {
                self.tick.wrapping_add(1)
            } else {
                self.tick
            },
            ..self
        }
    }
}

impl Chat {
    /// The chat before the first turn.
    pub fn new() -> (r: Chat)
        ensures
            r@ == ChatModel::initial(),
    {
        let mut messages: Vec<ChatLine> = Vec::new();
        messages.push(
            ChatLine {
                who: ChatWho::System,
                text: "Chat with Kannaka. Memories surface via wave resonance each turn. Enter to send.".to_owned(),
            },
        );
        let r = Chat {
            messages,
            pending: false,
            tick: 0,
            child: None,
            waiting: None,
            plugin: false,
        };
        assert(r@.messages =~= ChatModel::initial().messages);
        r
    }

    /// Appends a line.
    fn line(&mut self, who: ChatWho, text: String)
        ensures
            final(self)@ == old(self)@.line(who, text@),
    {
        self.messages.push(ChatLine { who, text });
        assert(self@.messages =~= old(self)@.line(who, text@).messages);
    }

    /// Drops the oldest lines past the bound.
    pub fn trim_chat_messages(&mut self)
        ensures
            final(self)@ == old(self)@.kept(),
    {
        keep_last(&mut self.messages, CHAT_MESSAGES_CAP);
        proof {
            lemma_last_of_map(
                old(self).messages@,
                CHAT_MESSAGES_CAP as nat,
                |l: ChatLine| l@,
            );
        }
    }

    /// Takes up a turn: sends it, or keeps it until the pipe is there.
    pub fn spawn_chat_turn(&mut self, text: String, out: &mut Vec<Action>)
        ensures
            final(self)@ == old(self)@.turn(text@),
            actions(final(out)@) == actions(old(out)@) + old(self)@.turn_actions(text@),
    {
        self.pending = true;
        match self.child {
            Some(p) => {
                if p.stdin {
                    emit(out, Action::SendChat(text));
                } else {
                    self.waiting = Some(text);
                }
            },
            None => {
                emit(out, Action::SpawnChat);
                self.child = Some(ChatPartner { stdin: false, ready: false });
                self.waiting = Some(text);
            },
        }
        assert(actions(out@) =~= actions(old(out)@) + old(self)@.turn_actions(text@));
    }

    /// Takes in what the user said.
    pub fn say(&mut self, text: String, out: &mut Vec<Action>)
        ensures
            final(self)@ == old(self)@.said(text@),
            actions(final(out)@) == actions(old(out)@) + old(self)@.turn_actions(text@),
    {
        self.line(ChatWho::User, text.clone());
        self.spawn_chat_turn(text, out);
        self.trim_chat_messages();
    }

    /// Takes in a call of a plugin, which is then looked for.
    pub fn spawn_plugin_turn(
        &mut self,
        binary: &str,
        verb: &str,
        prompt: &str,
        out: &mut Vec<Action>,
    )
        ensures
            final(self)@ == old(self)@.plugin_called(verb@, prompt@),
            actions(final(out)@) == actions(old(out)@).push(
                ActionModel::ProbePlugin { binary: binary@, prompt: prompt@ },
            ),
    {
        self.line(ChatWho::User, cat3(verb, " ", prompt));
        emit(
            out,
            Action::ProbePlugin { binary: binary.to_owned(), prompt: prompt.to_owned() },
        );
        self.trim_chat_messages();
    }

    /// Runs the plugin where it was found; else says how to get it.
    pub fn plugin_probed(
        &mut self,
        binary: String,
        prompt: String,
        found: bool,
        out: &mut Vec<Action>,
    )
        ensures
            final(self)@ == old(self)@.plugin_probed(binary@, found),
            actions(final(out)@) == actions(old(out)@) + (if found {
                seq![ActionModel::RunPlugin { binary: binary@, prompt: prompt@ }]
            } else {
                Seq::empty()
            }),
    {
        if found {
            self.pending = true;
            self.plugin = true;
            emit(out, Action::RunPlugin { binary, prompt });
            assert(actions(out@) =~= actions(old(out)@) + seq![
                ActionModel::RunPlugin { binary: binary@, prompt: prompt@ },
            ]);
        } else {
            self.line(
                ChatWho::System,
                cat3(
                    "[plugin '",
                    binary.as_str(),
                    "' not found on PATH \u{2014} install it and try again. For kannaka-code: cargo install --git https://github.com/NickFlach/kannaka-code]",
                ),
            );
            assert(actions(out@) =~= actions(old(out)@) + Seq::<ActionModel>::empty());
        }
        self.trim_chat_messages();
    }

    /// Takes in the output of a plugin.
    pub fn poll_plugin(&mut self, lines: Vec<String>, closed: bool)
        ensures
            final(self)@ == old(self)@.plugin_polled(texts(lines@), closed),
    {
        let ghost all = lines@;
        let ghost said = texts(lines@);
        assert(said.take(0) =~= Seq::<Seq<char>>::empty());
        for line in it: lines
            invariant
                it.seq() == all,
                said == texts(all),
                self@ == old(self)@.plugin_said(said.take(it.index() as int)),
        {
            let ghost k = it.index() as int;
            assert(said.take(k + 1).drop_last() =~= said.take(k));
            assert(said.take(k + 1).last() == line@);
            if !trimmed(line.as_str()).as_str().is_empty() {
                self.line(ChatWho::System, line);
            }
        }
        assert(said.take(all.len() as int) =~= said);
        if closed {
            self.plugin = false;
            self.pending = false;
        }
        self.trim_chat_messages();
    }

    /// Whether Kannaka said the last line.
    fn kannaka_spoke_last(&self) -> (r: bool)
        ensures
            r == self@.kannaka_spoke_last(),
    {
        let n: usize = self.messages.len();
        n > 0 && match self.messages[n - 1].who {
            ChatWho::Kannaka => true,
            _ => false,
        }
    }

    /// Puts more text at the end of the last line.
    fn grow(&mut self, text: &str)
        requires
            old(self)@.messages.len() > 0,
        ensures
            final(self)@ == old(self)@.grown(text@),
    {
        match self.messages.pop() {
            Some(last) => {
                self.messages.push(
                    ChatLine { who: last.who, text: cat2(last.text.as_str(), text) },
                );
            },
            None => {},
        }
        assert(self@.messages =~= old(self)@.grown(text@).messages);
    }

    /// Takes in what the partner said.
    fn respond(&mut self, kind: &str, text: String)
        ensures
            final(self)@ == old(self)@.heard(
                ChatEventModel::Response { kind: kind@, text: text@ },
            ),
    {
        if same(kind, "chunk") {
            if self.kannaka_spoke_last() {
                self.grow(text.as_str());
            } else {
                self.line(ChatWho::Kannaka, text);
            }
        } else if same(kind, "chat") {
            if !self.kannaka_spoke_last() {
                self.line(ChatWho::Kannaka, text);
            }
            self.pending = false;
        } else {
            self.line(ChatWho::System, text);
            self.pending = false;
        }
    }

    /// Takes note that the pipe is there, and sends the turn that waited for it.
    fn attach(&mut self, out: &mut Vec<Action>)
        ensures
            final(self)@ == old(self)@.heard(ChatEventModel::Stdin),
            actions(final(out)@) == actions(old(out)@) + old(self)@.heard_actions(
                ChatEventModel::Stdin,
            ),
    {
        match self.child {
            Some(p) => {
                self.child = Some(ChatPartner { stdin: true, ready: p.ready });
                match self.waiting.take() {
                    Some(text) => {
                        emit(out, Action::SendChat(text));
                    },
                    None => {},
                }
            },
            None => {},
        }
        assert(actions(out@) =~= actions(old(out)@) + old(self)@.heard_actions(
            ChatEventModel::Stdin,
        ));
    }

    /// Takes in the events of the partner that came since the last time; `gone`
    /// says that there will be no more without its having said so.
    pub fn poll_chat(&mut self, events: Vec<ChatEvent>, gone: bool, out: &mut Vec<Action>)
        ensures
            final(self)@ == old(self)@.listened(chat_event_models(events@), gone).0.kept(),
            actions(final(out)@) == actions(old(out)@) + old(self)@.listened(
                chat_event_models(events@),
                gone,
            ).1,
    {
        let ghost all = events@;
        let ghost evs = chat_event_models(events@);
        let ghost target = self@.listened(evs, gone);
        let mut closed: Option<String> = None;
        assert(evs.skip(0) =~= evs);
        assert(actions(out@) + target.1 =~= actions(old(out)@) + target.1);
        for ev in it: events
            invariant
                it.seq() == all,
                evs == chat_event_models(all),
                closed is None ==> {
                    let rest = self@.listened(evs.skip(it.index() as int), gone);
                    target.0 == rest.0 && actions(old(out)@) + target.1 == actions(out@) + rest.1
                },
                closed is Some ==> {
                    target.0 == self@.closed(closed->Some_0@) && actions(old(out)@) + target.1
                        == actions(out@)
                },
        {
            let ghost k = it.index() as int;
            let ghost here = self@;
            let ghost asked = actions(out@);
            if closed.is_none() {
                proof {
                    assert(evs.skip(k)[0] == ev@);
                    assert(evs.skip(k).skip(1) =~= evs.skip(k + 1));
                }
                match ev {
                    ChatEvent::Stdin => {
                        self.attach(out);
                    },
                    ChatEvent::Ready => {
                        match self.child {
                            Some(p) => {
                                self.child = Some(ChatPartner { stdin: p.stdin, ready: true });
                            },
                            None => {},
                        }
                    },
                    ChatEvent::Response { kind, text } => {
                        self.respond(kind.as_str(), text);
                    },
                    ChatEvent::Closed(reason) => {
                        closed = Some(reason);
                    },
                }
                proof {
                    if !(ev is Closed) {
                        let rest = self@.listened(evs.skip(k + 1), gone);
                        assert(actions(out@) =~= asked + here.heard_actions(ev@));
                        assert(asked + (here.heard_actions(ev@) + rest.1) =~= actions(out@)
                            + rest.1);
                    } else {
                        assert(asked + Seq::<ActionModel>::empty() =~= actions(out@));
                    }
                }
            }
        }
        assert(evs.skip(all.len() as int) =~= Seq::<ChatEventModel>::empty());
        if closed.is_none() && gone {
            closed = Some("disconnected".to_owned());
        }
        match closed {
            Some(reason) => {
                self.line(
                    ChatWho::System,
                    cat3(
                        "[chat child closed \u{2014} next turn will respawn: ",
                        reason.as_str(),
                        "]",
                    ),
                );
                self.child = None;
                self.pending = false;
            },
            None => {},
        }
        assert(actions(out@) =~= actions(old(out)@) + target.1);
        self.trim_chat_messages();
    }

    /// Turns the spinner while a turn is under way.
    pub fn tick(&mut self)
        ensures
            final(self)@ == old(self)@.ticked(),
    {
        if self.pending {
            self.tick = self.tick.wrapping_add(1);
        }
    }
}

/// The line that a plugin leaves which could not be started.
pub fn plugin_failure(e: &str) -> (r: String)
    ensures
        r@ == "[plugin spawn failed: "@ + e@ + "]"@,
{
    cat3("[plugin spawn failed: ", e, "]")
}

/// Every step keeps the conversation within its bound.
pub proof fn law_conversation_is_bounded(c: ChatModel)
    ensures
        forall|t: Seq<char>| (#[trigger] c.said(t)).bounded(),
        forall|v: Seq<char>, p: Seq<char>| (#[trigger] c.plugin_called(v, p)).bounded(),
        forall|b: Seq<char>, f: bool| (#[trigger] c.plugin_probed(b, f)).bounded(),
        forall|ls: Seq<Seq<char>>, e: bool| (#[trigger] c.plugin_polled(ls, e)).bounded(),
        forall|evs: Seq<ChatEventModel>, g: bool|
            (#[trigger] c.listened(evs, g)).0.kept().bounded(),
        ChatModel::initial().bounded(),
{
}

/// The first turn starts the partner and waits; it is sent, and sent once, when
/// the pipe is there. Later turns are sent at once.
pub proof fn law_waiting_turn_is_sent_once(c: ChatModel, first: Seq<char>, second: Seq<char>)
    requires
        c.child is None,
    ensures
        c.turn_actions(first) == seq![ActionModel::SpawnChat],
        c.said(first).heard_actions(ChatEventModel::Stdin) == seq![ActionModel::SendChat(first)],
        c.said(first).heard(ChatEventModel::Stdin).heard_actions(ChatEventModel::Stdin)
            == Seq::<ActionModel>::empty(),
        c.said(first).heard(ChatEventModel::Stdin).turn_actions(second) == seq![
            ActionModel::SendChat(second),
        ],
{
}

/// After the pieces of a streamed answer.
pub open spec fn streamed(c: ChatModel, chunks: Seq<Seq<char>>) -> ChatModel
    decreases chunks.len(),
{
    if chunks.len() == 0 {
        c
    } else {
        streamed(c, chunks.drop_last()).heard(
            ChatEventModel::Response { kind: "chunk"@, text: chunks.last() },
        )
    }
}

/// Pieces of text, one after another.
pub open spec fn run_together(chunks: Seq<Seq<char>>) -> Seq<char>
    decreases chunks.len(),
{
    if chunks.len() == 0 {
        Seq::empty()
    } else {
        run_together(chunks.drop_last()) + chunks.last()
    }
}

proof fn lemma_streamed(c: ChatModel, chunks: Seq<Seq<char>>)
    requires
        !c.kannaka_spoke_last(),
        chunks.len() > 0,
    ensures
        streamed(c, chunks) == (ChatModel {
            messages: c.messages.push(
                ChatLineModel { who: ChatWho::Kannaka, text: run_together(chunks) },
            ),
            ..c
        }),
    decreases chunks.len(),
{
    let before = chunks.drop_last();
    let s = streamed(c, before);
    if before.len() == 0 {
        assert(s == c);
        assert(run_together(before) =~= Seq::empty());
        assert(run_together(chunks) =~= chunks.last());
    } else {
        lemma_streamed(c, before);
        assert(s.messages.drop_last() =~= c.messages);
    }
}

/// A streamed answer stands in one line, however many pieces it came in, and the
/// frame that closes the turn leaves that line as it is.
pub proof fn law_streamed_answer_is_one_line(
    c: ChatModel,
    chunks: Seq<Seq<char>>,
    whole: Seq<char>,
)
    requires
        !c.kannaka_spoke_last(),
        chunks.len() > 0,
    ensures
        ({
            let s = streamed(c, chunks).heard(
                ChatEventModel::Response { kind: "chat"@, text: whole },
            );
            s.messages == c.messages.push(
                ChatLineModel { who: ChatWho::Kannaka, text: run_together(chunks) },
            ) && !s.pending
        }),
{
    reveal_strlit("chunk");
    reveal_strlit("chat");
    assert("chunk"@.len() != "chat"@.len());
    lemma_streamed(c, chunks);
}

/// A partner that runs is kept: a turn starts no second one.
pub proof fn law_partner_is_kept(c: ChatModel, text: Seq<char>)
    requires
        c.child is Some,
    ensures
        c.said(text).child == c.child,
        !c.turn_actions(text).contains(ActionModel::SpawnChat),
{
}

/// When the partner is gone no turn is under way, and the next one starts a new
/// partner.
pub proof fn law_next_turn_respawns(c: ChatModel, reason: Seq<char>, text: Seq<char>)
    ensures
        !c.closed(reason).pending,
        c.closed(reason).turn_actions(text) == seq![ActionModel::SpawnChat],
{
}

} // verus!
