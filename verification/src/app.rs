//! The application: what every key, every paste and every answer does to it, and
//! what it asks for.

use vstd::prelude::*;
use crate::action::{actions, Action, ActionModel, Answer, JobModel};
use crate::bar::{Bar, BarModel};
use crate::bus::{Bus, BusModel, BusStatus};
use crate::chat::{Chat, ChatModel};
use crate::command::{
    agent_command, bar_command, quoted, AgentCommandModel, CommandModel,
};
use crate::cosmos::{Cosmos, CosmosModel};
use crate::harness::{is_busy, Decision, Harness, HarnessModel};
use crate::keys::{burst_text, Key, KeyPress, Mods};
use crate::log::{Log, LogModel};
use crate::payload::BusFrameModel;
use crate::prompts::{QOS_BOOT_GRAPHICAL_PROMPT, QOS_BOOT_PROMPT};
use crate::reports::{msg, Role};
use crate::text::{after, starts, trim};

verus! {

/// The tabs, in their order.
#[derive(Clone, Copy, PartialEq, Eq, Structural, Debug)]
pub enum Tab {
    Memory,
    Status,
    Bus,
    Constellation,
    Dreams,
    Chat,
    Cosmos,
    Agent,
}

/// The number of tabs.
pub const TABS: usize = 8;

/// The place of a tab in the order.
pub open spec fn tab_index(t: Tab) -> nat {
    match t {
        Tab::Memory => 0,
        Tab::Status => 1,
        Tab::Bus => 2,
        Tab::Constellation => 3,
        Tab::Dreams => 4,
        Tab::Chat => 5,
        Tab::Cosmos => 6,
        Tab::Agent => 7,
    }
}

/// The tab at a place in the order.
pub open spec fn tab_at(i: nat) -> Tab {
    if i == 0 {
        Tab::Memory
    } else if i == 1 {
        Tab::Status
    } else if i == 2 {
        Tab::Bus
    } else if i == 3 {
        Tab::Constellation
    } else if i == 4 {
        Tab::Dreams
    } else if i == 5 {
        Tab::Chat
    } else if i == 6 {
        Tab::Cosmos
    } else {
        Tab::Agent
    }
}

/// The tab after this one, the first after the last.
pub open spec fn tab_after(t: Tab) -> Tab {
    tab_at((tab_index(t) + 1) % TABS as nat)
}

/// The tab before this one, the last before the first.
pub open spec fn tab_before(t: Tab) -> Tab {
    tab_at(((tab_index(t) + TABS - 1) as nat) % TABS as nat)
}

impl Tab {
    /// The place of the tab in the order.
    pub fn index(self) -> (r: usize)
        ensures
            r == tab_index(self),
            r < TABS,
    {
        match self {
            Tab::Memory => 0,
            Tab::Status => 1,
            Tab::Bus => 2,
            Tab::Constellation => 3,
            Tab::Dreams => 4,
            Tab::Chat => 5,
            Tab::Cosmos => 6,
            Tab::Agent => 7,
        }
    }

    /// The tab at a place in the order ([`tab_at`]).
    pub fn at(i: usize) -> (r: Tab)
        ensures
            r == tab_at(i as nat),
    {
        match i {
            0 => Tab::Memory,
            1 => Tab::Status,
            2 => Tab::Bus,
            3 => Tab::Constellation,
            4 => Tab::Dreams,
            5 => Tab::Chat,
            6 => Tab::Cosmos,
            _ => Tab::Agent,
        }
    }

    /// The tab after this one ([`tab_after`]).
    pub fn next(self) -> (r: Tab)
        ensures
            r == tab_after(self),
    {
        Tab::at((self.index() + 1) % TABS)
    }

    /// The tab before this one ([`tab_before`]).
    pub fn prev(self) -> (r: Tab)
        ensures
            r == tab_before(self),
    {
        Tab::at((self.index() + TABS - 1) % TABS)
    }
}

/// The application.
pub struct App {
    pub tab: Tab,
    pub bar: Bar,
    pub log: Log,
    pub agent_name: String,
    pub should_quit: bool,
    /// How far the text is scrolled up from its end.
    pub scroll: usize,
    pub show_help: bool,
    pub chat: Chat,
    pub bus: Bus,
    pub cosmos: Cosmos,
    pub harness: Harness,
}

/// What an [`App`] says.
pub ghost struct AppModel {
    pub tab: Tab,
    pub bar: BarModel,
    pub log: LogModel,
    pub agent_name: Seq<char>,
    pub should_quit: bool,
    pub scroll: usize,
    pub show_help: bool,
    pub chat: ChatModel,
    pub bus: BusModel,
    pub cosmos: CosmosModel,
    pub harness: HarnessModel,
}

impl View for App {
    type V = AppModel;

    open spec fn view(&self) -> AppModel {
        AppModel {
            tab: self.tab,
            bar: self.bar@,
            log: self.log@,
            agent_name: self.agent_name@,
            should_quit: self.should_quit,
            scroll: self.scroll,
            show_help: self.show_help,
            chat: self.chat@,
            bus: self.bus@,
            cosmos: self.cosmos@,
            harness: self.harness@,
        }
    }
}

/// The notice for a task while a request is pending.
pub open spec fn approval_notice() -> Seq<char> {
    "[approval pending \u{2014} press a (allow), s (allow always), or d (deny)]"@
}

impl AppModel {
    /// At the start, for the agent of the given name.
    pub open spec fn initial(name: Seq<char>) -> AppModel {
        AppModel {
            tab: Tab::Agent,
            bar: BarModel::initial(),
            log: LogModel::initial(name),
            agent_name: name,
            should_quit: false,
            scroll: 0,
            show_help: false,
            chat: ChatModel::initial(),
            bus: BusModel::initial(),
            cosmos: CosmosModel::initial(),
            harness: HarnessModel::initial(),
        }
    }

    /// Whether the bar is sound and every buffer keeps to its bound.
    pub open spec fn wf(self) -> bool {
        &&& self.bar.wf()
        &&& self.log.bounded()
        &&& self.chat.bounded()
        &&& self.bus.wf()
        &&& self.harness.bounded()
    }

    /// With the text at its end.
    pub open spec fn unscrolled(self) -> AppModel {
        AppModel { scroll: 0, ..self }
    }

    /// With one more line in the log.
    pub open spec fn logged(self, role: Role, words: Seq<char>) -> AppModel {
        AppModel { log: self.log.push(msg(role, words)), ..self }
    }

    /// After a step of the log, with what it asks for.
    pub open spec fn with_log(self, step: (LogModel, Seq<ActionModel>)) -> (
        AppModel,
        Seq<ActionModel>,
    ) {
        (AppModel { log: step.0, ..self }, step.1)
    }

    /// After the status and the memories were asked for.
    pub open spec fn refreshed(self, now: u64) -> (AppModel, Seq<ActionModel>) {
        self.with_log(self.log.refreshed(now))
    }

    /// After a poll of the constellation was asked for.
    pub open spec fn cosmos_asked(self, now: u64) -> (AppModel, Seq<ActionModel>) {
        (AppModel { cosmos: self.cosmos.loading(now), ..self }, self.cosmos.load_actions())
    }

    /// After the stream of the bus was asked for.
    pub open spec fn bus_asked(self) -> (AppModel, Seq<ActionModel>) {
        (AppModel { bus: self.bus.started(), ..self }, self.bus.start_actions())
    }

    /// After a dream was asked for.
    pub open spec fn dream_asked(self, mode: Seq<char>, now: u64) -> (AppModel, Seq<ActionModel>) {
        (AppModel { bus: self.bus.dreaming(mode, now), ..self }, self.bus.dream_actions(mode))
    }

    /// After a dream was asked for in the command bar: one at a time, with the bus
    /// on, where its report will come in.
    pub open spec fn dream_command(self, mode: Seq<char>, now: u64) -> (
        AppModel,
        Seq<ActionModel>,
    ) {
        if self.bus.dream_pending {
            (
                self.logged(
                    Role::System,
                    "A dream is already running \u{2014} wait for it to finish."@,
                ),
                Seq::empty(),
            )
        } else {
            let s = self.logged(Role::User, "dream --mode "@ + mode).logged(
                Role::System,
                "Dream cycle started in background \u{2014} Dreams tab for progress."@,
            );
            let a = s.bus_asked();
            let b = a.0.dream_asked(mode, now);
            (b.0, a.1 + b.1)
        }
    }

    /// With one more notice in the transcript.
    pub open spec fn noted(self, words: Seq<char>) -> AppModel {
        AppModel { harness: self.harness.note(words), ..self }
    }

    /// After a turn of the user went to the agent.
    pub open spec fn agent_turn(self, text: Seq<char>) -> (AppModel, Seq<ActionModel>) {
        (
            AppModel { harness: self.harness.user_turn(text), scroll: 0, ..self },
            self.harness.user_turn_actions(text),
        )
    }

    /// The notice that keeps a task from the agent now, where there is one.
    pub open spec fn task_refusal(self, busy_words: Seq<char>) -> Option<Seq<char>> {
        if self.harness.pending is Some {
            Some(approval_notice())
        } else if is_busy(self.harness.status) {
            Some(busy_words)
        } else {
            None
        }
    }

    /// After a command on the Agent tab.
    pub open spec fn agent_did(self, c: AgentCommandModel) -> (AppModel, Seq<ActionModel>) {
        match c {
            AgentCommandModel::Help => (AppModel { show_help: true, ..self }, Seq::empty()),
            AgentCommandModel::Quit => (AppModel { should_quit: true, ..self }, Seq::empty()),
            AgentCommandModel::Mode(m) => (
                AppModel { harness: self.harness.with_mode(m), ..self },
                self.harness.mode_actions(m),
            ),
            AgentCommandModel::Stop => (
                AppModel { harness: self.harness.stopped(), ..self },
                self.harness.end_actions(),
            ),
            AgentCommandModel::Clear => (
                AppModel { harness: self.harness.cleared(), ..self },
                self.harness.end_actions(),
            ),
            AgentCommandModel::Model(m) => (
                AppModel { harness: self.harness.with_model(m), ..self },
                self.harness.end_actions(),
            ),
            AgentCommandModel::Qos { graphical } => match self.task_refusal(
                "[agent is working \u{2014} wait for it to finish or /stop]"@,
            ) {
                Some(words) => (self.noted(words), Seq::empty()),
                None => if graphical {
                    self.noted(
                        "[/qos --graphical \u{2014} booting QuantumOS with a live browser view]"@,
                    ).agent_turn(QOS_BOOT_GRAPHICAL_PROMPT@)
                } else {
                    self.noted(
                        "[/qos \u{2014} booting QuantumOS on a qBraid Lab instance]"@,
                    ).agent_turn(QOS_BOOT_PROMPT@)
                },
            },
            AgentCommandModel::Unknown(c) => (
                self.noted("[unknown command /"@ + c + " \u{2014} try /help]"@),
                Seq::empty(),
            ),
            AgentCommandModel::Task(t) => match self.task_refusal(
                "[agent is working \u{2014} wait for it to finish]"@,
            ) {
                Some(words) => (self.noted(words), Seq::empty()),
                None => self.agent_turn(t),
            },
        }
    }

    /// After the user said something in the chat.
    pub open spec fn chat_turn(self, text: Seq<char>) -> (AppModel, Seq<ActionModel>) {
        (AppModel { chat: self.chat.said(text), ..self }, self.chat.turn_actions(text))
    }

    /// After a plugin was called in the chat.
    pub open spec fn plugin_turn(self, binary: Seq<char>, verb: Seq<char>, prompt: Seq<char>) -> (
        AppModel,
        Seq<ActionModel>,
    ) {
        (
            AppModel { chat: self.chat.plugin_called(verb, prompt), ..self },
            seq![ActionModel::ProbePlugin { binary, prompt }],
        )
    }

    /// After fresh figures were asked for in the command bar.
    pub open spec fn figures_asked(self, now: u64) -> (AppModel, Seq<ActionModel>) {
        let a = self.refreshed(now);
        (a.0.logged(Role::System, "Status refreshed."@), a.1)
    }

    /// After the Cosmos tab was opened from the command bar.
    pub open spec fn cosmos_opened(self, now: u64) -> (AppModel, Seq<ActionModel>) {
        let a = AppModel { tab: Tab::Cosmos, ..self }.cosmos_asked(now);
        (
            a.0.logged(Role::System, "Opening Cosmos \u{2014} constellation + radio status."@),
            a.1,
        )
    }

    /// After a line went to the chat, whose tab opens. While a turn is under way it is
    /// dropped.
    pub open spec fn chat_opened(self, input: Seq<char>) -> (AppModel, Seq<ActionModel>) {
        let s = AppModel { tab: Tab::Chat, ..self };
        if self.chat.pending {
            (s, Seq::empty())
        } else {
            s.unscrolled().chat_turn(input)
        }
    }

    /// After the command `c`, written as `input` in the command bar.
    pub open spec fn did(self, c: CommandModel, input: Seq<char>, now: u64) -> (
        AppModel,
        Seq<ActionModel>,
    ) {
        match c {
            CommandModel::Remember(t) => self.unscrolled().with_log(
                self.log.memory_command(quoted("remember"@, t), JobModel::Remember(t)),
            ),
            CommandModel::Recall(t) => self.unscrolled().with_log(
                self.log.memory_command(quoted("recall"@, t), JobModel::Recall(t)),
            ),
            CommandModel::Forget(t) => self.unscrolled().with_log(
                self.log.memory_command(quoted("forget"@, t), JobModel::Forget(t)),
            ),
            CommandModel::Dream(mode) => self.unscrolled().dream_command(mode, now),
            CommandModel::Refresh => self.unscrolled().figures_asked(now),
            CommandModel::Usage(words) => (
                self.unscrolled().logged(Role::Error, words),
                Seq::empty(),
            ),
            CommandModel::Pass { label, args, secs } => self.unscrolled().with_log(
                self.log.passthrough(label, args, secs),
            ),
            CommandModel::Cosmos => self.unscrolled().cosmos_opened(now),
            CommandModel::Help => (
                AppModel { show_help: true, ..self.unscrolled() },
                Seq::empty(),
            ),
            CommandModel::Quit => (
                AppModel { should_quit: true, ..self.unscrolled() },
                Seq::empty(),
            ),
            CommandModel::Chat => self.chat_opened(input),
        }
    }

    /// After a plugin was called on the Chat tab. While a turn is under way the call is
    /// dropped.
    pub open spec fn plugin_asked(self, binary: Seq<char>, verb: Seq<char>, rest: Seq<char>) -> (
        AppModel,
        Seq<ActionModel>,
    ) {
        if self.chat.pending {
            (self, Seq::empty())
        } else {
            self.unscrolled().plugin_turn(binary, verb, trim(rest))
        }
    }

    /// After the line `input` on the Chat tab: a call of a plugin, or what it asks for
    /// in the command bar.
    pub open spec fn chat_did(self, input: Seq<char>, now: u64) -> (AppModel, Seq<ActionModel>) {
        if starts(input, "/code "@) {
            self.plugin_asked("kannaka-code"@, "/code"@, after(input, "/code "@)->Some_0)
        } else if starts(input, "/topus "@) {
            self.plugin_asked("kannaktopus"@, "/topus"@, after(input, "/topus "@)->Some_0)
        } else {
            self.did(bar_command(input), input, now)
        }
    }

    /// After the line in the bar was sent: it goes to the history and out of the
    /// bar, and does what the tab makes of it. A blank line does nothing.
    pub open spec fn submitted(self, now: u64) -> (AppModel, Seq<ActionModel>) {
        let input = trim(self.bar.input);
        if input.len() == 0 {
            (self, Seq::empty())
        } else {
            let s = AppModel { bar: self.bar.remembering(input).emptied(), ..self };
            match self.tab {
                Tab::Agent => s.agent_did(agent_command(input)),
                Tab::Chat => s.chat_did(input, now),
                _ => s.did(bar_command(input), input, now),
            }
        }
    }

    /// After the tab was entered.
    pub open spec fn entered(self, now: u64) -> (AppModel, Seq<ActionModel>) {
        let s = self.unscrolled();
        match self.tab {
            Tab::Status => s.refreshed(now),
            Tab::Bus | Tab::Constellation | Tab::Dreams => s.bus_asked(),
            Tab::Cosmos => if self.cosmos.due(now) {
                s.cosmos_asked(now)
            } else {
                (s, Seq::empty())
            },
            _ => (s, Seq::empty()),
        }
    }

    /// After the pending request was decided.
    pub open spec fn decided(self, d: Decision) -> (AppModel, Seq<ActionModel>) {
        (
            AppModel { harness: self.harness.resolved(d), ..self },
            self.harness.resolve_actions(d),
        )
    }

    /// What a key does while the bar is empty, where it does something special.
    pub open spec fn hotkey(self, k: KeyPress, now: u64) -> Option<(AppModel, Seq<ActionModel>)> {
        let asked = self.tab == Tab::Agent && self.harness.pending is Some;
        if self.tab == Tab::Dreams && k.spec_letter('d', 'D') {
            Some(self.dream_asked("deep"@, now))
        } else if self.tab == Tab::Dreams && k.spec_letter('l', 'L') {
            Some(self.dream_asked("lite"@, now))
        } else if self.tab == Tab::Bus && self.bus.status == BusStatus::Failed && k.spec_letter(
            'r',
            'R',
        ) {
            Some(
                (
                    AppModel { bus: self.bus.restarted(), ..self },
                    seq![ActionModel::KillBus, ActionModel::SpawnBus],
                ),
            )
        } else if self.tab == Tab::Cosmos && k.spec_letter('r', 'R') {
            Some(self.cosmos_asked(now))
        } else if asked && k.spec_letter('a', 'A') {
            Some(self.decided(Decision::Allow))
        } else if asked && k.spec_letter('s', 'S') {
            Some(self.decided(Decision::AllowAlways))
        } else if asked && (k.spec_letter('d', 'D') || k.spec_esc()) {
            Some(self.decided(Decision::Deny))
        } else if self.tab == Tab::Agent && self.harness.pending is None && is_busy(
            self.harness.status,
        ) && k.spec_esc() {
            Some(
                (
                    AppModel { harness: self.harness.stopped(), ..self },
                    self.harness.end_actions(),
                ),
            )
        } else if k.spec_letter('q', 'Q') || k.spec_esc() {
            Some((AppModel { should_quit: true, ..self }, Seq::empty()))
        } else {
            None
        }
    }

    /// After a key that edits, sends, scrolls or changes the tab.
    pub open spec fn edited(self, k: KeyPress, now: u64) -> (AppModel, Seq<ActionModel>) {
        let none = Seq::<ActionModel>::empty();
        match k.key {
            Key::Char(c) => if k.mods == Mods::Control && c == 'c' {
                (AppModel { should_quit: true, ..self }, none)
            } else {
                (AppModel { bar: self.bar.with_text(seq![c]), ..self }, none)
            },
            Key::F(n) => if n == 1 {
                (AppModel { show_help: true, ..self }, none)
            } else {
                (self, none)
            },
            Key::Tab => if k.mods == Mods::Plain {
                AppModel { tab: tab_after(self.tab), ..self }.entered(now)
            } else {
                (self, none)
            },
            Key::BackTab => if k.mods == Mods::Plain || k.mods == Mods::Shift {
                AppModel { tab: tab_before(self.tab), ..self }.entered(now)
            } else {
                (self, none)
            },
            Key::Enter => if self.bar.pasting(now) {
                (AppModel { bar: self.bar.pasted_break(now), ..self }, none)
            } else {
                self.submitted(now)
            },
            Key::Backspace => (AppModel { bar: self.bar.backspaced(), ..self }, none),
            Key::Delete => (AppModel { bar: self.bar.deleted(), ..self }, none),
            Key::Left => (AppModel { bar: self.bar.moved_left(), ..self }, none),
            Key::Right => (AppModel { bar: self.bar.moved_right(), ..self }, none),
            Key::Home => (AppModel { bar: self.bar.moved_home(), ..self }, none),
            Key::End => (AppModel { bar: self.bar.moved_end(), ..self }, none),
            Key::Up => (AppModel { bar: self.bar.older(), ..self }, none),
            Key::Down => (AppModel { bar: self.bar.newer(), ..self }, none),
            Key::PageUp => (self.scrolled_up(5), none),
            Key::PageDown => (self.scrolled_down(5), none),
            Key::Esc | Key::Other => (self, none),
        }
    }

    /// With the text scrolled up by `n`.
    pub open spec fn scrolled_up(self, n: usize) -> AppModel {
        AppModel {
            scroll: if self.scroll + n <= usize::MAX {
                (self.scroll + n) as usize
            } else {
                usize::MAX
            },
            ..self
        }
    }

    /// With the text scrolled down by `n`.
    pub open spec fn scrolled_down(self, n: usize) -> AppModel {
        AppModel {
            scroll: if self.scroll >= n {
                (self.scroll - n) as usize
            } else {
                0
            },
            ..self
        }
    }

    /// After a key. Any key closes the help.
    pub open spec fn keyed(self, k: KeyPress, now: u64) -> (AppModel, Seq<ActionModel>) {
        if self.show_help {
            (AppModel { show_help: false, ..self }, Seq::empty())
        } else {
            match if self.bar.input.len() == 0 {
                self.hotkey(k, now)
            } else {
                None
            } {
                Some(r) => r,
                None => self.edited(k, now),
            }
        }
    }

    /// After a key of a series: [`AppModel::keyed`], folded until it is revealed.
    #[verifier::opaque]
    pub open spec fn next_key(self, k: KeyPress, now: u64) -> (AppModel, Seq<ActionModel>) {
        self.keyed(k, now)
    }

    /// After one key after another.
    pub open spec fn keyed_all(self, keys: Seq<KeyPress>, now: u64) -> (
        AppModel,
        Seq<ActionModel>,
    )
        decreases keys.len(),
    {
        if keys.len() == 0 {
            (self, Seq::empty())
        } else {
            let a = self.keyed_all(keys.drop_last(), now);
            let b = a.0.next_key(keys.last(), now);
            (b.0, a.1 + b.1)
        }
    }

    /// After text was pasted.
    pub open spec fn pasted(self, text: Seq<char>, now: u64) -> AppModel {
        AppModel { bar: self.bar.pasted(text, now), ..self }
    }

    /// After keys that came at once. One key is a key; more of them that stand for
    /// text are pasted text, and others come one after another.
    pub open spec fn burst(self, keys: Seq<KeyPress>, now: u64) -> (AppModel, Seq<ActionModel>) {
        if keys.len() == 1 {
            self.keyed(keys[0], now)
        } else if burst_text(keys).len() == 0 {
            self.keyed_all(keys, now)
        } else {
            (self.pasted(burst_text(keys), now), Seq::empty())
        }
    }

    /// After the frames of the bus, and the dream that runs.
    pub open spec fn bus_polled(
        self,
        fs: Seq<BusFrameModel>,
        gone: bool,
        dream: Answer<Result<String, String>>,
        now: u64,
    ) -> (AppModel, Seq<ActionModel>) {
        let s = AppModel { bus: self.bus.polled(fs, gone, now).dreamt(dream, now), ..self };
        match dream {
            Answer::Got(Ok(_)) => s.refreshed(now),
            _ => (s, Seq::empty()),
        }
    }

}

impl App {
    /// The application at its start, for the agent of the given name.
    pub fn new(agent_name: String) -> (r: App)
        ensures
            r@ == AppModel::initial(agent_name@),
            r@.wf(),
    {
        let log = Log::new(agent_name.as_str());
        let r = App {
            tab: Tab::Agent,
            bar: Bar::new(),
            log,
            agent_name,
            should_quit: false,
            scroll: 0,
            show_help: false,
            chat: Chat::new(),
            bus: Bus::new(),
            cosmos: Cosmos::new(),
            harness: Harness::new(),
        };
        r
    }

    /// Asks for the status and the memories.
    pub fn refresh(&mut self, now: u64, out: &mut Vec<Action>)
        requires
            old(self)@.wf(),
        ensures
            final(self)@ == old(self)@.refreshed(now).0,
            actions(final(out)@) == actions(old(out)@) + old(self)@.refreshed(now).1,
            final(self)@.wf(),
    {
        self.log.refresh(now, out);
    }

    /// Asks for the status and the memories where the Status tab is due for them.
    pub fn refresh_when_due(&mut self, now: u64, out: &mut Vec<Action>)
        requires
            old(self)@.wf(),
        ensures
            old(self)@.tab == Tab::Status && old(self)@.log.due(now) ==> {
                &&& final(self)@ == old(self)@.refreshed(now).0
                &&& actions(final(out)@) == actions(old(out)@) + old(self)@.refreshed(now).1
            },
            !(old(self)@.tab == Tab::Status && old(self)@.log.due(now)) ==> final(self)@ == old(
                self,
            )@ && final(out)@ == old(out)@,
            final(self)@.wf(),
    {
        if self.tab == Tab::Status && self.log.is_due(now) {
            self.refresh(now, out);
        }
    }
}

} // verus!
