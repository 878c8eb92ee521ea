//! What the lines do that the user sends.

use vstd::prelude::*;
use crate::action::{actions, Action, ActionModel, Job};
use crate::app::{App, Tab};
use crate::command::{read_agent_command, read_command, AgentCommand, Command};
use crate::harness::AgentLine;
use crate::prompts::{QOS_BOOT_GRAPHICAL_PROMPT, QOS_BOOT_PROMPT};
use crate::reports::Role;
use crate::text::{cat2, cat3, cat4, strip_prefix, trimmed};

verus! {

impl App {
    /// Starts a dream from the command bar, where none runs.
    fn execute_dream(&mut self, mode: &str, now: u64, out: &mut Vec<Action>)
        ensures
            final(self)@ == old(self)@.dream_command(mode@, now).0,
            actions(final(out)@) == actions(old(out)@) + old(self)@.dream_command(mode@, now).1,
    {
        if self.bus.dream_pending {
            self.log.say(
                Role::System,
                "A dream is already running \u{2014} wait for it to finish.",
            );
        } else {
            let label = cat2("dream --mode ", mode);
            self.log.say(Role::User, label.as_str());
            self.log.say(
                Role::System,
                "Dream cycle started in background \u{2014} Dreams tab for progress.",
            );
            self.bus.start_bus(out);
            self.bus.start_dream(mode, now, out);
        }
        assert(actions(out@) =~= actions(old(out)@) + old(self)@.dream_command(mode@, now).1);
    }

    /// Appends a notice to the transcript.
    fn note(&mut self, words: &str)
        ensures
            final(self)@ == old(self)@.noted(words@),
    {
        self.harness.push_harness(AgentLine::Notice(words.to_owned()));
    }

    /// Sends a turn of the user to the agent.
    fn harness_user_turn(&mut self, text: String, out: &mut Vec<Action>)
        ensures
            final(self)@ == old(self)@.agent_turn(text@).0,
            actions(final(out)@) == actions(old(out)@) + old(self)@.agent_turn(text@).1,
    {
        self.scroll = 0;
        self.harness.harness_user_turn(text, out);
    }

    /// Says why a task cannot go to the agent now, where it cannot.
    fn refuse_task(&mut self, busy_words: &str) -> (r: bool)
        ensures
            match old(self)@.task_refusal(busy_words@) {
                Some(words) => r && final(self)@ == old(self)@.noted(words),
                None => !r && final(self)@ == old(self)@,
            },
    {
        if self.harness.pending.is_some() {
            self.note(
                "[approval pending \u{2014} press a (allow), s (allow always), or d (deny)]",
            );
            true
        } else if self.harness.busy() {
            self.note(busy_words);
            true
        } else {
            false
        }
    }

    /// Gives the agent a task, where it can take one.
    fn submit_task(&mut self, c: AgentCommand, out: &mut Vec<Action>)
        requires
            c is Qos || c is Task,
        ensures
            final(self)@ == old(self)@.agent_did(c@).0,
            actions(final(out)@) == actions(old(out)@) + old(self)@.agent_did(c@).1,
    {
        assert(actions(out@) =~= actions(old(out)@) + Seq::<ActionModel>::empty());
        match c {
            AgentCommand::Qos { graphical } => {
                if !self.refuse_task(
                    "[agent is working \u{2014} wait for it to finish or /stop]",
                ) {
                    if graphical {
                        self.note(
                            "[/qos --graphical \u{2014} booting QuantumOS with a live browser view]",
                        );
                        self.harness_user_turn(QOS_BOOT_GRAPHICAL_PROMPT.to_owned(), out);
                    } else {
                        self.note("[/qos \u{2014} booting QuantumOS on a qBraid Lab instance]");
                        self.harness_user_turn(QOS_BOOT_PROMPT.to_owned(), out);
                    }
                }
            },
            AgentCommand::Task(t) => {
                if !self.refuse_task("[agent is working \u{2014} wait for it to finish]") {
                    self.harness_user_turn(t, out);
                }
            },
            _ => {},
        }
    }

    /// Steers the agent.
    fn submit_control(&mut self, c: AgentCommand, out: &mut Vec<Action>)
        requires
            c is Mode || c is Stop || c is Clear || c is Model,
        ensures
            final(self)@ == old(self)@.agent_did(c@).0,
            actions(final(out)@) == actions(old(out)@) + old(self)@.agent_did(c@).1,
    {
        match c {
            AgentCommand::Mode(m) => {
                self.harness.set_harness_mode(m.as_str(), out);
            },
            AgentCommand::Stop => {
                self.harness.stop_harness(out);
            },
            AgentCommand::Clear => {
                self.harness.clear_harness(out);
            },
            AgentCommand::Model(m) => {
                self.harness.set_harness_model(m.as_str(), out);
            },
            _ => {},
        }
    }

    /// Does what a line on the Agent tab asks for.
    fn submit_agent(&mut self, c: AgentCommand, out: &mut Vec<Action>)
        ensures
            final(self)@ == old(self)@.agent_did(c@).0,
            actions(final(out)@) == actions(old(out)@) + old(self)@.agent_did(c@).1,
    {
        match &c {
            AgentCommand::Qos { .. } | AgentCommand::Task(_) => {
                self.submit_task(c, out);
                return;
            },
            AgentCommand::Mode(_) | AgentCommand::Stop | AgentCommand::Clear
            | AgentCommand::Model(_) => {
                self.submit_control(c, out);
                return;
            },
            _ => {},
        }
        assert(actions(out@) =~= actions(old(out)@) + Seq::<ActionModel>::empty());
        match c {
            AgentCommand::Help => {
                self.show_help = true;
            },
            AgentCommand::Quit => {
                self.should_quit = true;
            },
            AgentCommand::Unknown(c) => {
                let words = cat3("[unknown command /", c.as_str(), " \u{2014} try /help]");
                self.note(words.as_str());
            },
            _ => {},
        }
    }

    /// Calls a plugin, unless a turn is under way.
    fn ask_plugin(&mut self, binary: &str, verb: &str, rest: &str, out: &mut Vec<Action>)
        ensures
            final(self)@ == old(self)@.plugin_asked(binary@, verb@, rest@).0,
            actions(final(out)@) == actions(old(out)@) + old(self)@.plugin_asked(
                binary@,
                verb@,
                rest@,
            ).1,
    {
        if !self.chat.pending {
            self.scroll = 0;
            let prompt = trimmed(rest);
            self.chat.spawn_plugin_turn(binary, verb, prompt.as_str(), out);
        }
        assert(actions(out@) =~= actions(old(out)@) + old(self)@.plugin_asked(
            binary@,
            verb@,
            rest@,
        ).1);
    }

    /// Opens the Cosmos tab.
    fn open_cosmos(&mut self, now: u64, out: &mut Vec<Action>)
        ensures
            final(self)@ == old(self)@.cosmos_opened(now).0,
            actions(final(out)@) == actions(old(out)@) + old(self)@.cosmos_opened(now).1,
    {
        self.tab = Tab::Cosmos;
        self.cosmos.load_cosmos(now, out);
        self.log.say(Role::System, "Opening Cosmos \u{2014} constellation + radio status.");
    }

    /// Asks for fresh figures.
    fn refresh_figures(&mut self, now: u64, out: &mut Vec<Action>)
        ensures
            final(self)@ == old(self)@.figures_asked(now).0,
            actions(final(out)@) == actions(old(out)@) + old(self)@.figures_asked(now).1,
    {
        self.log.refresh(now, out);
        self.log.say(Role::System, "Status refreshed.");
    }

    /// Sends a line to the chat, whose tab opens.
    fn open_chat(&mut self, input: String, out: &mut Vec<Action>)
        ensures
            final(self)@ == old(self)@.chat_opened(input@).0,
            actions(final(out)@) == actions(old(out)@) + old(self)@.chat_opened(input@).1,
    {
        self.tab = Tab::Chat;
        if self.chat.pending {
            assert(actions(out@) =~= actions(old(out)@) + Seq::<ActionModel>::empty());
        } else {
            self.scroll = 0;
            self.chat.say(input, out);
        }
    }

    /// Does what a memory command asks for.
    fn submit_memory(&mut self, c: Command, input: &str, now: u64, out: &mut Vec<Action>)
        requires
            c is Remember || c is Recall || c is Forget,
        ensures
            final(self)@ == old(self)@.did(c@, input@, now).0,
            actions(final(out)@) == actions(old(out)@) + old(self)@.did(c@, input@, now).1,
    {
        self.scroll = 0;
        match c {
            Command::Remember(t) => {
                let label = cat4("remember", " \"", t.as_str(), "\"");
                self.log.execute_memory(label.as_str(), Job::Remember(t), out);
            },
            Command::Recall(t) => {
                let label = cat4("recall", " \"", t.as_str(), "\"");
                self.log.execute_memory(label.as_str(), Job::Recall(t), out);
            },
            Command::Forget(t) => {
                let label = cat4("forget", " \"", t.as_str(), "\"");
                self.log.execute_memory(label.as_str(), Job::Forget(t), out);
            },
            _ => {},
        }
    }

    /// Does what a command asks for that runs the binary otherwise, or says how to
    /// write it.
    fn submit_run(&mut self, c: Command, input: &str, now: u64, out: &mut Vec<Action>)
        requires
            c is Dream || c is Refresh || c is Usage || c is Pass,
        ensures
            final(self)@ == old(self)@.did(c@, input@, now).0,
            actions(final(out)@) == actions(old(out)@) + old(self)@.did(c@, input@, now).1,
    {
        self.scroll = 0;
        match c {
            Command::Dream(mode) => {
                self.execute_dream(mode.as_str(), now, out);
            },
            Command::Refresh => {
                self.refresh_figures(now, out);
            },
            Command::Usage(words) => {
                self.log.say(Role::Error, words.as_str());
                assert(actions(out@) =~= actions(old(out)@) + Seq::<ActionModel>::empty());
            },
            Command::Pass { label, args, secs } => {
                self.log.execute_passthrough(label.as_str(), args, secs, out);
            },
            _ => {},
        }
    }

    /// Does what a command asks for that opens a tab or the help, or quits.
    fn submit_view(&mut self, c: Command, input: String, now: u64, out: &mut Vec<Action>)
        requires
            c is Cosmos || c is Help || c is Quit || c is Chat,
        ensures
            final(self)@ == old(self)@.did(c@, input@, now).0,
            actions(final(out)@) == actions(old(out)@) + old(self)@.did(c@, input@, now).1,
    {
        match c {
            Command::Cosmos => {
                self.scroll = 0;
                self.open_cosmos(now, out);
            },
            Command::Help => {
                self.scroll = 0;
                self.show_help = true;
                assert(actions(out@) =~= actions(old(out)@) + Seq::<ActionModel>::empty());
            },
            Command::Quit => {
                self.scroll = 0;
                self.should_quit = true;
                assert(actions(out@) =~= actions(old(out)@) + Seq::<ActionModel>::empty());
            },
            _ => {
                self.open_chat(input, out);
            },
        }
    }

    /// Does what a line in the command bar asks for.
    fn submit_command(&mut self, c: Command, input: String, now: u64, out: &mut Vec<Action>)
        ensures
            final(self)@ == old(self)@.did(c@, input@, now).0,
            actions(final(out)@) == actions(old(out)@) + old(self)@.did(c@, input@, now).1,
    {
        match &c {
            Command::Remember(_) | Command::Recall(_) | Command::Forget(_) => {
                self.submit_memory(c, input.as_str(), now, out)
            },
            Command::Dream(_) | Command::Refresh | Command::Usage(_) | Command::Pass { .. } => {
                self.submit_run(c, input.as_str(), now, out)
            },
            _ => self.submit_view(c, input, now, out),
        }
    }

    /// Does what a line on the Chat tab asks for.
    fn submit_chat(&mut self, input: String, now: u64, out: &mut Vec<Action>)
        ensures
            final(self)@ == old(self)@.chat_did(input@, now).0,
            actions(final(out)@) == actions(old(out)@) + old(self)@.chat_did(input@, now).1,
    {
        match strip_prefix(input.as_str(), "/code ") {
            Some(p) => {
                self.ask_plugin("kannaka-code", "/code", p.as_str(), out);
                return;
            },
            None => {},
        }
        match strip_prefix(input.as_str(), "/topus ") {
            Some(p) => {
                self.ask_plugin("kannaktopus", "/topus", p.as_str(), out);
                return;
            },
            None => {},
        }
        let c = read_command(input.as_str());
        self.submit_command(c, input, now, out);
    }

    /// Sends the line in the bar.
    pub fn submit_input(&mut self, now: u64, out: &mut Vec<Action>)
        ensures
            final(self)@ == old(self)@.submitted(now).0,
            actions(final(out)@) == actions(old(out)@) + old(self)@.submitted(now).1,
    {
        let input = trimmed(self.bar.input.as_str());
        if input.as_str().is_empty() {
            assert(actions(out@) =~= actions(old(out)@) + Seq::<ActionModel>::empty());
            return;
        }
        self.bar.remember(input.as_str());
        self.bar.clear();
        match self.tab {
            Tab::Agent => {
                let c = read_agent_command(input.as_str());
                self.submit_agent(c, out)
            },
            Tab::Chat => self.submit_chat(input, now, out),
            _ => {
                let c = read_command(input.as_str());
                self.submit_command(c, input, now, out)
            },
        }
    }
}

} // verus!
