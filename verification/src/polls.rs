//! What the answers do that come in.

use vstd::prelude::*;
use crate::action::{actions, Action, ActionModel, Answer};
use crate::agent::AgentEvent;
use crate::app::{App, AppModel};
use crate::bus::{frame_models, lemma_polled_wf, BusSpawn};
use crate::chat::{chat_event_models, ChatEvent};
use crate::cosmos::CosmosReport;
use crate::harness::{event_models, lemma_applied_all_bounded, user_frame, SpawnOutcome};
use crate::log::{lemma_cmd_polled_bounded, lemma_pass_polled_bounded};
use crate::payload::BusFrame;
use crate::reports::{CmdResult, MemoryEntry, Status};
use crate::text::texts;

verus! {

impl App {
    /// Takes in the status, where it came.
    pub fn poll_status(&mut self, a: Answer<Result<Status, String>>)
        requires
            old(self)@.wf(),
        ensures
            final(self)@ == (AppModel { log: old(self)@.log.status_polled(a), ..old(self)@ }),
            final(self)@.wf(),
    {
        self.log.poll_status(a);
    }

    /// Takes in the memories, where they came.
    pub fn poll_observe(&mut self, a: Answer<Result<(u64, Vec<MemoryEntry>), String>>)
        requires
            old(self)@.wf(),
        ensures
            final(self)@ == (AppModel { log: old(self)@.log.observe_polled(a), ..old(self)@ }),
            final(self)@.wf(),
    {
        self.log.poll_observe(a);
    }

    /// Takes in what a memory command reports, where it has ended.
    pub fn poll_cmd(&mut self, a: Answer<CmdResult>, out: &mut Vec<Action>)
        requires
            old(self)@.wf(),
        ensures
            final(self)@ == (AppModel { log: old(self)@.log.cmd_polled(a).0, ..old(self)@ }),
            actions(final(out)@) == actions(old(out)@) + old(self)@.log.cmd_polled(a).1,
            final(self)@.wf(),
    {
        proof {
            lemma_cmd_polled_bounded(self.log@, a);
        }
        self.log.poll_cmd(a, out);
    }

    /// Takes in what another subcommand reports, where it has ended.
    pub fn poll_passthrough(&mut self, a: Answer<CmdResult>, out: &mut Vec<Action>)
        requires
            old(self)@.wf(),
        ensures
            final(self)@ == (AppModel { log: old(self)@.log.pass_polled(a).0, ..old(self)@ }),
            actions(final(out)@) == actions(old(out)@) + old(self)@.log.pass_polled(a).1,
            final(self)@.wf(),
    {
        proof {
            lemma_pass_polled_bounded(self.log@, a);
        }
        self.log.poll_passthrough(a, out);
    }

    /// Takes in the frames of the bus, and how the dream ended that runs.
    pub fn poll_bus(
        &mut self,
        frames: Vec<BusFrame>,
        gone: bool,
        dream: Answer<Result<String, String>>,
        now: u64,
        out: &mut Vec<Action>,
    )
        requires
            old(self)@.wf(),
        ensures
            final(self)@ == old(self)@.bus_polled(frame_models(frames@), gone, dream, now).0,
            actions(final(out)@) == actions(old(out)@) + old(self)@.bus_polled(
                frame_models(frames@),
                gone,
                dream,
                now,
            ).1,
            final(self)@.wf(),
    {
        proof {
            lemma_polled_wf(self.bus@, frame_models(frames@), gone, now);
        }
        let awake = match &dream {
            Answer::Got(Ok(_)) => true,
            _ => false,
        };
        self.bus.poll_bus(frames, gone, now);
        self.bus.poll_dream(dream, now);
        if awake {
            self.log.refresh(now, out);
        } else {
            assert(actions(out@) =~= actions(old(out)@) + Seq::<ActionModel>::empty());
        }
    }

    /// Takes note of how the start of the bus went.
    pub fn bus_spawned(&mut self, o: BusSpawn)
        requires
            old(self)@.wf(),
        ensures
            final(self)@ == (AppModel { bus: old(self)@.bus.spawned(o), ..old(self)@ }),
            final(self)@.wf(),
    {
        self.bus.bus_spawned(o);
    }

    /// Takes in what the poll of the constellation found, where it has ended.
    pub fn poll_cosmos(&mut self, a: Answer<CosmosReport>)
        requires
            old(self)@.wf(),
        ensures
            final(self)@ == (AppModel { cosmos: old(self)@.cosmos.polled(a), ..old(self)@ }),
            final(self)@.wf(),
    {
        self.cosmos.poll_cosmos(a);
    }

    /// Takes in what came from the chat partner, and turns the spinner.
    pub fn poll_chat(&mut self, events: Vec<ChatEvent>, gone: bool, out: &mut Vec<Action>)
        requires
            old(self)@.wf(),
        ensures
            final(self)@ == (AppModel {
                chat: old(self)@.chat.listened(
                    chat_event_models(events@),
                    gone,
                ).0.kept().ticked(),
                ..old(self)@
            }),
            actions(final(out)@) == actions(old(out)@) + old(self)@.chat.listened(
                chat_event_models(events@),
                gone,
            ).1,
            final(self)@.wf(),
    {
        self.chat.poll_chat(events, gone, out);
        self.chat.tick();
    }

    /// Takes in the output of a plugin.
    pub fn poll_plugin(&mut self, lines: Vec<String>, closed: bool)
        requires
            old(self)@.wf(),
        ensures
            final(self)@ == (AppModel {
                chat: old(self)@.chat.plugin_polled(texts(lines@), closed),
                ..old(self)@
            }),
            final(self)@.wf(),
    {
        self.chat.poll_plugin(lines, closed);
    }

    /// Takes note of whether a plugin was found.
    pub fn plugin_probed(
        &mut self,
        binary: String,
        prompt: String,
        found: bool,
        out: &mut Vec<Action>,
    )
        requires
            old(self)@.wf(),
        ensures
            final(self)@ == (AppModel {
                chat: old(self)@.chat.plugin_probed(binary@, found),
                ..old(self)@
            }),
            actions(final(out)@) == actions(old(out)@) + (if found {
                seq![ActionModel::RunPlugin { binary: binary@, prompt: prompt@ }]
            } else {
                Seq::empty()
            }),
            final(self)@.wf(),
    {
        self.chat.plugin_probed(binary, prompt, found, out);
    }

    /// Takes in what came from the agent, and turns the spinner.
    pub fn poll_harness(&mut self, events: Vec<AgentEvent>)
        requires
            old(self)@.wf(),
        ensures
            final(self)@ == (AppModel {
                harness: old(self)@.harness.applied_all(event_models(events@)).ticked(),
                ..old(self)@
            }),
            final(self)@.wf(),
    {
        proof {
            lemma_applied_all_bounded(self.harness@, event_models(events@));
        }
        self.harness.poll_harness(events);
        self.harness.tick();
    }

    /// Takes note of how the start of the agent went, and goes on with the turn that
    /// waited for it.
    pub fn harness_spawned(
        &mut self,
        cwd: String,
        outcome: SpawnOutcome,
        turn: String,
        out: &mut Vec<Action>,
    )
        requires
            old(self)@.wf(),
        ensures
            final(self)@ == (AppModel {
                harness: old(self)@.harness.spawned(cwd@, outcome@).turned(turn@),
                scroll: 0,
                ..old(self)@
            }),
            actions(final(out)@) == actions(old(out)@) + old(self)@.harness.spawned(
                cwd@,
                outcome@,
            ).sent(user_frame(turn@)),
            final(self)@.wf(),
    {
        self.scroll = 0;
        self.harness.harness_spawned(cwd, outcome, turn, out);
    }
}

} // verus!
