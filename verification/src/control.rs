//! What keys and pasted text do.

use vstd::prelude::*;
use crate::action::{actions, Action, ActionModel};
use crate::app::{App, AppModel, Tab};
use crate::bus::BusStatus;
use crate::harness::{is_busy, Decision};
use crate::laws::{lemma_bar_wf, lemma_keyed_wf};
use crate::keys::{burst_of, Key, KeyPress, Mods};

verus! {

impl App {
    /// Does what entering the tab asks for.
    fn on_tab_enter(&mut self, now: u64, out: &mut Vec<Action>)
        ensures
            final(self)@ == old(self)@.entered(now).0,
            actions(final(out)@) == actions(old(out)@) + old(self)@.entered(now).1,
    {
        assert(actions(out@) =~= actions(old(out)@) + Seq::<ActionModel>::empty());
        self.scroll = 0;
        match self.tab {
            Tab::Status => self.log.refresh(now, out),
            Tab::Bus | Tab::Constellation | Tab::Dreams => self.bus.start_bus(out),
            Tab::Cosmos => {
                if self.cosmos.is_due(now) {
                    self.cosmos.load_cosmos(now, out);
                }
            },
            _ => {},
        }
    }

    /// The keys that decide or cancel on the Agent tab. Says whether the key was one
    /// of them.
    fn agent_key(&mut self, k: KeyPress, now: u64, out: &mut Vec<Action>) -> (r: bool)
        requires
            old(self)@.tab == Tab::Agent,
        ensures
            r ==> {
                let h = old(self)@.hotkey(k, now);
                &&& h is Some
                &&& final(self)@ == h->Some_0.0
                &&& actions(final(out)@) == actions(old(out)@) + h->Some_0.1
            },
            !r ==> final(self)@ == old(self)@ && final(out)@ == old(out)@ && {
                &&& old(self)@.harness.pending is Some ==> !k.spec_letter('a', 'A')
                    && !k.spec_letter('s', 'S') && !k.spec_letter('d', 'D') && !k.spec_esc()
                &&& !(old(self)@.harness.pending is None && is_busy(old(self)@.harness.status)
                    && k.spec_esc())
            },
    {
        if self.harness.pending.is_some() {
            if k.is_letter('a', 'A') {
                self.harness.resolve_approval(Decision::Allow, out);
                return true;
            }
            if k.is_letter('s', 'S') {
                self.harness.resolve_approval(Decision::AllowAlways, out);
                return true;
            }
            if k.is_letter('d', 'D') || k.is_esc() {
                self.harness.resolve_approval(Decision::Deny, out);
                return true;
            }
        } else if self.harness.busy() && k.is_esc() {
            self.harness.stop_harness(out);
            return true;
        }
        false
    }

    /// The keys that do something special on the other tabs. Says whether the key was
    /// one of them.
    fn tab_key(&mut self, k: KeyPress, now: u64, out: &mut Vec<Action>) -> (r: bool)
        requires
            old(self)@.tab != Tab::Agent,
        ensures
            r ==> {
                let h = old(self)@.hotkey(k, now);
                &&& h is Some
                &&& final(self)@ == h->Some_0.0
                &&& actions(final(out)@) == actions(old(out)@) + h->Some_0.1
            },
            !r ==> final(self)@ == old(self)@ && final(out)@ == old(out)@ && {
                &&& old(self)@.tab == Tab::Dreams ==> !k.spec_letter('d', 'D') && !k.spec_letter(
                    'l',
                    'L',
                )
                &&& old(self)@.tab == Tab::Bus && old(self)@.bus.status == BusStatus::Failed
                    ==> !k.spec_letter('r', 'R')
                &&& old(self)@.tab == Tab::Cosmos ==> !k.spec_letter('r', 'R')
            },
    {
        match self.tab {
            Tab::Dreams => {
                if k.is_letter('d', 'D') {
                    self.bus.start_dream("deep", now, out);
                    return true;
                }
                if k.is_letter('l', 'L') {
                    self.bus.start_dream("lite", now, out);
                    return true;
                }
            },
            Tab::Bus => {
                if self.bus.status == BusStatus::Failed && k.is_letter('r', 'R') {
                    self.bus.restart_bus(out);
                    return true;
                }
            },
            Tab::Cosmos => {
                if k.is_letter('r', 'R') {
                    self.cosmos.load_cosmos(now, out);
                    return true;
                }
            },
            _ => {},
        }
        false
    }

    /// The keys that do something special while the bar is empty. Says whether the
    /// key was one of them.
    fn hotkey(&mut self, k: KeyPress, now: u64, out: &mut Vec<Action>) -> (r: bool)
        ensures
            match old(self)@.hotkey(k, now) {
                Some(h) => r && final(self)@ == h.0 && actions(final(out)@) == actions(old(out)@)
                    + h.1,
                None => !r && final(self)@ == old(self)@ && final(out)@ == old(out)@,
            },
    {
        let done = if self.tab == Tab::Agent {
            self.agent_key(k, now, out)
        } else {
            self.tab_key(k, now, out)
        };
        if done {
            return true;
        }
        if k.is_letter('q', 'Q') || k.is_esc() {
            self.should_quit = true;
            assert(actions(out@) =~= actions(old(out)@) + Seq::<ActionModel>::empty());
            return true;
        }
        false
    }

    /// Scrolls up.
    fn scroll_up(&mut self, n: usize)
        ensures
            final(self)@ == old(self)@.scrolled_up(n),
    {
        self.scroll = self.scroll.saturating_add(n);
    }

    /// Scrolls down.
    fn scroll_down(&mut self, n: usize)
        ensures
            final(self)@ == old(self)@.scrolled_down(n),
    {
        self.scroll = self.scroll.saturating_sub(n);
    }

    /// The keys that edit the bar or scroll.
    fn edit_key(&mut self, k: KeyPress, now: u64)
        requires
            old(self)@.bar.wf(),
            !(k.key is Tab || k.key is BackTab || k.key is Enter),
        ensures
            final(self)@ == old(self)@.edited(k, now).0,
    {
        match k.key {
            Key::Char(c) => {
                if k.mods == Mods::Control && c == 'c' {
                    self.should_quit = true;
                } else {
                    self.bar.typed(c);
                }
            },
            Key::F(n) => {
                if n == 1 {
                    self.show_help = true;
                }
            },
            Key::Backspace => self.bar.backspace(),
            Key::Delete => self.bar.delete(),
            Key::Left => self.bar.left(),
            Key::Right => self.bar.right(),
            Key::Home => self.bar.home(),
            Key::End => self.bar.end(),
            Key::Up => self.bar.up(),
            Key::Down => self.bar.down(),
            Key::PageUp => self.scroll_up(5),
            Key::PageDown => self.scroll_down(5),
            _ => {},
        }
    }

    /// The keys that edit, send, scroll or change the tab.
    fn plain_key(&mut self, k: KeyPress, now: u64, out: &mut Vec<Action>)
        requires
            old(self)@.bar.wf(),
        ensures
            final(self)@ == old(self)@.edited(k, now).0,
            actions(final(out)@) == actions(old(out)@) + old(self)@.edited(k, now).1,
    {
        assert(actions(out@) =~= actions(old(out)@) + Seq::<ActionModel>::empty());
        match k.key {
            Key::Tab => {
                if k.mods == Mods::Plain {
                    self.tab = self.tab.next();
                    self.on_tab_enter(now, out);
                }
            },
            Key::BackTab => {
                if k.mods == Mods::Plain || k.mods == Mods::Shift {
                    self.tab = self.tab.prev();
                    self.on_tab_enter(now, out);
                }
            },
            Key::Enter => {
                if self.bar.is_pasting(now) {
                    self.bar.paste_break(now);
                } else {
                    self.submit_input(now, out);
                }
            },
            _ => {
                self.edit_key(k, now);
            },
        }
    }

    /// Does what a key asks for.
    pub fn handle_key(&mut self, k: KeyPress, now: u64, out: &mut Vec<Action>)
        requires
            old(self)@.wf(),
        ensures
            final(self)@ == old(self)@.keyed(k, now).0,
            actions(final(out)@) == actions(old(out)@) + old(self)@.keyed(k, now).1,
            final(self)@.wf(),
    {
        proof {
            lemma_bar_wf(self@, Seq::empty(), now);
            lemma_keyed_wf(self@, k, now);
        }
        if self.show_help {
            self.show_help = false;
            assert(actions(out@) =~= actions(old(out)@) + Seq::<ActionModel>::empty());
            return;
        }
        if self.bar.is_empty() && self.hotkey(k, now, out) {
            return;
        }
        self.plain_key(k, now, out);
    }

    /// Puts pasted text into the bar.
    pub fn handle_paste(&mut self, text: &str, now: u64)
        requires
            old(self)@.wf(),
        ensures
            final(self)@ == old(self)@.pasted(text@, now),
            final(self)@.wf(),
    {
        proof {
            lemma_bar_wf(self@, text@, now);
        }
        self.bar.paste(text, now);
    }

    /// Does what keys ask for that came at once.
    pub fn handle_keys(&mut self, keys: Vec<KeyPress>, now: u64, out: &mut Vec<Action>)
        requires
            old(self)@.wf(),
        ensures
            final(self)@ == old(self)@.burst(keys@, now).0,
            actions(final(out)@) == actions(old(out)@) + old(self)@.burst(keys@, now).1,
            final(self)@.wf(),
    {
        if keys.len() == 1 {
            self.handle_key(keys[0], now, out);
            return;
        }
        let text = burst_of(&keys);
        if !text.as_str().is_empty() {
            self.handle_paste(text.as_str(), now);
            assert(actions(out@) =~= actions(old(out)@) + Seq::<ActionModel>::empty());
            return;
        }
        let mut i: usize = 0;
        assert(keys@.take(0) =~= Seq::<KeyPress>::empty());
        assert(actions(out@) =~= actions(old(out)@) + Seq::<ActionModel>::empty());
        while i < keys.len()
            invariant
                i <= keys@.len(),
                self@.wf(),
                self@ == old(self)@.keyed_all(keys@.take(i as int), now).0,
                actions(out@) == actions(old(out)@) + old(self)@.keyed_all(
                    keys@.take(i as int),
                    now,
                ).1,
            decreases keys.len() - i,
        {
            let ghost had = keys@.take(i as int);
            let ghost next = keys@.take(i + 1);
            proof {
                assert(next.drop_last() =~= had);
                assert(next.last() == keys@[i as int]);
            }
            self.handle_next_key(keys[i], now, out);
            assert(actions(out@) =~= actions(old(out)@) + old(self)@.keyed_all(next, now).1);
            i = i + 1;
        }
        assert(keys@.take(keys@.len() as int) =~= keys@);
    }

    /// Does what a key of a series asks for.
    fn handle_next_key(&mut self, k: KeyPress, now: u64, out: &mut Vec<Action>)
        requires
            old(self)@.wf(),
        ensures
            final(self)@ == old(self)@.next_key(k, now).0,
            actions(final(out)@) == actions(old(out)@) + old(self)@.next_key(k, now).1,
            final(self)@.wf(),
    {
        reveal(AppModel::next_key);
        self.handle_key(k, now, out);
    }
}

} // verus!
