//! The state of the dashboard: the two lists, the tab and the cursor, the
//! message histories and the colour themes.

use vstd::prelude::*;
use crate::config::colors::{Config, ConfigView};
use crate::cycle::{next_on_cycle, next_place, place_after, previous_on_cycle, previous_place};
use crate::text::texts;
use crate::tui::history::{history, MessageHistory};

verus! {

/// One of the two lists that the sidebar can show.
#[derive(Clone, Copy, Debug, PartialEq, Eq, Structural)]
pub enum Tab {
    Channels,
    DirectMessages,
}

impl Tab {
    /// The tab that is not this one.
    pub open spec fn other(self) -> Tab {
        match self {
            Tab::Channels => Tab::DirectMessages,
            Tab::DirectMessages => Tab::Channels,
        }
    }

    /// The place of the tab in the tab strip.
    pub open spec fn place(self) -> int {
        match self {
            Tab::Channels => 0,
            Tab::DirectMessages => 1,
        }
    }
}

/// The state of the dashboard as a value.
pub struct AppView {
    pub channels: Seq<Seq<char>>,
    pub private_messages: Seq<Seq<char>>,
    pub selected_tab: Tab,
    pub selected_index: nat,
    pub messages: Map<Seq<char>, Seq<Seq<char>>>,
    pub themes: ConfigView,
    pub themed: bool,
}

impl AppView {
    /// The state in which a session starts: the channels tab with the cursor
    /// on its first entry, and no messages.
    pub open spec fn initial(
        themes: ConfigView,
        themed: bool,
        channels: Seq<Seq<char>>,
        private_messages: Seq<Seq<char>>,
    ) -> AppView {
        AppView {
            channels,
            private_messages,
            selected_tab: Tab::Channels,
            selected_index: 0,
            messages: Map::empty(),
            themes,
            themed,
        }
    }

    /// The list of the selected tab.
    pub open spec fn active_list(self) -> Seq<Seq<char>> {
        match self.selected_tab {
            Tab::Channels => self.channels,
            Tab::DirectMessages => self.private_messages,
        }
    }

    /// The cursor is on an entry of the list of the selected tab, or at
    /// zero where that list is empty; the themes are well formed.
    pub open spec fn wf(self) -> bool {
        &&& self.themes.wf()
        &&& self.selected_index < self.active_list().len() || self.selected_index == 0
    }

    /// The state after `tab` was selected: the cursor is back at zero.
    pub open spec fn select_tab(self, tab: Tab) -> AppView {
        AppView { selected_tab: tab, selected_index: 0, ..self }
    }

    /// The state after a switch to the following tab.
    pub open spec fn next_tab(self) -> AppView {
        self.select_tab(self.selected_tab.other())
    }

    /// The state after a switch to the preceding tab.
    pub open spec fn previous_tab(self) -> AppView {
        self.select_tab(self.selected_tab.other())
    }

    /// The state after the cursor went on by one entry, from the last entry
    /// to the first. On an empty list nothing changes.
    pub open spec fn next_channel(self) -> AppView {
        if self.active_list().len() == 0 {
            self
        } else {
            AppView {
                selected_index: next_on_cycle(
                    self.selected_index as int,
                    self.active_list().len() as int,
                ) as nat,
                ..self
            }
        }
    }

    /// The state after the cursor went back by one entry, from the first
    /// entry to the last. On an empty list nothing changes.
    pub open spec fn previous_channel(self) -> AppView {
        if self.active_list().len() == 0 {
            self
        } else {
            AppView {
                selected_index: previous_on_cycle(
                    self.selected_index as int,
                    self.active_list().len() as int,
                ) as nat,
                ..self
            }
        }
    }

    /// The state after the cursor went on `count` times.
    pub open spec fn next_channel_times(self, count: nat) -> AppView
        decreases count,
    {
        if count == 0 {
            self
        } else {
            self.next_channel_times((count - 1) as nat).next_channel()
        }
    }

    /// The state after the following colour scheme became the active one.
    pub open spec fn next_colorscheme(self) -> AppView {
        AppView { themes: self.themes.cycle_next(), ..self }
    }

    /// The state after `message` was appended to the history of `channel`.
    pub open spec fn add_message(self, channel: Seq<char>, message: Seq<char>) -> AppView {
        AppView {
            messages: self.messages.insert(channel, history(self.messages, channel).push(message)),
            ..self
        }
    }
}

/// The state of the dashboard.
#[derive(Debug)]
pub struct App {
    channels: Vec<String>,
    private_messages: Vec<String>,
    selected_tab: Tab,
    selected_index: usize,
    messages: MessageHistory,
    config: Config,
    themed: bool,
}

impl View for App {
    type V = AppView;

    closed spec fn view(&self) -> AppView {
        AppView {
            channels: texts(self.channels@),
            private_messages: texts(self.private_messages@),
            selected_tab: self.selected_tab,
            selected_index: self.selected_index as nat,
            messages: self.messages@,
            themes: self.config@,
            themed: self.themed,
        }
    }
}

impl App {
    /// Every state is well formed.
    #[verifier::type_invariant]
    pub open spec fn inv(&self) -> bool {
        self@.wf()
    }

    /// The state at the start of a session. `fetched` is the list of
    /// conversation peers, or nothing where it could not be had: the list of
    /// direct messages is then empty.
    pub fn new(config: Config, themed: bool, channels: Vec<String>, fetched: Option<Vec<String>>) -> (app: App)
        ensures
            app@.wf(),
            app@ == AppView::initial(
                config@,
                themed,
                texts(channels@),
                match fetched {
                    Some(peers) => texts(peers@),
                    None => Seq::empty(),
                },
            ),
    {
        proof {
            use_type_invariant(&config);
        }
        let private_messages = match fetched {
            Some(peers) => peers,
            None => {
                let none: Vec<String> = Vec::new();
                assert(texts(none@) =~= Seq::<Seq<char>>::empty());
                none
            },
        };
        App {
            channels,
            private_messages,
            selected_tab: Tab::Channels,
            selected_index: 0,
            messages: MessageHistory::new(),
            config,
            themed,
        }
    }

    /// The channels, in their order.
    pub fn channels(&self) -> (list: &Vec<String>)
        ensures
            texts(list@) == self@.channels,
    {
        &self.channels
    }

    /// The conversation peers, in their order.
    pub fn private_messages(&self) -> (list: &Vec<String>)
        ensures
            texts(list@) == self@.private_messages,
    {
        &self.private_messages
    }

    /// The list of the selected tab.
    pub fn active_list(&self) -> (list: &Vec<String>)
        ensures
            texts(list@) == self@.active_list(),
    {
        match self.selected_tab {
            Tab::Channels => &self.channels,
            Tab::DirectMessages => &self.private_messages,
        }
    }

    /// The selected tab.
    pub fn selected_tab(&self) -> (tab: Tab)
        ensures
            tab == self@.selected_tab,
    {
        self.selected_tab
    }

    /// The place of the cursor in the list of the selected tab.
    pub fn selected_index(&self) -> (index: usize)
        ensures
            index == self@.selected_index,
    {
        self.selected_index
    }

    /// The message histories.
    pub fn messages(&self) -> (histories: &MessageHistory)
        ensures
            histories@ == self@.messages,
    {
        &self.messages
    }

    /// The colour schemes and the active one.
    pub fn config(&self) -> (config: &Config)
        ensures
            config@ == self@.themes,
    {
        &self.config
    }

    /// Whether frames are composed with the colours of the active scheme.
    pub fn themed(&self) -> (themed: bool)
        ensures
            themed == self@.themed,
    {
        self.themed
    }

    /// Selects `tab` and puts the cursor on the first entry of its list.
    pub fn select_tab(&mut self, tab: Tab)
        ensures
            final(self)@.wf(),
            final(self)@ == old(self)@.select_tab(tab),
    {
        proof {
            use_type_invariant(&*self);
        }
        self.selected_index = 0;
        self.selected_tab = tab;
    }

    /// Switches to the following tab and puts the cursor on the first entry
    /// of its list.
    pub fn next_tab(&mut self)
        ensures
            final(self)@.wf(),
            final(self)@ == old(self)@.next_tab(),
    {
        let tab = match self.selected_tab {
            Tab::Channels => Tab::DirectMessages,
            Tab::DirectMessages => Tab::Channels,
        };
        self.select_tab(tab);
    }

    /// Switches to the preceding tab and puts the cursor on the first entry
    /// of its list.
    pub fn previous_tab(&mut self)
        ensures
            final(self)@.wf(),
            final(self)@ == old(self)@.previous_tab(),
    {
        let tab = match self.selected_tab {
            Tab::Channels => Tab::DirectMessages,
            Tab::DirectMessages => Tab::Channels,
        };
        self.select_tab(tab);
    }

    /// Moves the cursor to the following entry of the list of the selected
    /// tab, from the last entry to the first. On an empty list nothing
    /// changes.
    pub fn next_channel(&mut self)
        ensures
            final(self)@.wf(),
            final(self)@ == old(self)@.next_channel(),
    {
        proof {
            use_type_invariant(&*self);
        }
        let max: usize = self.active_list().len();
        if max != 0 {
            self.selected_index = next_place(self.selected_index, max);
        }
    }

    /// Moves the cursor to the preceding entry of the list of the selected
    /// tab, from the first entry to the last. On an empty list nothing
    /// changes.
    pub fn previous_channel(&mut self)
        ensures
            final(self)@.wf(),
            final(self)@ == old(self)@.previous_channel(),
    {
        proof {
            use_type_invariant(&*self);
        }
        let max: usize = self.active_list().len();
        if max != 0 {
            self.selected_index = previous_place(self.selected_index, max);
        }
    }

    /// Makes the following colour scheme the active one, the first following
    /// the last. Without schemes nothing changes.
    pub fn next_colorscheme(&mut self)
        ensures
            final(self)@.wf(),
            final(self)@ == old(self)@.next_colorscheme(),
    {
        proof {
            use_type_invariant(&*self);
        }
        let mut config = Config::empty();
        core::mem::swap(&mut self.config, &mut config);
        config.cycle_next();
        self.config = config;
    }

    /// Appends `message` to the history of `channel`.
    pub fn add_message(&mut self, channel: &str, message: String)
        ensures
            final(self)@.wf(),
            final(self)@ == old(self)@.add_message(channel@, message@),
    {
        proof {
            use_type_invariant(&*self);
        }
        let mut messages = MessageHistory::new();
        core::mem::swap(&mut self.messages, &mut messages);
        messages.append(channel, message);
        self.messages = messages;
    }
}

/// Moving the cursor on as many times as the list of the selected tab has
/// entries brings it back to where it was.
pub proof fn lemma_next_channel_full_cycle(state: AppView)
    requires
        state.wf(),
    ensures
        state.next_channel_times(state.active_list().len()) == state,
{
    let n = state.active_list().len();
    lemma_next_channel_times(state, n);
}

/// After `count` moves, at most as many as the list has entries, the cursor
/// has gone on by `count` places round the list, and nothing else changed.
pub proof fn lemma_next_channel_times(state: AppView, count: nat)
    requires
        state.wf(),
        count <= state.active_list().len(),
    ensures
        state.next_channel_times(count).wf(),
        state.next_channel_times(count) == (AppView {
            selected_index: place_after(
                state.selected_index as int,
                count as int,
                state.active_list().len() as int,
            ) as nat,
            ..state
        }),
    decreases count,
{
    if count > 0 {
        lemma_next_channel_times(state, (count - 1) as nat);
    }
}

/// Moving the cursor back undoes moving it on, and moving it on undoes
/// moving it back.
pub proof fn lemma_previous_channel_undoes_next_channel(state: AppView)
    requires
        state.wf(),
    ensures
        state.next_channel().previous_channel() == state,
        state.previous_channel().next_channel() == state,
        state.next_channel().wf(),
        state.previous_channel().wf(),
{
}

/// Two switches to the following tab lead back to the tab that was selected,
/// and so do two switches to the preceding tab; after any switch of tab the
/// cursor is at zero.
pub proof fn lemma_tab_switches(state: AppView, tab: Tab)
    ensures
        state.next_tab().next_tab().selected_tab == state.selected_tab,
        state.previous_tab().previous_tab().selected_tab == state.selected_tab,
        state.next_tab().previous_tab().selected_tab == state.selected_tab,
        state.next_tab().selected_index == 0,
        state.previous_tab().selected_index == 0,
        state.select_tab(tab).selected_index == 0,
        state.select_tab(tab).selected_tab == tab,
        state.themes.wf() ==> state.next_tab().wf() && state.previous_tab().wf() && state.select_tab(
            tab,
        ).wf(),
{
}

/// On an empty list the cursor stays at zero whichever way it is moved.
pub proof fn lemma_moves_on_empty_list(state: AppView)
    requires
        state.wf(),
        state.active_list().len() == 0,
    ensures
        state.next_channel() == state,
        state.previous_channel() == state,
        state.selected_index == 0,
{
}

/// The place that a move of the cursor leads to is the place before or
/// after it modulo the length of the list.
pub proof fn lemma_moves_are_modular(state: AppView)
    requires
        state.wf(),
        state.active_list().len() > 0,
    ensures
        state.next_channel().selected_index as int == (state.selected_index as int + 1) % (
        state.active_list().len() as int),
        state.previous_channel().selected_index as int == (state.selected_index as int
            + state.active_list().len() as int - 1) % (state.active_list().len() as int),
{
    crate::cycle::lemma_next_on_cycle_is_modular(
        state.selected_index as int,
        state.active_list().len() as int,
    );
    crate::cycle::lemma_previous_on_cycle_is_modular(
        state.selected_index as int,
        state.active_list().len() as int,
    );
}

} // verus!
