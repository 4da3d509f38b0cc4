//! The dispatch of one key press to a change of the state.

use vstd::prelude::*;
use crate::tui::app::{App, AppView, Tab};

verus! {

/// A key of the keyboard, as far as the dashboard tells keys apart.
#[derive(Clone, Copy, Debug, PartialEq, Eq, Structural)]
pub enum Key {
    Char(char),
    Tab,
    BackTab,
    Up,
    Down,
    /// Any other key, and any event that is no key press.
    Other,
}

/// What a key press asks for.
#[derive(Clone, Copy, Debug, PartialEq, Eq, Structural)]
pub enum Action {
    Quit,
    SelectTab(Tab),
    NextTab,
    PreviousTab,
    NextItem,
    PreviousItem,
    CycleTheme,
    Ignore,
}

/// One line of a key table.
#[derive(Clone, Copy, Debug, PartialEq, Eq, Structural)]
pub struct Binding {
    pub key: Key,
    pub action: Action,
}

/// The action that `bindings` gives to `key`: that of the first line for
/// the key, and `Ignore` where there is none.
pub open spec fn action_for(bindings: Seq<Binding>, key: Key) -> Action
    decreases bindings.len(),
{
    if bindings.len() == 0 {
        Action::Ignore
    } else if bindings[0].key == key {
        bindings[0].action
    } else {
        action_for(bindings.subrange(1, bindings.len() as int), key)
    }
}

/// The usual key table: `q` quits, `1` and `2` select a tab, the tabulator
/// keys switch tabs, the arrows move the cursor.
pub open spec fn standard_bindings() -> Seq<Binding> {
    seq![
        Binding { key: Key::Char('q'), action: Action::Quit },
        Binding { key: Key::Char('1'), action: Action::SelectTab(Tab::Channels) },
        Binding { key: Key::Char('2'), action: Action::SelectTab(Tab::DirectMessages) },
        Binding { key: Key::Tab, action: Action::NextTab },
        Binding { key: Key::BackTab, action: Action::PreviousTab },
        Binding { key: Key::Down, action: Action::NextItem },
        Binding { key: Key::Up, action: Action::PreviousItem },
    ]
}

/// The state after `action` was carried out.
pub open spec fn apply(state: AppView, action: Action) -> AppView {
    match action {
        Action::Quit => state,
        Action::SelectTab(tab) => state.select_tab(tab),
        Action::NextTab => state.next_tab(),
        Action::PreviousTab => state.previous_tab(),
        Action::NextItem => state.next_channel(),
        Action::PreviousItem => state.previous_channel(),
        Action::CycleTheme => state.next_colorscheme(),
        Action::Ignore => state,
    }
}

/// A key table: the first line for a key decides.
#[derive(Debug)]
pub struct KeyMap {
    pub bindings: Vec<Binding>,
}

impl KeyMap {
    /// The usual key table, followed by a line that lets `theme_key` step
    /// to the next colour scheme where one is given.
    pub fn standard(theme_key: Option<char>) -> (keys: KeyMap)
        ensures
            keys.bindings@ == match theme_key {
                Some(c) => standard_bindings().push(
                    Binding { key: Key::Char(c), action: Action::CycleTheme },
                ),
                None => standard_bindings(),
            },
    {
        let mut bindings: Vec<Binding> = Vec::new();
        bindings.push(Binding { key: Key::Char('q'), action: Action::Quit });
        bindings.push(Binding { key: Key::Char('1'), action: Action::SelectTab(Tab::Channels) });
        bindings.push(Binding { key: Key::Char('2'), action: Action::SelectTab(Tab::DirectMessages) });
        bindings.push(Binding { key: Key::Tab, action: Action::NextTab });
        bindings.push(Binding { key: Key::BackTab, action: Action::PreviousTab });
        bindings.push(Binding { key: Key::Down, action: Action::NextItem });
        bindings.push(Binding { key: Key::Up, action: Action::PreviousItem });
        assert(bindings@ =~= standard_bindings());
        match theme_key {
            Some(c) => {
                bindings.push(Binding { key: Key::Char(c), action: Action::CycleTheme });
            },
            None => {},
        }
        KeyMap { bindings }
    }

    /// The action that the table gives to `key`.
    pub fn lookup(&self, key: Key) -> (action: Action)
        ensures
            action == action_for(self.bindings@, key),
    {
        let n: usize = self.bindings.len();
        let mut i: usize = 0;
        assert(self.bindings@.subrange(0, n as int) =~= self.bindings@);
        while i < n
            invariant
                n == self.bindings@.len(),
                i <= n,
                action_for(self.bindings@, key) == action_for(
                    self.bindings@.subrange(i as int, n as int),
                    key,
                ),
            decreases n - i,
        {
            let ghost rest = self.bindings@.subrange(i as int, n as int);
            assert(rest[0] == self.bindings@[i as int]);
            assert(rest.subrange(1, rest.len() as int) =~= self.bindings@.subrange(
                i as int + 1,
                n as int,
            ));
            if self.bindings[i].key == key {
                return self.bindings[i].action;
            }
            i += 1;
        }
        Action::Ignore
    }
}

/// Carries out `action` on the state and says whether the session is to
/// end.
pub fn dispatch(app: &mut App, action: Action) -> (quit: bool)
    ensures
        quit == (action == Action::Quit),
        final(app)@ == apply(old(app)@, action),
        final(app)@.wf(),
{
    proof {
        use_type_invariant(&*app);
    }
    match action {
        Action::Quit => {
            return true;
        },
        Action::SelectTab(tab) => app.select_tab(tab),
        Action::NextTab => app.next_tab(),
        Action::PreviousTab => app.previous_tab(),
        Action::NextItem => app.next_channel(),
        Action::PreviousItem => app.previous_channel(),
        Action::CycleTheme => app.next_colorscheme(),
        Action::Ignore => {},
    }
    false
}

/// Handles one key press: carries out what `keys` gives to `key` and says
/// whether the session is to end.
pub fn handle_input(app: &mut App, keys: &KeyMap, key: Key) -> (quit: bool)
    ensures
        quit == (action_for(keys.bindings@, key) == Action::Quit),
        final(app)@ == apply(old(app)@, action_for(keys.bindings@, key)),
        final(app)@.wf(),
{
    let action = keys.lookup(key);
    dispatch(app, action)
}

/// What the usual key table gives to each key.
pub proof fn lemma_standard_bindings(key: Key)
    ensures
        action_for(standard_bindings(), key) == match key {
            Key::Char('q') => Action::Quit,
            Key::Char('1') => Action::SelectTab(Tab::Channels),
            Key::Char('2') => Action::SelectTab(Tab::DirectMessages),
            Key::Tab => Action::NextTab,
            Key::BackTab => Action::PreviousTab,
            Key::Down => Action::NextItem,
            Key::Up => Action::PreviousItem,
            _ => Action::Ignore,
        },
{
    reveal_with_fuel(action_for, 9);
    let b = standard_bindings();
    let b1 = b.subrange(1, b.len() as int);
    let b2 = b1.subrange(1, b1.len() as int);
    let b3 = b2.subrange(1, b2.len() as int);
    let b4 = b3.subrange(1, b3.len() as int);
    let b5 = b4.subrange(1, b4.len() as int);
    let b6 = b5.subrange(1, b5.len() as int);
    let b7 = b6.subrange(1, b6.len() as int);
    assert(b7.len() == 0);
}

} // verus!
