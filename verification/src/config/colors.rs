//! Colour names, colour schemes and the store of named schemes.

use vstd::prelude::*;
use crate::cycle::{next_on_cycle, next_place, place_after};

verus! {

/// A colour of the palette that scheme entries can name.
#[derive(Clone, Copy, Debug, PartialEq, Eq, Structural)]
pub enum Color {
    White,
    Black,
    Red,
    Green,
    Blue,
    Gray,
}

/// The colour that a symbolic name stands for. A name outside the palette
/// stands for white.
pub open spec fn resolve(name: Seq<char>) -> Color {
    if name == "white"@ {
        Color::White
    } else if name == "black"@ {
        Color::Black
    } else if name == "red"@ {
        Color::Red
    } else if name == "green"@ {
        Color::Green
    } else if name == "blue"@ {
        Color::Blue
    } else if name == "gray"@ {
        Color::Gray
    } else {
        Color::White
    }
}

/// Resolves a symbolic colour name; an unknown name gives white.
pub fn get_color(color_name: &str) -> (color: Color)
    ensures
        color == resolve(color_name@),
{
    if color_name.eq("white") {
        Color::White
    } else if color_name.eq("black") {
        Color::Black
    } else if color_name.eq("red") {
        Color::Red
    } else if color_name.eq("green") {
        Color::Green
    } else if color_name.eq("blue") {
        Color::Blue
    } else if color_name.eq("gray") {
        Color::Gray
    } else {
        Color::White
    }
}

/// A named set of three symbolic colours.
#[derive(Debug)]
pub struct ColorScheme {
    pub border: String,
    pub text: String,
    pub highlight: String,
}

/// The text of a colour scheme.
pub struct SchemeView {
    pub border: Seq<char>,
    pub text: Seq<char>,
    pub highlight: Seq<char>,
}

impl View for ColorScheme {
    type V = SchemeView;

    open spec fn view(&self) -> SchemeView {
        SchemeView { border: self.border@, text: self.text@, highlight: self.highlight@ }
    }
}

impl Clone for ColorScheme {
    fn clone(&self) -> (copy: Self)
        ensures
            copy@ == self@,
    {
        ColorScheme {
            border: self.border.clone(),
            text: self.text.clone(),
            highlight: self.highlight.clone(),
        }
    }
}

/// A colour scheme together with the name it is configured under.
#[derive(Debug)]
pub struct NamedScheme {
    pub name: String,
    pub scheme: ColorScheme,
}

impl View for NamedScheme {
    type V = (Seq<char>, SchemeView);

    open spec fn view(&self) -> (Seq<char>, SchemeView) {
        (self.name@, self.scheme@)
    }
}

/// The named schemes of a list, in its order.
pub open spec fn entries_of(schemes: Seq<NamedScheme>) -> Seq<(Seq<char>, SchemeView)> {
    schemes.map_values(|entry: NamedScheme| entry@)
}

/// Whether no name occurs twice among `entries`.
pub open spec fn names_distinct(entries: Seq<(Seq<char>, SchemeView)>) -> bool {
    forall|i: int, j: int|
        0 <= i < j < entries.len() ==> (#[trigger] entries[i]).0 != (#[trigger] entries[j]).0
}

/// Whether `name` is the name of one of `entries`.
pub open spec fn has_name(entries: Seq<(Seq<char>, SchemeView)>, name: Seq<char>) -> bool {
    exists|i: int| 0 <= i < entries.len() && (#[trigger] entries[i]).0 == name
}

/// The store of named colour schemes as a value: the schemes in their fixed
/// order and the name of the active one.
pub struct ConfigView {
    pub entries: Seq<(Seq<char>, SchemeView)>,
    pub active: Seq<char>,
}

impl ConfigView {
    /// The store that is made from `entries`: the scheme named `default` is
    /// active where there is one, else the first scheme.
    pub open spec fn initial(entries: Seq<(Seq<char>, SchemeView)>) -> ConfigView {
        ConfigView {
            entries,
            active: if has_name(entries, "default"@) || entries.len() == 0 {
                "default"@
            } else {
                entries[0].0
            },
        }
    }

    /// No name occurs twice, and the active name is the name of a scheme
    /// unless there is no scheme at all.
    pub open spec fn wf(self) -> bool {
        &&& names_distinct(self.entries)
        &&& self.entries.len() == 0 || has_name(self.entries, self.active)
    }

    /// The place of the active scheme in the order of the store.
    pub open spec fn position(self) -> int {
        choose|i: int| 0 <= i < self.entries.len() && (#[trigger] self.entries[i]).0 == self.active
    }

    /// The store after one step to the next scheme, the first following the
    /// last. A store without schemes stays as it is.
    pub open spec fn cycle_next(self) -> ConfigView {
        if self.entries.len() == 0 {
            self
        } else {
            ConfigView {
                active: self.entries[next_on_cycle(self.position(), self.entries.len() as int)].0,
                ..self
            }
        }
    }

    /// The store after `count` steps.
    pub open spec fn cycle_times(self, count: nat) -> ConfigView
        decreases count,
    {
        if count == 0 {
            self
        } else {
            self.cycle_times((count - 1) as nat).cycle_next()
        }
    }
}

/// In a well-formed store with schemes, the place of the active scheme is
/// the one place whose scheme has the active name.
pub proof fn lemma_position_is_unique(store: ConfigView, place: int)
    requires
        store.wf(),
        0 <= place < store.entries.len(),
        store.entries[place].0 == store.active,
    ensures
        store.position() == place,
{
    let chosen = store.position();
    assert(0 <= chosen < store.entries.len() && store.entries[chosen].0 == store.active);
    if chosen < place {
        assert(store.entries[chosen].0 != store.entries[place].0);
    } else if place < chosen {
        assert(store.entries[place].0 != store.entries[chosen].0);
    }
}

/// A step keeps a store well formed and its schemes in place, and moves the
/// active place to its successor on the cycle.
pub proof fn lemma_cycle_next_moves_position(store: ConfigView)
    requires
        store.wf(),
        store.entries.len() > 0,
    ensures
        store.cycle_next().wf(),
        store.cycle_next().entries == store.entries,
        0 <= store.position() < store.entries.len(),
        store.cycle_next().position() == next_on_cycle(
            store.position(),
            store.entries.len() as int,
        ),
{
    let place = store.position();
    assert(0 <= place < store.entries.len() && store.entries[place].0 == store.active);
    let next = next_on_cycle(place, store.entries.len() as int);
    let after = store.cycle_next();
    assert(after.entries[next].0 == after.active);
    lemma_position_is_unique(after, next);
}

/// After `count` steps, at most as many as there are schemes, the active
/// place has moved on by `count` places around the cycle.
pub proof fn lemma_cycle_times_moves_position(store: ConfigView, count: nat)
    requires
        store.wf(),
        store.entries.len() > 0,
        count <= store.entries.len(),
    ensures
        store.cycle_times(count).wf(),
        store.cycle_times(count).entries == store.entries,
        store.cycle_times(count).position() == place_after(
            store.position(),
            count as int,
            store.entries.len() as int,
        ),
    decreases count,
{
    let place = store.position();
    assert(0 <= place < store.entries.len() && store.entries[place].0 == store.active);
    if count == 0 {
    } else {
        let before = store.cycle_times((count - 1) as nat);
        lemma_cycle_times_moves_position(store, (count - 1) as nat);
        lemma_cycle_next_moves_position(before);
    }
}

/// Stepping through the schemes as many times as the store holds schemes
/// brings back the store as it was, and with it the active name.
pub proof fn lemma_full_cycle_restores_active(store: ConfigView)
    requires
        store.wf(),
    ensures
        store.cycle_times(store.entries.len()) == store,
{
    if store.entries.len() > 0 {
        let n = store.entries.len();
        let place = store.position();
        assert(0 <= place < n && store.entries[place].0 == store.active);
        lemma_cycle_times_moves_position(store, n);
        let after = store.cycle_times(n);
        let landed = after.position();
        assert(0 <= landed < n && after.entries[landed].0 == after.active);
    }
}

/// Why a list of named schemes is not accepted as a configuration.
#[derive(Clone, Copy, Debug, PartialEq, Eq, Structural)]
pub enum ConfigError {
    /// Two schemes have the same name.
    DuplicateName,
}

/// The store of named colour schemes, with the scheme that is active.
#[derive(Debug)]
pub struct Config {
    colorschemes: Vec<NamedScheme>,
    current_colorscheme: String,
}

impl View for Config {
    type V = ConfigView;

    closed spec fn view(&self) -> ConfigView {
        ConfigView { entries: entries_of(self.colorschemes@), active: self.current_colorscheme@ }
    }
}

impl Config {
    /// Every store is well formed.
    #[verifier::type_invariant]
    pub open spec fn inv(&self) -> bool {
        self@.wf()
    }

    /// Makes the store from the configured schemes, in their order. A list
    /// in which a name occurs twice is refused.
    pub fn load(schemes: Vec<NamedScheme>) -> (loaded: Result<Config, ConfigError>)
        ensures
            names_distinct(entries_of(schemes@)) ==> loaded is Ok,
            match loaded {
                Ok(config) => config@ == ConfigView::initial(entries_of(schemes@)) && config@.wf(),
                Err(error) => error == ConfigError::DuplicateName && !names_distinct(
                    entries_of(schemes@),
                ),
            },
    {
        let ghost entries = entries_of(schemes@);
        let n: usize = schemes.len();
        let mut j: usize = 0;
        while j < n
            invariant
                n == schemes@.len(),
                j <= n,
                entries == entries_of(schemes@),
                forall|a: int, b: int| 0 <= a < b < j ==> (#[trigger] entries[a]).0 != (#[trigger] entries[b]).0,
            decreases n - j,
        {
            let mut i: usize = 0;
            while i < j
                invariant
                    n == schemes@.len(),
                    j < n,
                    i <= j,
                    entries == entries_of(schemes@),
                    forall|a: int| 0 <= a < i ==> (#[trigger] entries[a]).0 != entries[j as int].0,
                decreases j - i,
            {
                if schemes[i].name.as_str().eq(schemes[j].name.as_str()) {
                    assert(entries[i as int].0 == entries[j as int].0);
                    return Err(ConfigError::DuplicateName);
                }
                i += 1;
            }
            j += 1;
        }
        let mut found: bool = false;
        let mut k: usize = 0;
        while k < n
            invariant
                n == schemes@.len(),
                k <= n,
                entries == entries_of(schemes@),
                found ==> has_name(entries, "default"@),
                !found ==> forall|a: int| 0 <= a < k ==> (#[trigger] entries[a]).0 != "default"@,
            decreases n - k,
        {
            if schemes[k].name.as_str().eq("default") {
                assert(entries[k as int].0 == "default"@);
                found = true;
            }
            k += 1;
        }
        let current_colorscheme = if found || n == 0 {
            "default".to_owned()
        } else {
            assert(entries[0].0 == schemes@[0].name@);
            schemes[0].name.clone()
        };
        Ok(Config { colorschemes: schemes, current_colorscheme })
    }

    /// A store without schemes.
    pub fn empty() -> (store: Config)
        ensures
            store@ == ConfigView::initial(Seq::empty()),
            store@.wf(),
    {
        let store = Config { colorschemes: Vec::new(), current_colorscheme: "default".to_owned() };
        assert(store@.entries =~= Seq::empty());
        store
    }

    /// The number of schemes in the store.
    pub fn len(&self) -> (n: usize)
        ensures
            n == self@.entries.len(),
    {
        self.colorschemes.len()
    }

    /// The name of the active scheme.
    pub fn current_colorscheme(&self) -> (name: &String)
        ensures
            name@ == self@.active,
    {
        &self.current_colorscheme
    }

    /// The name of the scheme at place `index` of the store's order.
    pub fn name_at(&self, index: usize) -> (name: Option<&String>)
        ensures
            index >= self@.entries.len() ==> name is None,
            index < self@.entries.len() ==> name is Some && name->0@ == self@.entries[index as int].0,
    {
        if index < self.colorschemes.len() {
            Some(&self.colorschemes[index].name)
        } else {
            None
        }
    }

    /// The place of the active scheme in a store that has schemes.
    fn position(&self) -> (place: usize)
        requires
            self@.entries.len() > 0,
        ensures
            place < self@.entries.len(),
            place == self@.position(),
            self@.entries[place as int].0 == self@.active,
    {
        proof {
            use_type_invariant(self);
        }
        let ghost entries = self@.entries;
        let n: usize = self.colorschemes.len();
        let mut i: usize = 0;
        while i < n
            invariant
                n == self.colorschemes@.len(),
                i <= n,
                entries == self@.entries,
                self@.wf(),
                forall|a: int| 0 <= a < i ==> (#[trigger] entries[a]).0 != self@.active,
            decreases n - i,
        {
            if self.colorschemes[i].name.as_str().eq(self.current_colorscheme.as_str()) {
                assert(entries[i as int].0 == self@.active);
                return i;
            }
            i += 1;
        }
        assert(false);
        0
    }

    /// The active scheme, or nothing where the store has no schemes.
    pub fn active_scheme(&self) -> (scheme: Option<&ColorScheme>)
        ensures
            self@.wf(),
            self@.entries.len() == 0 <==> scheme is None,
            scheme matches Some(active) ==> active@ == self@.entries[self@.position()].1,
    {
        proof {
            use_type_invariant(self);
        }
        if self.colorschemes.len() == 0 {
            None
        } else {
            let place = self.position();
            Some(&self.colorschemes[place].scheme)
        }
    }

    /// Makes the next scheme in the store's order the active one, the first
    /// following the last. Without schemes nothing changes.
    pub fn cycle_next(&mut self)
        ensures
            old(self)@.wf(),
            final(self)@ == old(self)@.cycle_next(),
            final(self)@.wf(),
    {
        proof {
            use_type_invariant(&*self);
        }
        let n: usize = self.colorschemes.len();
        if n == 0 {
            return;
        }
        let place = self.position();
        let next = next_place(place, n);
        let ghost entries = self@.entries;
        assert(entries[next as int].0 == self.colorschemes@[next as int].name@);
        self.current_colorscheme = self.colorschemes[next].name.clone();
    }
}

} // verus!
