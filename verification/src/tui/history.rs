//! The message histories of channels and conversations, by name.

use vstd::prelude::*;
use crate::text::texts;

verus! {

/// The messages of one channel, oldest first.
#[derive(Debug)]
pub struct ChannelHistory {
    pub name: String,
    pub lines: Vec<String>,
}

/// Whether one of `channels` has the name `name`.
pub open spec fn holds(channels: Seq<ChannelHistory>, name: Seq<char>) -> bool {
    exists|i: int| 0 <= i < channels.len() && (#[trigger] channels[i]).name@ == name
}

/// The place among `channels` of the one named `name`.
pub open spec fn place_of(channels: Seq<ChannelHistory>, name: Seq<char>) -> int {
    choose|i: int| 0 <= i < channels.len() && (#[trigger] channels[i]).name@ == name
}

/// Whether no two of `channels` have the same name.
pub open spec fn distinct(channels: Seq<ChannelHistory>) -> bool {
    forall|i: int, j: int|
        0 <= i < j < channels.len() ==> (#[trigger] channels[i]).name@ != (#[trigger] channels[j]).name@
}

/// The messages that `histories` has for `name`: none for a name that it
/// does not know.
pub open spec fn history(histories: Map<Seq<char>, Seq<Seq<char>>>, name: Seq<char>) -> Seq<Seq<char>> {
    if histories.dom().contains(name) {
        histories[name]
    } else {
        Seq::empty()
    }
}

/// The mapping that `channels` stands for: each name with the messages of
/// the channel of that name.
pub open spec fn as_map(channels: Seq<ChannelHistory>) -> Map<Seq<char>, Seq<Seq<char>>> {
    Map::new(
        |name: Seq<char>| holds(channels, name),
        |name: Seq<char>| texts(channels[place_of(channels, name)].lines@),
    )
}

/// Among channels with distinct names, a channel's place is the one place
/// with its name.
proof fn lemma_place_is_unique(channels: Seq<ChannelHistory>, name: Seq<char>, place: int)
    requires
        distinct(channels),
        0 <= place < channels.len(),
        channels[place].name@ == name,
    ensures
        holds(channels, name),
        place_of(channels, name) == place,
{
    let chosen = place_of(channels, name);
    assert(0 <= chosen < channels.len() && channels[chosen].name@ == name);
    if chosen < place {
        assert(channels[chosen].name@ != channels[place].name@);
    } else if place < chosen {
        assert(channels[place].name@ != channels[chosen].name@);
    }
}

/// Appending a message to a channel that is among `before` changes the
/// mapping at that channel's name alone.
proof fn lemma_append_to_known(
    before: Seq<ChannelHistory>,
    after: Seq<ChannelHistory>,
    place: int,
    message: Seq<char>,
)
    requires
        distinct(before),
        0 <= place < before.len(),
        after.len() == before.len(),
        forall|k: int| 0 <= k < before.len() && k != place ==> #[trigger] after[k] == before[k],
        after[place].name@ == before[place].name@,
        texts(after[place].lines@) == texts(before[place].lines@).push(message),
    ensures
        distinct(after),
        as_map(after) == as_map(before).insert(
            before[place].name@,
            history(as_map(before), before[place].name@).push(message),
        ),
{
    assert forall|k: int| 0 <= k < before.len() implies (#[trigger] after[k]).name@
        == before[k].name@ by {}
    assert forall|i: int, j: int| 0 <= i < j < after.len() implies (#[trigger] after[i]).name@ != (
    #[trigger] after[j]).name@ by {
        assert(before[i].name@ != before[j].name@);
    }
    assert forall|name: Seq<char>| holds(after, name) == holds(before, name) by {
        if holds(before, name) {
            assert(after[place_of(before, name)].name@ == name);
        }
        if holds(after, name) {
            assert(before[place_of(after, name)].name@ == name);
        }
    }
    assert forall|name: Seq<char>| holds(before, name) implies place_of(after, name) == place_of(
        before,
        name,
    ) by {
        lemma_place_is_unique(after, name, place_of(before, name));
    }
    lemma_place_is_unique(before, before[place].name@, place);
    assert(as_map(after) =~= as_map(before).insert(
        before[place].name@,
        history(as_map(before), before[place].name@).push(message),
    ));
}

/// Appending a message to a channel that is not among `before` adds that
/// channel to the mapping, with the message as its only one.
proof fn lemma_append_to_new(before: Seq<ChannelHistory>, entry: ChannelHistory, message: Seq<char>)
    requires
        distinct(before),
        !holds(before, entry.name@),
        texts(entry.lines@) == seq![message],
    ensures
        distinct(before.push(entry)),
        as_map(before.push(entry)) == as_map(before).insert(
            entry.name@,
            history(as_map(before), entry.name@).push(message),
        ),
{
    let after = before.push(entry);
    let last = before.len() as int;
    assert forall|i: int, j: int| 0 <= i < j < after.len() implies (#[trigger] after[i]).name@ != (
    #[trigger] after[j]).name@ by {
        if j < last {
            assert(before[i].name@ != before[j].name@);
        } else {
            assert(before[i].name@ != entry.name@);
        }
    }
    assert forall|name: Seq<char>| holds(after, name) == (holds(before, name) || name
        == entry.name@) by {
        if holds(before, name) {
            assert(after[place_of(before, name)].name@ == name);
        }
        if name == entry.name@ {
            assert(after[last].name@ == name);
        }
        if holds(after, name) {
            let k = place_of(after, name);
            if k < last {
                assert(before[k].name@ == name);
            }
        }
    }
    assert forall|name: Seq<char>| holds(before, name) implies place_of(after, name) == place_of(
        before,
        name,
    ) by {
        lemma_place_is_unique(after, name, place_of(before, name));
    }
    lemma_place_is_unique(after, entry.name@, last);
    assert(Seq::<Seq<char>>::empty().push(message) =~= seq![message]);
    assert(as_map(after) =~= as_map(before).insert(
        entry.name@,
        history(as_map(before), entry.name@).push(message),
    ));
}

/// A mapping from the name of a channel to its messages in the order in
/// which they were appended.
#[derive(Debug)]
pub struct MessageHistory {
    channels: Vec<ChannelHistory>,
}

impl View for MessageHistory {
    type V = Map<Seq<char>, Seq<Seq<char>>>;

    closed spec fn view(&self) -> Map<Seq<char>, Seq<Seq<char>>> {
        as_map(self.channels@)
    }
}

impl MessageHistory {
    /// No two channels of the mapping have the same name.
    #[verifier::type_invariant]
    spec fn inv(&self) -> bool {
        distinct(self.channels@)
    }

    /// A mapping without any channel.
    pub fn new() -> (histories: MessageHistory)
        ensures
            histories@ == Map::<Seq<char>, Seq<Seq<char>>>::empty(),
    {
        let histories = MessageHistory { channels: Vec::new() };
        assert(histories@ =~= Map::<Seq<char>, Seq<Seq<char>>>::empty());
        histories
    }

    fn find(&self, channel: &str) -> (found: Option<usize>)
        ensures
            found is Some <==> holds(self.channels@, channel@),
            found matches Some(place) ==> place < self.channels@.len() && place == place_of(
                self.channels@,
                channel@,
            ) && self.channels@[place as int].name@ == channel@,
    {
        proof {
            use_type_invariant(self);
        }
        let mut i: usize = 0;
        while i < self.channels.len()
            invariant
                i <= self.channels@.len(),
                distinct(self.channels@),
                forall|k: int| 0 <= k < i ==> (#[trigger] self.channels@[k]).name@ != channel@,
            decreases self.channels@.len() - i,
        {
            if self.channels[i].name.as_str().eq(channel) {
                proof {
                    lemma_place_is_unique(self.channels@, channel@, i as int);
                }
                return Some(i);
            }
            i += 1;
        }
        None
    }

    /// The messages of `channel`, or nothing for a name that the mapping
    /// does not know.
    pub fn get(&self, channel: &str) -> (lines: Option<&Vec<String>>)
        ensures
            lines is Some <==> self@.dom().contains(channel@),
            lines matches Some(found) ==> texts(found@) == self@[channel@],
    {
        match self.find(channel) {
            Some(place) => Some(&self.channels[place].lines),
            None => None,
        }
    }

    /// Appends `message` to the messages of `channel`, which becomes known
    /// to the mapping if it was not.
    pub fn append(&mut self, channel: &str, message: String)
        ensures
            final(self)@ == old(self)@.insert(
                channel@,
                history(old(self)@, channel@).push(message@),
            ),
    {
        proof {
            use_type_invariant(&*self);
        }
        let ghost before = self.channels@;
        let found = self.find(channel);
        let mut channels: Vec<ChannelHistory> = Vec::new();
        core::mem::swap(&mut self.channels, &mut channels);
        match found {
            Some(place) => {
                let mut entry = channels.remove(place);
                entry.lines.push(message);
                assert(texts(entry.lines@) =~= texts(before[place as int].lines@).push(message@));
                channels.insert(place, entry);
                proof {
                    lemma_append_to_known(before, channels@, place as int, message@);
                }
            },
            None => {
                let mut lines: Vec<String> = Vec::new();
                lines.push(message);
                assert(texts(lines@) =~= seq![message@]);
                let entry = ChannelHistory { name: channel.to_owned(), lines };
                proof {
                    lemma_append_to_new(before, entry, message@);
                }
                channels.push(entry);
            },
        }
        self.channels = channels;
    }
}

} // verus!
