//! Relays: which chat channel mirrors which game channel.

use std::collections::HashMap;
use vstd::prelude::*;

verus! {

broadcast use vstd::std_specs::hash::group_hash_axioms;

/// The chat channel that mirrors a game channel. `W` is what posts the chat
/// of the game there.
pub struct ChannelRelay<W> {
    pub discord_guild: u64,
    pub discord_channel: u64,
    pub webhook: W,
}

/// The relays by game channel, and for each chat channel the game channel it
/// was last set to mirror.
#[verifier::reject_recursive_types(W)]
pub struct Store<W> {
    relays: Vec<(String, ChannelRelay<W>)>,
    channels: HashMap<u64, String>,
}

/// Whether no game channel stands twice in a list of relays.
pub open spec fn channels_distinct<W>(entries: Seq<(Seq<char>, ChannelRelay<W>)>) -> bool {
    forall|i: int, j: int|
        0 <= i < j < entries.len() ==> (#[trigger] entries[i]).0 != (#[trigger] entries[j]).0
}

/// The relays of a list by their game channel.
pub open spec fn by_channel<W>(entries: Seq<(Seq<char>, ChannelRelay<W>)>) -> Map<
    Seq<char>,
    ChannelRelay<W>,
> {
    Map::new(
        |channel: Seq<char>|
            exists|i: int| 0 <= i < entries.len() && (#[trigger] entries[i]).0 == channel,
        |channel: Seq<char>|
            entries[choose|i: int|
                0 <= i < entries.len() && (#[trigger] entries[i]).0 == channel].1,
    )
}

proof fn lemma_by_channel<W>(entries: Seq<(Seq<char>, ChannelRelay<W>)>, i: int)
    requires
        channels_distinct(entries),
        0 <= i < entries.len(),
    ensures
        by_channel(entries).contains_key(entries[i].0),
        by_channel(entries)[entries[i].0] == entries[i].1,
{
    let channel = entries[i].0;
    let at = choose|k: int| 0 <= k < entries.len() && (#[trigger] entries[k]).0 == channel;
    assert(at == i);
}

/// A list that holds `(channel, relay)` and otherwise the relays of another
/// list under other channels, holds the relays of that list with the relay
/// of `channel` set.
proof fn lemma_relay_set<W>(
    before: Seq<(Seq<char>, ChannelRelay<W>)>,
    after: Seq<(Seq<char>, ChannelRelay<W>)>,
    at: int,
    channel: Seq<char>,
    relay: ChannelRelay<W>,
)
    requires
        channels_distinct(before),
        channels_distinct(after),
        0 <= at < after.len(),
        after[at] == (channel, relay),
        forall|k: int|
            0 <= k < before.len() && (#[trigger] before[k]).0 != channel ==> 0 <= k < after.len()
                && after[k] == before[k],
        forall|k: int|
            0 <= k < after.len() && (#[trigger] after[k]).0 != channel ==> 0 <= k < before.len()
                && before[k] == after[k],
    ensures
        by_channel(after) == by_channel(before).insert(channel, relay),
{
    let new = by_channel(after);
    let old = by_channel(before).insert(channel, relay);
    lemma_by_channel(after, at);
    assert forall|x: Seq<char>| new.contains_key(x) == old.contains_key(x) by {
        if x != channel {
            if new.contains_key(x) {
                let k = choose|k: int| 0 <= k < after.len() && (#[trigger] after[k]).0 == x;
                assert(before[k].0 == x);
            }
            if by_channel(before).contains_key(x) {
                let k = choose|k: int| 0 <= k < before.len() && (#[trigger] before[k]).0 == x;
                assert(after[k].0 == x);
            }
        }
    }
    assert forall|x: Seq<char>| new.contains_key(x) implies new[x] == old[x] by {
        if x != channel {
            let k = choose|k: int| 0 <= k < after.len() && (#[trigger] after[k]).0 == x;
            lemma_by_channel(after, k);
            lemma_by_channel(before, k);
        }
    }
    assert(new =~= old);
}

/// A list without one of its relays holds the relays of the other channels.
proof fn lemma_relay_removed<W>(before: Seq<(Seq<char>, ChannelRelay<W>)>, at: int)
    requires
        channels_distinct(before),
        0 <= at < before.len(),
    ensures
        channels_distinct(before.remove(at)),
        by_channel(before.remove(at)) == by_channel(before).remove(before[at].0),
{
    let after = before.remove(at);
    let channel = before[at].0;
    assert forall|a: int, b: int| 0 <= a < b < after.len() implies (#[trigger] after[a]).0 != (
    #[trigger] after[b]).0 by {
        let a0 = if a < at { a } else { a + 1 };
        let b0 = if b < at { b } else { b + 1 };
        assert(after[a] == before[a0]);
        assert(after[b] == before[b0]);
    }
    let new = by_channel(after);
    let old = by_channel(before).remove(channel);
    assert forall|x: Seq<char>| new.contains_key(x) == old.contains_key(x) by {
        if new.contains_key(x) {
            let k = choose|k: int| 0 <= k < after.len() && (#[trigger] after[k]).0 == x;
            let k0 = if k < at { k } else { k + 1 };
            assert(before[k0] == after[k]);
            assert(before[k0].0 == x);
            assert(k0 != at);
        }
        if old.contains_key(x) {
            let k0 = choose|k: int| 0 <= k < before.len() && (#[trigger] before[k]).0 == x;
            assert(k0 != at);
            let k = if k0 < at { k0 } else { k0 - 1 };
            assert(after[k] == before[k0]);
            assert(after[k].0 == x);
        }
    }
    assert forall|x: Seq<char>| new.contains_key(x) implies new[x] == old[x] by {
        let k = choose|k: int| 0 <= k < after.len() && (#[trigger] after[k]).0 == x;
        let k0 = if k < at { k } else { k + 1 };
        assert(before[k0] == after[k]);
        lemma_by_channel(after, k);
        lemma_by_channel(before, k0);
    }
    assert(new =~= old);
}

impl<W> Store<W> {
    closed spec fn entries(&self) -> Seq<(Seq<char>, ChannelRelay<W>)> {
        Seq::new(self.relays@.len(), |i: int| (self.relays@[i].0@, self.relays@[i].1))
    }

    /// Whether the store is in order: no game channel has two relays.
    pub closed spec fn well_formed(&self) -> bool {
        channels_distinct(self.entries())
    }

    /// The relay of each game channel that has one.
    pub closed spec fn channel_to_relay(&self) -> Map<Seq<char>, ChannelRelay<W>> {
        by_channel(self.entries())
    }

    /// The game channel that each chat channel was last set to mirror.
    pub closed spec fn discord_to_channel(&self) -> Map<u64, Seq<char>> {
        self.channels@.map_values(|channel: String| channel@)
    }

    /// A store without relays.
    pub fn new() -> (store: Self)
        ensures
            store.well_formed(),
            store.channel_to_relay() == Map::<Seq<char>, ChannelRelay<W>>::empty(),
            store.discord_to_channel() == Map::<u64, Seq<char>>::empty(),
    {
        let store = Store { relays: Vec::new(), channels: HashMap::new() };
        assert(store.channel_to_relay() =~= Map::<Seq<char>, ChannelRelay<W>>::empty());
        assert(store.discord_to_channel() =~= Map::<u64, Seq<char>>::empty());
        store
    }

    /// The relay of the game channel `channel`, if it has one.
    pub fn relay_for(&self, channel: &String) -> (relay: Option<&ChannelRelay<W>>)
        requires
            self.well_formed(),
        ensures
            match relay {
                Some(relay) => self.channel_to_relay().contains_key(channel@) && *relay
                    == self.channel_to_relay()[channel@],
                None => !self.channel_to_relay().contains_key(channel@),
            },
    {
        let mut i: usize = 0;
        while i < self.relays.len()
            invariant
                i <= self.relays@.len(),
                self.well_formed(),
                forall|j: int| 0 <= j < i ==> (#[trigger] self.entries()[j]).0 != channel@,
            decreases self.relays@.len() - i,
        {
            if self.relays[i].0 == *channel {
                proof {
                    lemma_by_channel(self.entries(), i as int);
                }
                return Some(&self.relays[i].1);
            }
            i += 1;
        }
        None
    }

    /// The game channel that the chat channel `discord` was last set to
    /// mirror, if any.
    pub fn channel_for(&self, discord: u64) -> (channel: Option<&String>)
        ensures
            match channel {
                Some(channel) => self.discord_to_channel().contains_key(discord)
                    && self.discord_to_channel()[discord] == channel@,
                None => !self.discord_to_channel().contains_key(discord),
            },
    {
        self.channels.get(&discord)
    }

    /// Sets the relay of the game channel `channel`, in place of an earlier
    /// one, and notes the game channel for the chat channel of the relay.
    pub fn insert_relay(&mut self, channel: String, relay: ChannelRelay<W>)
        requires
            old(self).well_formed(),
        ensures
            final(self).well_formed(),
            final(self).channel_to_relay() == old(self).channel_to_relay().insert(channel@, relay),
            final(self).discord_to_channel() == old(self).discord_to_channel().insert(
                relay.discord_channel,
                channel@,
            ),
    {
        let ghost before = self.entries();
        self.channels.insert(relay.discord_channel, channel.clone());
        let ghost noted = old(self).discord_to_channel().insert(relay.discord_channel, channel@);
        assert(self.discord_to_channel() =~= noted);
        let ghost held = self.channels;
        let mut i: usize = 0;
        while i < self.relays.len()
            invariant
                i <= self.relays@.len(),
                self.relays == old(self).relays,
                self.discord_to_channel() == noted,
                noted == old(self).discord_to_channel().insert(relay.discord_channel, channel@),
                self.channels == held,
                before == self.entries(),
                before == old(self).entries(),
                channels_distinct(before),
                forall|j: int| 0 <= j < i ==> (#[trigger] before[j]).0 != channel@,
            decreases self.relays@.len() - i,
        {
            if self.relays[i].0 == channel {
                self.relays[i] = (channel, relay);
                proof {
                    assert(self.channels == held);
                    assert(self.discord_to_channel() == noted);
                    let after = self.entries();
                    assert(after =~= before.update(i as int, (channel@, relay)));
                    assert forall|a: int, b: int| 0 <= a < b < after.len() implies (
                    #[trigger] after[a]).0 != (#[trigger] after[b]).0 by {
                        assert(after[a].0 == before[a].0);
                        assert(after[b].0 == before[b].0);
                    }
                    lemma_relay_set(before, after, i as int, channel@, relay);
                }
                return ;
            }
            i += 1;
        }
        self.relays.push((channel, relay));
        proof {
            let after = self.entries();
            assert(after =~= before.push((channel@, relay)));
            assert forall|a: int, b: int| 0 <= a < b < after.len() implies (#[trigger] after[a]).0
                != (#[trigger] after[b]).0 by {
                assert(after[a] == before[a]);
                if b < before.len() {
                    assert(after[b] == before[b]);
                }
            }
            lemma_relay_set(before, after, before.len() as int, channel@, relay);
        }
    }

    /// Forgets which game channel the chat channel `discord` mirrors, and
    /// takes out the relay of that game channel. The answer is the game
    /// channel with its relay; there is none where the chat channel
    /// mirrored nothing, or the game channel had no relay left.
    pub fn remove_relay(&mut self, discord: u64) -> (removed: Option<(String, ChannelRelay<W>)>)
        requires
            old(self).well_formed(),
        ensures
            final(self).well_formed(),
            final(self).discord_to_channel() == old(self).discord_to_channel().remove(discord),
            match old(self).discord_to_channel().get(discord) {
                None => removed is None && final(self).channel_to_relay() == old(self).channel_to_relay(),
                Some(channel) => final(self).channel_to_relay() == old(self).channel_to_relay().remove(channel) && match removed {
                    Some((name, relay)) => name@ == channel && old(self).channel_to_relay().contains_key(channel) && relay == old(self).channel_to_relay()[channel],
                    None => !old(self).channel_to_relay().contains_key(channel),
                },
            },
    {
        let ghost before = self.entries();
        let found = self.channels.remove(&discord);
        assert(self.discord_to_channel() =~= old(self).discord_to_channel().remove(discord));
        let ghost forgotten = self.discord_to_channel();
        let ghost held = self.channels;
        match found {
            None => None,
            Some(channel) => {
                assert(old(self).discord_to_channel()[discord] == channel@);
                let mut i: usize = 0;
                while i < self.relays.len()
                    invariant
                        i <= self.relays@.len(),
                        self.relays == old(self).relays,
                        self.channels == held,
                        self.discord_to_channel() == forgotten,
                        forgotten == old(self).discord_to_channel().remove(discord),
                        old(self).discord_to_channel().get(discord) == Some(channel@),
                        before == self.entries(),
                        before == old(self).entries(),
                        channels_distinct(before),
                        forall|j: int| 0 <= j < i ==> (#[trigger] before[j]).0 != channel@,
                    decreases self.relays@.len() - i,
                {
                    if self.relays[i].0 == channel {
                        let (_, relay) = self.relays.remove(i);
                        proof {
                            assert(self.channels == held);
                            assert(self.discord_to_channel() == forgotten);
                            assert(self.entries() =~= before.remove(i as int));
                            lemma_by_channel(before, i as int);
                            lemma_relay_removed(before, i as int);
                        }
                        return Some((channel, relay));
                    }
                    i += 1;
                }
                proof {
                    assert(!by_channel(before).contains_key(channel@));
                    assert(by_channel(before).remove(channel@) =~= by_channel(before));
                }
                None
            },
        }
    }
}

} // verus!
