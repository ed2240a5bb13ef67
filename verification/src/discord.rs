//! What the hub asks of the chat relay.

use crate::model::Player;
use vstd::prelude::*;

pub mod lfp;
pub mod parser;
pub mod pings;
pub mod relay;

verus! {

/// Relay a line of in-game chat.
#[derive(Debug, PartialEq, Eq)]
pub struct SendChat {
    pub channel: String,
    pub sender: Player,
    pub content: String,
}

/// Post a notice in the name of a channel.
#[derive(Debug, PartialEq, Eq)]
pub struct SendSystem {
    pub channel: String,
    pub content: String,
}

/// Announce something to the subscribers of a ping.
#[derive(Debug, PartialEq, Eq)]
pub struct SendPing {
    pub ping: String,
    pub sender_name: String,
    pub sender_icon: Option<String>,
    pub content: String,
}

/// Refresh what the relay shows about a channel.
#[derive(Debug, PartialEq, Eq)]
pub struct UpdateRelayStatus {
    pub channel: String,
    pub game_version: String,
    pub server_ip: Option<String>,
    pub player_count: usize,
}

/// Whether no name stands twice in a list of named details.
pub open spec fn names_distinct(pairs: Seq<(Seq<char>, Seq<char>)>) -> bool {
    forall|i: int, j: int|
        0 <= i < j < pairs.len() ==> (#[trigger] pairs[i]).0 != (#[trigger] pairs[j]).0
}

/// Whether a list of named details has a detail of the given name.
pub open spec fn has_name(pairs: Seq<(Seq<char>, Seq<char>)>, name: Seq<char>) -> bool {
    exists|i: int| 0 <= i < pairs.len() && (#[trigger] pairs[i]).0 == name
}

/// A list of named details after the detail `name` has been set to `value`:
/// in the place of the detail of that name, or at the end if there was none.
pub open spec fn with_field(
    pairs: Seq<(Seq<char>, Seq<char>)>,
    name: Seq<char>,
    value: Seq<char>,
) -> Seq<(Seq<char>, Seq<char>)> {
    if has_name(pairs, name) {
        let at = choose|i: int| 0 <= i < pairs.len() && (#[trigger] pairs[i]).0 == name;
        pairs.update(at, (name, value))
    } else {
        pairs.push((name, value))
    }
}

fn copy_pairs(pairs: &Vec<(String, String)>) -> (copy: Vec<(String, String)>)
    ensures
        copy.deep_view() == pairs.deep_view(),
{
    let mut copy: Vec<(String, String)> = Vec::new();
    let mut i: usize = 0;
    while i < pairs.len()
        invariant
            i <= pairs@.len(),
            copy@.len() == i,
            forall|j: int| 0 <= j < i ==> (#[trigger] copy@[j]).deep_view() == pairs@[j].deep_view(),
        decreases pairs@.len() - i,
    {
        copy.push((pairs[i].0.clone(), pairs[i].1.clone()));
        i += 1;
    }
    assert(copy.deep_view() =~= pairs.deep_view());
    copy
}

/// The named details of a failure. No name stands twice.
#[derive(Debug, PartialEq, Eq)]
pub struct ErrorFields {
    entries: Vec<(String, String)>,
}

impl View for ErrorFields {
    type V = Seq<(Seq<char>, Seq<char>)>;

    /// The details as pairs of name and value, in the order in which their
    /// names were first set.
    closed spec fn view(&self) -> Seq<(Seq<char>, Seq<char>)> {
        self.entries.deep_view()
    }
}

impl DeepView for ErrorFields {
    type V = Seq<(Seq<char>, Seq<char>)>;

    open spec fn deep_view(&self) -> Seq<(Seq<char>, Seq<char>)> {
        self@
    }
}

impl ErrorFields {
    #[verifier::type_invariant]
    spec fn well_formed(self) -> bool {
        names_distinct(self.entries.deep_view())
    }

    /// No details.
    pub fn new() -> (fields: ErrorFields)
        ensures
            fields@ == Seq::<(Seq<char>, Seq<char>)>::empty(),
    {
        let fields = ErrorFields { entries: Vec::new() };
        assert(fields.entries.deep_view() =~= Seq::<(Seq<char>, Seq<char>)>::empty());
        fields
    }

    /// Sets the detail `name` to `value`, in place of an earlier value of
    /// that name.
    pub fn insert(&mut self, name: String, value: String)
        ensures
            final(self)@ == with_field(old(self)@, name@, value@),
            names_distinct(final(self)@),
    {
        proof {
            use_type_invariant(&*self);
        }
        let ghost before = self.entries.deep_view();
        let mut next = copy_pairs(&self.entries);
        let mut i: usize = 0;
        while i < next.len()
            invariant
                i <= next@.len(),
                before == next.deep_view(),
                before == old(self)@,
                names_distinct(before),
                forall|j: int| 0 <= j < i ==> (#[trigger] before[j]).0 != name@,
            decreases next@.len() - i,
        {
            if next[i].0 == name {
                proof {
                    assert(before[i as int].0 == name@);
                    assert(has_name(before, name@));
                    let at = choose|k: int|
                        0 <= k < before.len() && (#[trigger] before[k]).0 == name@;
                    assert(at == i);
                }
                next[i] = (name, value);
                proof {
                    let after = next.deep_view();
                    assert(after =~= before.update(i as int, (name@, value@)));
                    assert forall|a: int, b: int| 0 <= a < b < after.len() implies (
                    #[trigger] after[a]).0 != (#[trigger] after[b]).0 by {
                        assert(after[a].0 == before[a].0);
                        assert(after[b].0 == before[b].0);
                    }
                }
                self.entries = next;
                return ;
            }
            i += 1;
        }
        proof {
            assert(!has_name(before, name@));
        }
        next.push((name, value));
        proof {
            let after = next.deep_view();
            assert(after =~= before.push((name@, value@)));
            assert forall|a: int, b: int| 0 <= a < b < after.len() implies (#[trigger] after[a]).0
                != (#[trigger] after[b]).0 by {
                if b < before.len() {
                    assert(after[a] == before[a]);
                    assert(after[b] == before[b]);
                } else {
                    assert(after[a] == before[a]);
                }
            }
        }
        self.entries = next;
    }

    /// The details as pairs of name and value.
    pub fn entries(&self) -> (entries: &Vec<(String, String)>)
        ensures
            entries.deep_view() == self@,
            names_distinct(self@),
    {
        proof {
            use_type_invariant(self);
        }
        &self.entries
    }
}

/// Report a failure of the backend.
#[derive(Debug, PartialEq, Eq)]
pub struct ReportError {
    pub title: String,
    pub description: String,
    pub fields: Option<ErrorFields>,
}

/// A request to the chat relay.
#[derive(Debug, PartialEq, Eq)]
pub enum DiscordMessage {
    SendChat(SendChat),
    SendSystem(SendSystem),
    UpdateRelayStatus(UpdateRelayStatus),
    ReportError(ReportError),
}

} // verus!
