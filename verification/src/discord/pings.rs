//! Pings: announcements that call a role, at most once per interval.

use vstd::hash_map::StringHashMap;
use vstd::prelude::*;

verus! {

/// Nanoseconds in a minute.
pub const NANOS_PER_MINUTE: u64 = 60000000000;

/// Whether more than `interval_minutes` lie between `last` and `now`, both in
/// nanoseconds since the same start. A `now` before `last` is no time at all.
pub open spec fn interval_passed(last: u64, now: u64, interval_minutes: u16) -> bool {
    now >= last && now - last > interval_minutes * NANOS_PER_MINUTE
}

/// A ping of one channel. `W` is what posts in the name of the ping.
pub struct Ping<W> {
    pub discord_channel: u64,
    pub discord_role: u64,
    pub webhook: W,
    /// When the role was last called, in nanoseconds since the epoch.
    pub last_ping_time: u64,
    pub allowed_roles: std::collections::HashSet<u64>,
}

impl<W> Ping<W> {
    /// Decides at the time `now` whether the role is called again: it is
    /// when more than the interval has passed since it was last called, and
    /// then `now` is when it was last called.
    pub fn try_new_ping_at(&mut self, interval_minutes: u16, now: u64) -> (pinged: bool)
        ensures
            pinged == interval_passed(old(self).last_ping_time, now, interval_minutes),
            *final(self) == (Ping {
                last_ping_time: if pinged {
                    now
                } else {
                    old(self).last_ping_time
                },
                ..*old(self)
            }),
    {
        let interval: u64 = interval_minutes as u64 * NANOS_PER_MINUTE;
        if now >= self.last_ping_time && now - self.last_ping_time > interval {
            self.last_ping_time = now;
            true
        } else {
            false
        }
    }
}

/// All pings, by name.
#[verifier::reject_recursive_types(W)]
pub struct Store<W> {
    pub pings: StringHashMap<Ping<W>>,
}

impl<W> Store<W> {
    /// A store without pings.
    pub fn new() -> (store: Self)
        ensures
            store.pings@ == Map::<Seq<char>, Ping<W>>::empty(),
    {
        Store { pings: StringHashMap::new() }
    }

    /// The ping named `ping`, if it belongs to `channel`.
    pub fn ping_for_channel(&self, ping: &str, channel: u64) -> (found: Option<&Ping<W>>)
        ensures
            match found {
                Some(found) => self.pings@.contains_key(ping@) && *found == self.pings@[ping@]
                    && found.discord_channel == channel,
                None => !self.pings@.contains_key(ping@) || self.pings@[ping@].discord_channel
                    != channel,
            },
    {
        match self.pings.get(ping) {
            Some(found) => if found.discord_channel == channel {
                Some(found)
            } else {
                None
            },
            None => None,
        }
    }
}

} // verus!
