//! Looking for players: who has registered in which channel, and when the
//! role of the players was last called.

use crate::discord::pings::interval_passed;
use crate::discord::pings::NANOS_PER_MINUTE;
use std::collections::HashMap;
use vstd::prelude::*;

verus! {

broadcast use vstd::std_specs::hash::group_hash_axioms;

/// One user who is looking for players, and the message that says so.
#[derive(Debug, Clone, Copy, PartialEq, Eq, Structural)]
pub struct Registration {
    pub user_id: u64,
    pub message_id: u64,
}

/// A channel in which users register. `W` is what posts in its name.
pub struct Channel<W> {
    pub channel_id: u64,
    pub role_id: u64,
    pub register_message: u64,
    /// The registrations, oldest first.
    pub registrations: Vec<Registration>,
    pub webhook: W,
}

impl<W> Channel<W> {
    /// Notes that `user` is looking for players, as `message` says.
    pub fn add_registration(&mut self, user: u64, message: u64)
        ensures
            final(self).registrations@ == old(self).registrations@.push(
                Registration { user_id: user, message_id: message },
            ),
            final(self).channel_id == old(self).channel_id,
            final(self).role_id == old(self).role_id,
            final(self).register_message == old(self).register_message,
            final(self).webhook == old(self).webhook,
    {
        self.registrations.push(Registration { user_id: user, message_id: message });
    }

    /// Takes out the oldest registration of `user`, if there is one, and
    /// leaves the others in their order.
    pub fn remove_registration(&mut self, user: u64) -> (removed: Option<Registration>)
        ensures
            match removed {
                Some(registration) => exists|i: int|
                    {
                        &&& 0 <= i < old(self).registrations@.len()
                        &&& #[trigger] old(self).registrations@[i] == registration
                        &&& registration.user_id == user
                        &&& forall|j: int| 0 <= j < i ==> old(self).registrations@[j].user_id != user
                        &&& final(self).registrations@ == old(self).registrations@.remove(i)
                    },
                None => {
                    &&& forall|j: int|
                        0 <= j < old(self).registrations@.len()
                            ==> old(self).registrations@[j].user_id != user
                    &&& final(self).registrations@ == old(self).registrations@
                },
            },
            final(self).channel_id == old(self).channel_id,
            final(self).role_id == old(self).role_id,
            final(self).register_message == old(self).register_message,
            final(self).webhook == old(self).webhook,
    {
        let mut i: usize = 0;
        while i < self.registrations.len()
            invariant
                i <= self.registrations@.len(),
                *self == *old(self),
                forall|j: int| 0 <= j < i ==> self.registrations@[j].user_id != user,
            decreases self.registrations@.len() - i,
        {
            if self.registrations[i].user_id == user {
                let registration = self.registrations.remove(i);
                return Some(registration);
            }
            i += 1;
        }
        None
    }
}

/// All channels in which users register, by the number of the channel, and
/// when the role of the players was last called, in nanoseconds since the
/// epoch.
#[verifier::reject_recursive_types(W)]
pub struct Store<W> {
    pub channels: HashMap<u64, Channel<W>>,
    pub last_ping_time: Option<u64>,
}

/// Whether the role may be called at `now`: always when it never was, and
/// otherwise when more than the interval has passed since.
pub open spec fn may_ping(last: Option<u64>, now: u64, interval_minutes: u16) -> bool {
    match last {
        Some(last) => interval_passed(last, now, interval_minutes),
        None => true,
    }
}

impl<W> Store<W> {
    /// Sets up `channel` for registrations, without any, in place of what
    /// was set up for it before.
    pub fn add(&mut self, channel: u64, role: u64, register_message: u64, webhook: W)
        ensures
            final(self).last_ping_time == old(self).last_ping_time,
            final(self).channels@.dom() == old(self).channels@.dom().insert(channel),
            forall|other: u64|
                other != channel && old(self).channels@.contains_key(other)
                    ==> final(self).channels@[other] == old(self).channels@[other],
            ({
                let added = final(self).channels@[channel];
                &&& added.channel_id == channel
                &&& added.role_id == role
                &&& added.register_message == register_message
                &&& added.registrations@ == Seq::<Registration>::empty()
                &&& added.webhook == webhook
            }),
    {
        self.channels.insert(
            channel,
            Channel {
                channel_id: channel,
                role_id: role,
                register_message,
                registrations: Vec::new(),
                webhook,
            },
        );
    }

    /// Decides at the time `now` whether the role of the players is called:
    /// it is when it never was, or when more than the interval has passed
    /// since it last was, and then `now` is when it was last called.
    pub fn try_ping_at(&mut self, interval_minutes: u16, now: u64) -> (pinged: bool)
        ensures
            pinged == may_ping(old(self).last_ping_time, now, interval_minutes),
            final(self).last_ping_time == if pinged {
                Some(now)
            } else {
                old(self).last_ping_time
            },
            final(self).channels == old(self).channels,
    {
        let can_ping = match self.last_ping_time {
            Some(last) => {
                let interval: u64 = interval_minutes as u64 * NANOS_PER_MINUTE;
                now >= last && now - last > interval
            },
            None => true,
        };
        if can_ping {
            self.last_ping_time = Some(now);
            true
        } else {
            false
        }
    }
}

} // verus!
