use nucleoid_backend::discord::lfp::{Channel, Registration, Store as LfpStore};
use nucleoid_backend::discord::pings::{Ping, Store as PingStore, NANOS_PER_MINUTE};
use nucleoid_backend::discord::relay::{ChannelRelay, Store as RelayStore};
use nucleoid_backend::web::{limit_allowed, valid_namespace};
use std::collections::{HashMap, HashSet};

#[test]
fn namespace_holds_letters_digits_and_underscores() {
    assert!(valid_namespace(""));
    assert!(valid_namespace("bed_Wars2"));
    assert!(valid_namespace("azAZ09_"));
    assert!(!valid_namespace("bed wars"));
    assert!(!valid_namespace("bed-wars"));
    assert!(!valid_namespace("x'; DROP TABLE games; --"));
    assert!(!valid_namespace("caf\u{e9}"));
    assert!(!valid_namespace("a`"));
    assert!(!valid_namespace("a{"));
    assert!(!valid_namespace("a@"));
    assert!(!valid_namespace("a["));
    assert!(!valid_namespace("a/"));
    assert!(!valid_namespace("a:"));
}

#[test]
fn limit_is_allowed_up_to_the_maximum() {
    assert!(limit_allowed(0, 50));
    assert!(limit_allowed(50, 50));
    assert!(!limit_allowed(51, 50));
}

fn ping(last: u64) -> Ping<&'static str> {
    Ping {
        discord_channel: 10,
        discord_role: 20,
        webhook: "hook",
        last_ping_time: last,
        allowed_roles: HashSet::new(),
    }
}

#[test]
fn ping_calls_the_role_after_more_than_the_interval() {
    let start = 1_000 * NANOS_PER_MINUTE;
    let mut held = ping(start);
    assert!(!held.try_new_ping_at(30, start));
    assert!(!held.try_new_ping_at(30, start + 30 * NANOS_PER_MINUTE));
    assert_eq!(held.last_ping_time, start);
    assert!(held.try_new_ping_at(30, start + 30 * NANOS_PER_MINUTE + 1));
    assert_eq!(held.last_ping_time, start + 30 * NANOS_PER_MINUTE + 1);
    assert!(!held.try_new_ping_at(30, start + 31 * NANOS_PER_MINUTE));
    assert_eq!(held.discord_channel, 10);
    assert_eq!(held.discord_role, 20);
    assert_eq!(held.webhook, "hook");
}

#[test]
fn ping_is_not_called_when_the_clock_went_back() {
    let mut held = ping(5 * NANOS_PER_MINUTE);
    assert!(!held.try_new_ping_at(0, 4 * NANOS_PER_MINUTE));
    assert_eq!(held.last_ping_time, 5 * NANOS_PER_MINUTE);
    assert!(!held.try_new_ping_at(0, 5 * NANOS_PER_MINUTE));
    assert!(held.try_new_ping_at(0, 5 * NANOS_PER_MINUTE + 1));
}

#[test]
fn ping_interval_of_the_largest_setting_does_not_overflow() {
    let mut held = ping(0);
    assert!(!held.try_new_ping_at(u16::MAX, 65535 * NANOS_PER_MINUTE));
    assert!(held.try_new_ping_at(u16::MAX, 65535 * NANOS_PER_MINUTE + 1));
    let mut late = ping(u64::MAX - NANOS_PER_MINUTE);
    assert!(!late.try_new_ping_at(1, u64::MAX));
    let mut late = ping(u64::MAX - NANOS_PER_MINUTE - 1);
    assert!(late.try_new_ping_at(1, u64::MAX));
    assert_eq!(late.last_ping_time, u64::MAX);
}

#[test]
fn ping_is_found_for_its_own_channel_only() {
    let mut store = PingStore::new();
    assert!(store.ping_for_channel("updates", 10).is_none());
    store.pings.insert("updates".to_string(), ping(0));
    assert_eq!(store.ping_for_channel("updates", 10).map(|p| p.discord_role), Some(20));
    assert!(store.ping_for_channel("updates", 11).is_none());
    assert!(store.ping_for_channel("other", 10).is_none());
}

#[test]
fn players_are_called_at_first_and_then_after_the_interval() {
    let mut store: LfpStore<&'static str> =
        LfpStore { channels: HashMap::new(), last_ping_time: None };
    assert!(store.try_ping_at(10, 7));
    assert_eq!(store.last_ping_time, Some(7));
    assert!(!store.try_ping_at(10, 7 + 10 * NANOS_PER_MINUTE));
    assert_eq!(store.last_ping_time, Some(7));
    assert!(!store.try_ping_at(10, 6));
    assert!(store.try_ping_at(10, 8 + 10 * NANOS_PER_MINUTE));
    assert_eq!(store.last_ping_time, Some(8 + 10 * NANOS_PER_MINUTE));
}

#[test]
fn channel_is_set_up_without_registrations() {
    let mut store: LfpStore<&'static str> =
        LfpStore { channels: HashMap::new(), last_ping_time: Some(3) };
    store.add(1, 2, 3, "hook");
    store.channels.get_mut(&1).unwrap().add_registration(5, 6);
    store.add(9, 8, 7, "other");
    assert_eq!(store.channels.len(), 2);
    assert_eq!(store.channels[&1].registrations.len(), 1);
    store.add(1, 22, 33, "again");
    let channel = &store.channels[&1];
    assert_eq!(channel.channel_id, 1);
    assert_eq!(channel.role_id, 22);
    assert_eq!(channel.register_message, 33);
    assert_eq!(channel.webhook, "again");
    assert!(channel.registrations.is_empty());
    assert_eq!(store.channels[&9].role_id, 8);
    assert_eq!(store.last_ping_time, Some(3));
}

#[test]
fn oldest_registration_of_a_user_is_removed() {
    let mut channel = Channel {
        channel_id: 1,
        role_id: 2,
        register_message: 3,
        registrations: vec![],
        webhook: "hook",
    };
    channel.add_registration(10, 100);
    channel.add_registration(11, 101);
    channel.add_registration(10, 102);
    assert_eq!(
        channel.registrations,
        vec![
            Registration { user_id: 10, message_id: 100 },
            Registration { user_id: 11, message_id: 101 },
            Registration { user_id: 10, message_id: 102 },
        ]
    );
    assert_eq!(channel.remove_registration(12), None);
    assert_eq!(channel.registrations.len(), 3);
    assert_eq!(
        channel.remove_registration(10),
        Some(Registration { user_id: 10, message_id: 100 })
    );
    assert_eq!(
        channel.registrations,
        vec![
            Registration { user_id: 11, message_id: 101 },
            Registration { user_id: 10, message_id: 102 },
        ]
    );
    assert_eq!(
        channel.remove_registration(10),
        Some(Registration { user_id: 10, message_id: 102 })
    );
    assert_eq!(channel.remove_registration(10), None);
    assert_eq!(channel.webhook, "hook");
}

fn relay(discord_channel: u64, webhook: &'static str) -> ChannelRelay<&'static str> {
    ChannelRelay { discord_guild: 1, discord_channel, webhook }
}

#[test]
fn relay_is_found_by_either_channel() {
    let mut store = RelayStore::new();
    assert!(store.relay_for(&"lobby".to_string()).is_none());
    assert!(store.channel_for(7).is_none());
    store.insert_relay("lobby".to_string(), relay(7, "a"));
    store.insert_relay("survival".to_string(), relay(8, "b"));
    assert_eq!(store.relay_for(&"lobby".to_string()).map(|r| r.webhook), Some("a"));
    assert_eq!(store.relay_for(&"survival".to_string()).map(|r| r.discord_channel), Some(8));
    assert_eq!(store.channel_for(7), Some(&"lobby".to_string()));
    assert_eq!(store.channel_for(8), Some(&"survival".to_string()));
    assert!(store.channel_for(9).is_none());
}

#[test]
fn relay_is_removed_by_its_chat_channel() {
    let mut store = RelayStore::new();
    store.insert_relay("lobby".to_string(), relay(7, "a"));
    store.insert_relay("survival".to_string(), relay(8, "b"));
    assert!(store.remove_relay(9).is_none());
    let (channel, removed) = store.remove_relay(7).unwrap();
    assert_eq!(channel, "lobby");
    assert_eq!(removed.webhook, "a");
    assert!(store.relay_for(&"lobby".to_string()).is_none());
    assert!(store.channel_for(7).is_none());
    assert!(store.remove_relay(7).is_none());
    assert_eq!(store.relay_for(&"survival".to_string()).map(|r| r.webhook), Some("b"));
    assert_eq!(store.channel_for(8), Some(&"survival".to_string()));
}

#[test]
fn relay_set_again_replaces_the_earlier_one() {
    let mut store = RelayStore::new();
    store.insert_relay("lobby".to_string(), relay(7, "a"));
    store.insert_relay("lobby".to_string(), relay(8, "b"));
    assert_eq!(store.relay_for(&"lobby".to_string()).map(|r| r.webhook), Some("b"));
    // both chat channels still point at the game channel
    assert_eq!(store.channel_for(7), Some(&"lobby".to_string()));
    assert_eq!(store.channel_for(8), Some(&"lobby".to_string()));
    let (channel, removed) = store.remove_relay(7).unwrap();
    assert_eq!(channel, "lobby");
    assert_eq!(removed.webhook, "b");
    // the game channel has no relay left for the other chat channel
    assert!(store.remove_relay(8).is_none());
    assert!(store.channel_for(8).is_none());
}
