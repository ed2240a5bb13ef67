use nucleoid_backend::config::{
    default_lfp_ping_interval_minutes, default_ping_interval_minutes, Config, Kickback,
};
use nucleoid_backend::persistent::Persistent;
use nucleoid_backend::statistics::wrapped::{others_met, UnwrappedYear, WrappedYear};

#[test]
fn default_intervals() {
    assert_eq!(default_ping_interval_minutes(), 30);
    assert_eq!(default_lfp_ping_interval_minutes(), 10);
}

#[test]
fn default_config_starts_nothing() {
    let config = Config::default();
    assert!(config.web_server.is_none());
    assert!(config.integrations.is_none());
    assert!(config.discord.is_none());
    assert!(config.database.is_none());
    assert!(config.statistics.is_none());
    assert!(config.kickbacks.is_empty());
}

#[test]
fn kickback_copies_are_equal() {
    let rule = Kickback {
        to_server: "survival".to_string(),
        from_server: "lobby".to_string(),
        proxy_channel: "proxy".to_string(),
    };
    assert_eq!(rule.clone(), rule);
}

#[test]
fn persistent_keeps_what_was_stored_or_starts_from_default() {
    let kept: Persistent<Vec<u32>> = Persistent::open_with("numbers.json".to_string(), None);
    assert_eq!(kept.read(), &Vec::<u32>::new());
    assert_eq!(kept.path(), "numbers.json");
    let mut kept = Persistent::open_with("numbers.json".to_string(), Some(vec![1u32, 2]));
    assert_eq!(kept.read(), &vec![1, 2]);
    kept.get_mut_unchecked().push(3);
    assert_eq!(kept.read(), &vec![1, 2, 3]);
    assert_eq!(kept.len(), 3);
    assert_eq!(kept.iter().sum::<u32>(), 6);
    assert_eq!(kept.path(), "numbers.json");
}

#[test]
fn wrapped_years() {
    assert_eq!(WrappedYear::from_year(2023), Ok(WrappedYear::Y2023));
    assert_eq!(WrappedYear::from_year(2024), Ok(WrappedYear::Y2024));
    assert_eq!(WrappedYear::from_year(2022), Err(UnwrappedYear { year: 2022 }));
    assert_eq!(WrappedYear::from_year(2025), Err(UnwrappedYear { year: 2025 }));
}

#[test]
fn wrapped_date_ranges() {
    assert_eq!(WrappedYear::Y2023.start_date(), "2022-12-31 00:00:00");
    assert_eq!(WrappedYear::Y2023.end_date(), "2023-12-01 00:00:00");
    assert_eq!(WrappedYear::Y2024.start_date(), "2023-12-01 00:00:00");
    assert_eq!(WrappedYear::Y2024.end_date(), "2024-12-21 00:00:00");
    assert_eq!(
        WrappedYear::Y2024.date_range(),
        "(games.date_played < '2024-12-21 00:00:00') AND (games.date_played > '2023-12-01 00:00:00')"
    );
}

#[test]
fn others_met_leaves_out_the_player() {
    assert_eq!(others_met(0), 0);
    assert_eq!(others_met(1), 0);
    assert_eq!(others_met(12), 11);
}
