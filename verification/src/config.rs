//! Settings of the hub.

use vstd::hash_map::StringHashMap;
use vstd::prelude::*;

verus! {

/// Settings of the chat relay.
#[derive(Debug, PartialEq, Eq)]
pub struct DiscordConfig {
    pub token: String,
    pub ping_interval_minutes: u16,
    pub lfp_ping_interval_minutes: u16,
    pub relay_channel_topic: bool,
    pub player_avatar_url: Option<String>,
    pub error_webhook: Option<ErrorWebhookConfig>,
}

/// Minutes between two pings of one kind, where the settings name none.
pub fn default_ping_interval_minutes() -> (minutes: u16)
    ensures
        minutes == 30,
{
    30
}

/// Minutes between two calls for players, where the settings name none.
pub fn default_lfp_ping_interval_minutes() -> (minutes: u16)
    ensures
        minutes == 10,
{
    10
}

/// Where failures of the backend are reported.
#[derive(Debug, PartialEq, Eq)]
pub struct ErrorWebhookConfig {
    pub id: u64,
    pub token: String,
}

/// Settings of the HTTP interface.
#[derive(Debug, Clone, Copy, PartialEq, Eq, Structural)]
pub struct WebServerConfig {
    pub port: u16,
    pub max_query_size: u32,
}

/// Settings of the listener for game servers.
#[derive(Debug, Clone, Copy, PartialEq, Eq, Structural)]
pub struct IntegrationsConfig {
    pub port: u16,
}

/// Where the database is and how to log in.
#[derive(Debug, PartialEq, Eq)]
pub struct DatabaseConfig {
    pub host: String,
    pub port: u16,
    pub database: String,
    pub user: String,
    pub password: String,
}

/// A rule that, when a server has started, has a proxy move the players of
/// one server to another.
#[derive(Debug, PartialEq, Eq)]
pub struct Kickback {
    pub to_server: String,
    pub from_server: String,
    /// The channel of the proxy that moves the players.
    pub proxy_channel: String,
}

impl Clone for Kickback {
    fn clone(&self) -> (copy: Kickback)
        ensures
            copy == *self,
    {
        Kickback {
            to_server: self.to_server.clone(),
            from_server: self.from_server.clone(),
            proxy_channel: self.proxy_channel.clone(),
        }
    }
}

/// Settings of the statistics service.
#[derive(Debug, PartialEq, Eq)]
pub struct StatisticsConfig {
    pub database_url: String,
    pub database_name: String,
    /// Directory of the leaderboard definitions.
    pub leaderboards_dir: Option<String>,
}

/// All settings. A part that is absent is a part of the hub that is not started.
pub struct Config {
    pub web_server: Option<WebServerConfig>,
    pub integrations: Option<IntegrationsConfig>,
    pub discord: Option<DiscordConfig>,
    pub database: Option<DatabaseConfig>,
    /// The kickback rules, by the channel whose start sets them off.
    pub kickbacks: StringHashMap<Kickback>,
    pub statistics: Option<StatisticsConfig>,
}

impl Default for Config {
    /// Settings under which no part of the hub is started and no rule is set.
    fn default() -> (config: Config)
        ensures
            config.web_server is None,
            config.integrations is None,
            config.discord is None,
            config.database is None,
            config.statistics is None,
            config.kickbacks@ == Map::<Seq<char>, Kickback>::empty(),
    {
        Config {
            web_server: None,
            integrations: None,
            discord: None,
            database: None,
            kickbacks: StringHashMap::new(),
            statistics: None,
        }
    }
}

} // verus!
