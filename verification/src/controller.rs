//! The controller: the one owner of what the hub knows about its channels.
//!
//! The controller takes one message at a time. A message may change what the
//! controller holds, and it may call for requests to the chat relay, the
//! database writer, the statistics service or the client of a channel. The
//! controller sends nothing itself: every handler returns the requests to
//! deliver, in the order in which they are to go out.

use crate::config::{Config, Kickback};
use crate::database::{now, DatabaseMessage, WritePerformance, WriteStatus};
use crate::discord::{
    DiscordMessage, ErrorFields, ReportError, SendChat, SendSystem, UpdateRelayStatus,
};
use crate::integrations::{OutgoingMessage, OutgoingMessageView};
use crate::json::{json_of, Json};
use crate::model::{
    clone_games, clone_players, clone_text, ChatMessage, Game, GameView, Player, PlayerView,
    ServerPerformance, ServerPerformanceView, ServerStatus, ServerStatusView, ServerType,
};
use crate::statistics::database::UploadStatsBundle;
use vstd::hash_map::StringHashMap;
use vstd::prelude::*;
use vstd::string::StringExecFns;

verus! {

/// A game server has connected under `channel`; `client` reaches it.
pub struct RegisterIntegrationsClient<C> {
    pub channel: String,
    pub game_version: String,
    pub server_ip: Option<String>,
    pub client: C,
}

/// The connection of `channel` is gone.
#[derive(Debug, PartialEq, Eq)]
pub struct UnregisterIntegrationsClient {
    pub channel: String,
}

/// The chat relay is up; `client` reaches it.
pub struct RegisterDiscordClient<D> {
    pub client: D,
}

/// The chat relay is gone.
#[derive(Debug, Clone, Copy, PartialEq, Eq, Structural)]
pub struct UnregisterDiscordClient;

/// The database writer is up; `client` reaches it.
pub struct RegisterDatabaseClient<B> {
    pub client: B,
}

/// The statistics service is up; `controller` reaches it.
pub struct RegisterStatisticsDatabaseController<S> {
    pub controller: S,
}

/// Ask for the statistics service.
#[derive(Debug, Clone, Copy, PartialEq, Eq, Structural)]
pub struct GetStatisticsDatabaseController;

/// A player said something on a server.
#[derive(Debug, PartialEq, Eq)]
pub struct IncomingChat {
    pub channel: String,
    pub sender: Player,
    pub content: String,
}

/// Something was said to a server from outside.
#[derive(Debug, PartialEq, Eq)]
pub struct OutgoingChat {
    pub channel: String,
    pub chat: ChatMessage,
}

/// Someone outside runs a command on a server.
#[derive(Debug, PartialEq, Eq)]
pub struct OutgoingCommand {
    pub channel: String,
    pub sender: String,
    pub command: String,
    pub roles: Vec<String>,
    pub silent: bool,
}

/// A player is to be moved to another server. `channel` is meant to be that
/// of a proxy; the controller does not check that it is.
#[derive(Debug, PartialEq, Eq)]
pub struct OutgoingServerChange {
    pub channel: String,
    pub player: String,
    pub target_server: String,
}

/// A server reports its games, its players or both.
#[derive(Debug, PartialEq, Eq)]
pub struct StatusUpdate {
    pub channel: String,
    pub games: Option<Vec<Game>>,
    pub players: Option<Vec<Player>>,
}

/// A server reports how it is doing.
#[derive(Debug, PartialEq, Eq)]
pub struct PerformanceUpdate {
    pub channel: String,
    pub performance: ServerPerformance,
}

/// A server has started.
#[derive(Debug, PartialEq, Eq)]
pub struct ServerLifecycleStart {
    pub channel: String,
    pub server_type: ServerType,
}

/// A server has stopped, or crashed.
#[derive(Debug, PartialEq, Eq)]
pub struct ServerLifecycleStop {
    pub channel: String,
    pub crash: bool,
    pub server_type: ServerType,
}

/// A server has a notice for the chat relay.
#[derive(Debug, PartialEq, Eq)]
pub struct ServerSystemMessage {
    pub channel: String,
    pub content: String,
}

/// Ask for the status of a channel.
#[derive(Debug, PartialEq, Eq)]
pub struct GetStatus(pub String);

/// Some part of the backend failed.
#[derive(Debug, PartialEq, Eq)]
pub struct BackendError {
    pub title: String,
    pub description: String,
    pub fields: Option<ErrorFields>,
}

/// A request that the controller wants delivered.
#[derive(Debug, PartialEq, Eq)]
pub enum Outbound {
    /// To the chat relay.
    Discord(DiscordMessage),
    /// To the database writer.
    Database(DatabaseMessage),
    /// To the statistics service.
    Statistics(UploadStatsBundle),
    /// To the client registered under `channel`.
    Client { channel: String, message: OutgoingMessage },
}

/// Mathematical value of an [`Outbound`].
pub enum OutboundView {
    SendChat { channel: Seq<char>, sender: PlayerView, content: Seq<char> },
    SendSystem { channel: Seq<char>, content: Seq<char> },
    UpdateRelayStatus {
        channel: Seq<char>,
        game_version: Seq<char>,
        server_ip: Option<Seq<char>>,
        player_count: nat,
    },
    ReportError {
        title: Seq<char>,
        description: Seq<char>,
        /// The details by name and value; no name stands twice.
        fields: Option<Seq<(Seq<char>, Seq<char>)>>,
    },
    WriteStatus { channel: Seq<char>, time: std::time::SystemTime, status: ServerStatusView },
    WritePerformance {
        channel: Seq<char>,
        time: std::time::SystemTime,
        performance: ServerPerformanceView,
    },
    UploadStatsBundle { game_id: u128, server: Seq<char>, bundle: Json },
    Client { channel: Seq<char>, message: OutgoingMessageView },
}

impl View for Outbound {
    type V = OutboundView;

    open spec fn view(&self) -> OutboundView {
        match *self {
            Outbound::Discord(DiscordMessage::SendChat(m)) => OutboundView::SendChat {
                channel: m.channel@,
                sender: m.sender@,
                content: m.content@,
            },
            Outbound::Discord(DiscordMessage::SendSystem(m)) => OutboundView::SendSystem {
                channel: m.channel@,
                content: m.content@,
            },
            Outbound::Discord(DiscordMessage::UpdateRelayStatus(m)) => {
                OutboundView::UpdateRelayStatus {
                    channel: m.channel@,
                    game_version: m.game_version@,
                    server_ip: m.server_ip.deep_view(),
                    player_count: m.player_count as nat,
                }
            },
            Outbound::Discord(DiscordMessage::ReportError(m)) => OutboundView::ReportError {
                title: m.title@,
                description: m.description@,
                fields: m.fields.deep_view(),
            },
            Outbound::Database(DatabaseMessage::WriteStatus(m)) => OutboundView::WriteStatus {
                channel: m.channel@,
                time: m.time,
                status: m.status@,
            },
            Outbound::Database(DatabaseMessage::WritePerformance(m)) => {
                OutboundView::WritePerformance {
                    channel: m.channel@,
                    time: m.time,
                    performance: m.performance@,
                }
            },
            Outbound::Statistics(m) => OutboundView::UploadStatsBundle {
                game_id: m.game_id,
                server: m.server@,
                bundle: json_of(m.bundle),
            },
            Outbound::Client { channel, message } => OutboundView::Client {
                channel: channel@,
                message: message@,
            },
        }
    }
}

impl DeepView for Outbound {
    type V = OutboundView;

    open spec fn deep_view(&self) -> OutboundView {
        self@
    }
}

/// Who is being talked about in a notice: a server, or the proxy.
pub open spec fn subject_of(server_type: ServerType) -> Seq<char> {
    match server_type {
        ServerType::Minecraft => "Server"@,
        ServerType::Velocity => "Proxy"@,
    }
}

/// The notice that a server of the given kind has started.
pub open spec fn started_notice(server_type: ServerType) -> Seq<char> {
    subject_of(server_type) + " has started!"@
}

/// The notice that a server of the given kind has stopped, or has crashed.
pub open spec fn stopped_notice(server_type: ServerType, crash: bool) -> Seq<char> {
    if crash {
        subject_of(server_type) + " has crashed!"@
    } else {
        subject_of(server_type) + " has stopped!"@
    }
}

/// What the controller holds.
pub struct ControllerView<C, D, B, S> {
    /// The kickback rules, by the channel whose start sets them off.
    pub kickbacks: Map<Seq<char>, Kickback>,
    /// The clients of the channels that are connected.
    pub clients: Map<Seq<char>, C>,
    /// The last known status of each channel that has one.
    pub status: Map<Seq<char>, ServerStatusView>,
    pub discord: Option<D>,
    pub database: Option<B>,
    pub statistics: Option<S>,
}

impl<C, D, B, S> ControllerView<C, D, B, S> {
    /// A controller that has seen no message.
    pub open spec fn initial(kickbacks: Map<Seq<char>, Kickback>) -> Self {
        ControllerView {
            kickbacks,
            clients: Map::empty(),
            status: Map::empty(),
            discord: None,
            database: None,
            statistics: None,
        }
    }

    /// The status of `channel`, if it has one.
    pub open spec fn status_of(self, channel: Seq<char>) -> Option<ServerStatusView> {
        if self.status.contains_key(channel) {
            Some(self.status[channel])
        } else {
            None
        }
    }

    /// The status of `channel`, or the empty status if it has none.
    pub open spec fn status_or_empty(self, channel: Seq<char>) -> ServerStatusView {
        match self.status_of(channel) {
            Some(status) => status,
            None => ServerStatusView::empty(),
        }
    }

    /// After a client has registered: the client stands for the channel, and
    /// the status of the channel names the version and address given, with
    /// the games and players it had before, or none.
    pub open spec fn register(
        self,
        channel: Seq<char>,
        game_version: Seq<char>,
        server_ip: Option<Seq<char>>,
        client: C,
    ) -> Self {
        ControllerView {
            clients: self.clients.insert(channel, client),
            status: self.status.insert(
                channel,
                ServerStatusView { game_version, server_ip, ..self.status_or_empty(channel) },
            ),
            ..self
        }
    }

    /// After a client has unregistered: no client stands for the channel.
    pub open spec fn unregister(self, channel: Seq<char>) -> Self {
        ControllerView { clients: self.clients.remove(channel), ..self }
    }

    /// After a status update: each of games and players that the update
    /// names replaces what the status of the channel held.
    pub open spec fn update_status(
        self,
        channel: Seq<char>,
        games: Option<Seq<GameView>>,
        players: Option<Seq<PlayerView>>,
    ) -> Self {
        let before = self.status_or_empty(channel);
        ControllerView {
            status: self.status.insert(
                channel,
                ServerStatusView {
                    games: match games {
                        Some(games) => games,
                        None => before.games,
                    },
                    players: match players {
                        Some(players) => players,
                        None => before.players,
                    },
                    ..before
                },
            ),
            ..self
        }
    }

    /// After a server has stopped: the channel has no status.
    pub open spec fn stop(self, channel: Seq<char>) -> Self {
        ControllerView { status: self.status.remove(channel), ..self }
    }

    /// `delivery`, if the chat relay is registered.
    pub open spec fn to_discord(self, delivery: OutboundView) -> Seq<OutboundView> {
        if self.discord is Some {
            seq![delivery]
        } else {
            Seq::empty()
        }
    }

    /// `delivery`, if the database writer is registered.
    pub open spec fn to_database(self, delivery: OutboundView) -> Seq<OutboundView> {
        if self.database is Some {
            seq![delivery]
        } else {
            Seq::empty()
        }
    }

    /// `message` for the client of `channel`, if the channel is connected.
    pub open spec fn to_client(self, channel: Seq<char>, message: OutgoingMessageView) -> Seq<
        OutboundView,
    > {
        if self.clients.contains_key(channel) {
            seq![OutboundView::Client { channel, message }]
        } else {
            Seq::empty()
        }
    }

    /// What goes out after the status of `channel` has been updated: the
    /// figures for the chat relay, then the whole status for the database.
    pub open spec fn status_deliveries(
        self,
        channel: Seq<char>,
        time: std::time::SystemTime,
    ) -> Seq<OutboundView> {
        let status = self.status_or_empty(channel);
        self.to_discord(
            OutboundView::UpdateRelayStatus {
                channel,
                game_version: status.game_version,
                server_ip: status.server_ip,
                player_count: status.players.len(),
            },
        ) + self.to_database(OutboundView::WriteStatus { channel, time, status })
    }

    /// What goes out for a performance sample of `channel` taken at `time`.
    pub open spec fn performance_deliveries(
        self,
        channel: Seq<char>,
        time: std::time::SystemTime,
        performance: ServerPerformanceView,
    ) -> Seq<OutboundView> {
        self.to_database(OutboundView::WritePerformance { channel, time, performance })
    }

    /// What goes out when `channel` has started: the notice for the chat
    /// relay, then, if a kickback rule names the channel and the proxy of the
    /// rule is connected, the order to move the players.
    pub open spec fn start_deliveries(self, channel: Seq<char>, server_type: ServerType) -> Seq<
        OutboundView,
    > {
        self.to_discord(
            OutboundView::SendSystem { channel, content: started_notice(server_type) },
        ) + if self.kickbacks.contains_key(channel) {
            let rule = self.kickbacks[channel];
            self.to_client(
                rule.proxy_channel@,
                OutgoingMessageView::SendServerToServer {
                    from_server: rule.from_server@,
                    to_server: rule.to_server@,
                },
            )
        } else {
            Seq::empty()
        }
    }
}

/// The single owner of the state of all channels.
///
/// `C` is what reaches the client of a channel, `D` the chat relay, `B` the
/// database writer and `S` the statistics service. The controller keeps these
/// and hands them out; it never uses them.
#[verifier::reject_recursive_types(C)]
pub struct Controller<C, D, B, S> {
    config: Config,
    discord: Option<D>,
    database: Option<B>,
    statistics: Option<S>,
    integration_clients: StringHashMap<C>,
    status_by_channel: StringHashMap<ServerStatus>,
}

impl<C, D, B, S> View for Controller<C, D, B, S> {
    type V = ControllerView<C, D, B, S>;

    closed spec fn view(&self) -> ControllerView<C, D, B, S> {
        ControllerView {
            kickbacks: self.config.kickbacks@,
            clients: self.integration_clients@,
            status: self.status_by_channel@.map_values(|status: ServerStatus| status@),
            discord: self.discord,
            database: self.database,
            statistics: self.statistics,
        }
    }
}


fn subject(server_type: ServerType) -> (text: String)
    ensures
        text@ == subject_of(server_type),
{
    match server_type {
        ServerType::Minecraft => "Server".to_owned(),
        ServerType::Velocity => "Proxy".to_owned(),
    }
}

impl<C, D, B, S> Controller<C, D, B, S> {
    /// A controller that knows the kickback rules of `config` and nothing else.
    pub fn new(config: Config) -> (controller: Self)
        ensures
            controller@ == ControllerView::<C, D, B, S>::initial(config.kickbacks@),
    {
        let controller = Controller {
            config,
            discord: None,
            database: None,
            statistics: None,
            integration_clients: StringHashMap::new(),
            status_by_channel: StringHashMap::new(),
        };
        assert(controller@.status =~= Map::empty());
        controller
    }

    /// What reaches the client of `channel`, if the channel is connected.
    pub fn client(&self, channel: &str) -> (client: Option<&C>)
        ensures
            match client {
                Some(client) => self@.clients.contains_key(channel@) && *client
                    == self@.clients[channel@],
                None => !self@.clients.contains_key(channel@),
            },
    {
        self.integration_clients.get(channel)
    }

    /// What reaches the chat relay, if it is registered.
    pub fn discord(&self) -> (discord: Option<&D>)
        ensures
            match discord {
                Some(discord) => self@.discord == Some(*discord),
                None => self@.discord is None,
            },
    {
        self.discord.as_ref()
    }

    /// What reaches the database writer, if it is registered.
    pub fn database(&self) -> (database: Option<&B>)
        ensures
            match database {
                Some(database) => self@.database == Some(*database),
                None => self@.database is None,
            },
    {
        self.database.as_ref()
    }

    /// Takes in a client: it stands for its channel from now on, in place of
    /// an earlier client of that channel. The status of the channel is set up
    /// if there was none, and names the version and address of the message;
    /// games and players of an earlier status stay.
    pub fn register_integrations_client(&mut self, message: RegisterIntegrationsClient<C>)
        ensures
            final(self)@ == old(self)@.register(
                message.channel@,
                message.game_version@,
                message.server_ip.deep_view(),
                message.client,
            ),
    {
        let (games, players) = match self.status_by_channel.get(message.channel.as_str()) {
            Some(status) => (clone_games(&status.games), clone_players(&status.players)),
            None => (Vec::new(), Vec::new()),
        };
        let status = ServerStatus {
            game_version: message.game_version,
            server_ip: message.server_ip,
            games,
            players,
        };
        proof {
            let before = old(self)@.status_or_empty(message.channel@);
            assert(status.games.deep_view() =~= before.games);
            assert(status.players.deep_view() =~= before.players);
        }
        self.integration_clients.insert(message.channel.clone(), message.client);
        self.status_by_channel.insert(message.channel, status);
        assert(final(self)@.status =~= old(self)@.register(
            message.channel@,
            message.game_version@,
            message.server_ip.deep_view(),
            message.client,
        ).status);
    }

    /// Drops the client of a channel. The status of the channel stays.
    pub fn unregister_integrations_client(&mut self, message: UnregisterIntegrationsClient)
        ensures
            final(self)@ == old(self)@.unregister(message.channel@),
    {
        self.integration_clients.remove(message.channel.as_str());
    }

    /// Takes in the chat relay, in place of an earlier one.
    pub fn register_discord_client(&mut self, message: RegisterDiscordClient<D>)
        ensures
            final(self)@ == (ControllerView { discord: Some(message.client), ..old(self)@ }),
    {
        self.discord = Some(message.client);
    }

    /// Drops the chat relay.
    pub fn unregister_discord_client(&mut self, message: UnregisterDiscordClient)
        ensures
            final(self)@ == (ControllerView { discord: None, ..old(self)@ }),
    {
        self.discord = None;
    }

    /// Takes in the database writer, in place of an earlier one.
    pub fn register_database_client(&mut self, message: RegisterDatabaseClient<B>)
        ensures
            final(self)@ == (ControllerView { database: Some(message.client), ..old(self)@ }),
    {
        self.database = Some(message.client);
    }

    /// Takes in the statistics service, in place of an earlier one.
    pub fn register_statistics_database_controller(
        &mut self,
        message: RegisterStatisticsDatabaseController<S>,
    )
        ensures
            final(self)@ == (ControllerView {
                statistics: Some(message.controller),
                ..old(self)@
            }),
    {
        self.statistics = Some(message.controller);
    }

    /// What reaches the statistics service, if it is registered.
    pub fn get_statistics_database_controller(
        &self,
        message: GetStatisticsDatabaseController,
    ) -> (statistics: Option<&S>)
        ensures
            match statistics {
                Some(statistics) => self@.statistics == Some(*statistics),
                None => self@.statistics is None,
            },
    {
        self.statistics.as_ref()
    }

    /// Chat from a server goes to the chat relay, if there is one.
    pub fn incoming_chat(&self, message: IncomingChat) -> (deliveries: Vec<Outbound>)
        ensures
            deliveries.deep_view() == self@.to_discord(
                OutboundView::SendChat {
                    channel: message.channel@,
                    sender: message.sender@,
                    content: message.content@,
                },
            ),
    {
        let mut deliveries: Vec<Outbound> = Vec::new();
        if self.discord.is_some() {
            deliveries.push(
                Outbound::Discord(
                    DiscordMessage::SendChat(
                        SendChat {
                            channel: message.channel,
                            sender: message.sender,
                            content: message.content,
                        },
                    ),
                ),
            );
        }
        assert(deliveries.deep_view() =~= self@.to_discord(
            OutboundView::SendChat {
                channel: message.channel@,
                sender: message.sender@,
                content: message.content@,
            },
        ));
        deliveries
    }

    /// Chat for a server goes to the client of its channel, and nowhere if
    /// the channel is not connected.
    pub fn outgoing_chat(&self, message: OutgoingChat) -> (deliveries: Vec<Outbound>)
        ensures
            deliveries.deep_view() == self@.to_client(
                message.channel@,
                OutgoingMessageView::Chat(message.chat@),
            ),
    {
        let mut deliveries: Vec<Outbound> = Vec::new();
        if self.integration_clients.contains_key(message.channel.as_str()) {
            deliveries.push(
                Outbound::Client {
                    channel: message.channel,
                    message: OutgoingMessage::Chat(message.chat),
                },
            );
        }
        assert(deliveries.deep_view() =~= self@.to_client(
            message.channel@,
            OutgoingMessageView::Chat(message.chat@),
        ));
        deliveries
    }

    /// A command for a server goes to the client of its channel. The answer
    /// is whether the channel is connected, that is, whether the command goes
    /// anywhere.
    pub fn outgoing_command(&self, message: OutgoingCommand) -> (result: (bool, Vec<Outbound>))
        ensures
            result.0 == self@.clients.contains_key(message.channel@),
            result.1.deep_view() == self@.to_client(
                message.channel@,
                OutgoingMessageView::Command {
                    command: message.command@,
                    sender: message.sender@,
                    roles: message.roles.deep_view(),
                    silent: message.silent,
                },
            ),
    {
        let mut deliveries: Vec<Outbound> = Vec::new();
        let connected = self.integration_clients.contains_key(message.channel.as_str());
        if connected {
            deliveries.push(
                Outbound::Client {
                    channel: message.channel,
                    message: OutgoingMessage::Command {
                        command: message.command,
                        sender: message.sender,
                        roles: message.roles,
                        silent: message.silent,
                    },
                },
            );
        }
        assert(deliveries.deep_view() =~= self@.to_client(
            message.channel@,
            OutgoingMessageView::Command {
                command: message.command@,
                sender: message.sender@,
                roles: message.roles.deep_view(),
                silent: message.silent,
            },
        ));
        (connected, deliveries)
    }

    /// The order to move a player goes to the client of the channel, and
    /// nowhere if the channel is not connected.
    pub fn outgoing_server_change(&self, message: OutgoingServerChange) -> (deliveries: Vec<
        Outbound,
    >)
        ensures
            deliveries.deep_view() == self@.to_client(
                message.channel@,
                OutgoingMessageView::SendToServer {
                    player: message.player@,
                    target_server: message.target_server@,
                },
            ),
    {
        let mut deliveries: Vec<Outbound> = Vec::new();
        if self.integration_clients.contains_key(message.channel.as_str()) {
            deliveries.push(
                Outbound::Client {
                    channel: message.channel,
                    message: OutgoingMessage::SendToServer {
                        player: message.player,
                        target_server: message.target_server,
                    },
                },
            );
        }
        assert(deliveries.deep_view() =~= self@.to_client(
            message.channel@,
            OutgoingMessageView::SendToServer {
                player: message.player@,
                target_server: message.target_server@,
            },
        ));
        deliveries
    }

    /// Takes in what a server reports of its games and players at `time`.
    ///
    /// Each of the two that the message names replaces what the status of the
    /// channel held; the other stays. A channel without a status gets one.
    /// The new figures go to the chat relay and the new status, stamped with
    /// `time`, to the database writer, as far as the two are registered.
    pub fn status_update_at(&mut self, message: StatusUpdate, time: std::time::SystemTime) -> (deliveries:
        Vec<Outbound>)
        ensures
            final(self)@ == old(self)@.update_status(
                message.channel@,
                message.games.deep_view(),
                message.players.deep_view(),
            ),
            deliveries.deep_view() == final(self)@.status_deliveries(message.channel@, time),
    {
        let ghost before = old(self)@.status_or_empty(message.channel@);
        let ghost after = old(self)@.update_status(
            message.channel@,
            message.games.deep_view(),
            message.players.deep_view(),
        );
        let (game_version, server_ip, held_games, held_players) = match self.status_by_channel.get(
            message.channel.as_str(),
        ) {
            Some(status) => (
                status.game_version.clone(),
                clone_text(&status.server_ip),
                clone_games(&status.games),
                clone_players(&status.players),
            ),
            None => (String::new(), None, Vec::new(), Vec::new()),
        };
        proof {
            assert(held_games.deep_view() =~= before.games);
            assert(held_players.deep_view() =~= before.players);
        }
        let games = match message.games {
            Some(games) => games,
            None => held_games,
        };
        let players = match message.players {
            Some(players) => players,
            None => held_players,
        };
        let status = ServerStatus { game_version, server_ip, games, players };
        assert(status@ == after.status[message.channel@]);
        let mut deliveries: Vec<Outbound> = Vec::new();
        if self.discord.is_some() {
            deliveries.push(
                Outbound::Discord(
                    DiscordMessage::UpdateRelayStatus(
                        UpdateRelayStatus {
                            channel: message.channel.clone(),
                            game_version: status.game_version.clone(),
                            server_ip: clone_text(&status.server_ip),
                            player_count: status.players.len(),
                        },
                    ),
                ),
            );
        }
        if self.database.is_some() {
            deliveries.push(
                Outbound::Database(
                    DatabaseMessage::WriteStatus(
                        WriteStatus { channel: message.channel.clone(), time, status: status.clone() },
                    ),
                ),
            );
        }
        self.status_by_channel.insert(message.channel, status);
        assert(final(self)@.status =~= after.status);
        assert(deliveries.deep_view() =~= after.status_deliveries(message.channel@, time));
        deliveries
    }

    /// Takes in what a server reports of its games and players now: as
    /// [`Controller::status_update_at`] at the time of the call.
    pub fn status_update(&mut self, message: StatusUpdate) -> (deliveries: Vec<Outbound>)
        ensures
            final(self)@ == old(self)@.update_status(
                message.channel@,
                message.games.deep_view(),
                message.players.deep_view(),
            ),
            exists|time: std::time::SystemTime|
                deliveries.deep_view() == #[trigger] final(self)@.status_deliveries(
                    message.channel@,
                    time,
                ),
    {
        let time = now();
        self.status_update_at(message, time)
    }

    /// A performance sample, stamped with `time`, goes to the database
    /// writer, if there is one. The controller keeps nothing of it.
    pub fn performance_update_at(
        &self,
        message: PerformanceUpdate,
        time: std::time::SystemTime,
    ) -> (deliveries: Vec<Outbound>)
        ensures
            deliveries.deep_view() == self@.performance_deliveries(
                message.channel@,
                time,
                message.performance@,
            ),
    {
        let mut deliveries: Vec<Outbound> = Vec::new();
        if self.database.is_some() {
            deliveries.push(
                Outbound::Database(
                    DatabaseMessage::WritePerformance(
                        WritePerformance {
                            channel: message.channel,
                            time,
                            performance: message.performance,
                        },
                    ),
                ),
            );
        }
        assert(deliveries.deep_view() =~= self@.to_database(
            OutboundView::WritePerformance {
                channel: message.channel@,
                time,
                performance: message.performance@,
            },
        ));
        deliveries
    }

    /// A performance sample goes to the database writer: as
    /// [`Controller::performance_update_at`] at the time of the call.
    pub fn performance_update(&self, message: PerformanceUpdate) -> (deliveries: Vec<Outbound>)
        ensures
            exists|time: std::time::SystemTime|
                deliveries.deep_view() == #[trigger] self@.performance_deliveries(
                    message.channel@,
                    time,
                    message.performance@,
                ),
    {
        let time = now();
        self.performance_update_at(message, time)
    }

    /// A server has started: the chat relay gets the notice, and the proxy of
    /// the kickback rule for the channel, if there is a rule and the proxy is
    /// connected, the order to move the players.
    pub fn server_lifecycle_start(&self, message: ServerLifecycleStart) -> (deliveries: Vec<
        Outbound,
    >)
        ensures
            deliveries.deep_view() == self@.start_deliveries(message.channel@, message.server_type),
    {
        let mut deliveries: Vec<Outbound> = Vec::new();
        if self.discord.is_some() {
            let mut content = subject(message.server_type);
            content.append(" has started!");
            deliveries.push(
                Outbound::Discord(
                    DiscordMessage::SendSystem(
                        SendSystem { channel: message.channel.clone(), content },
                    ),
                ),
            );
        }
        match self.config.kickbacks.get(message.channel.as_str()) {
            Some(rule) => {
                if self.integration_clients.contains_key(rule.proxy_channel.as_str()) {
                    deliveries.push(
                        Outbound::Client {
                            channel: rule.proxy_channel.clone(),
                            message: OutgoingMessage::SendServerToServer {
                                from_server: rule.from_server.clone(),
                                to_server: rule.to_server.clone(),
                            },
                        },
                    );
                }
            },
            None => {},
        }
        assert(deliveries.deep_view() =~= self@.start_deliveries(
            message.channel@,
            message.server_type,
        ));
        deliveries
    }

    /// A server has stopped: its channel has no status from now on, and the
    /// chat relay gets the notice, worded by whether the server crashed.
    pub fn server_lifecycle_stop(&mut self, message: ServerLifecycleStop) -> (deliveries: Vec<
        Outbound,
    >)
        ensures
            final(self)@ == old(self)@.stop(message.channel@),
            deliveries.deep_view() == old(self)@.to_discord(
                OutboundView::SendSystem {
                    channel: message.channel@,
                    content: stopped_notice(message.server_type, message.crash),
                },
            ),
    {
        self.status_by_channel.remove(message.channel.as_str());
        assert(final(self)@.status =~= old(self)@.stop(message.channel@).status);
        let mut deliveries: Vec<Outbound> = Vec::new();
        if self.discord.is_some() {
            let mut content = subject(message.server_type);
            if message.crash {
                content.append(" has crashed!");
            } else {
                content.append(" has stopped!");
            }
            deliveries.push(
                Outbound::Discord(
                    DiscordMessage::SendSystem(SendSystem { channel: message.channel, content }),
                ),
            );
        }
        assert(deliveries.deep_view() =~= old(self)@.to_discord(
            OutboundView::SendSystem {
                channel: message.channel@,
                content: stopped_notice(message.server_type, message.crash),
            },
        ));
        deliveries
    }

    /// A notice of a server goes to the chat relay, if there is one.
    pub fn server_system_message(&self, message: ServerSystemMessage) -> (deliveries: Vec<
        Outbound,
    >)
        ensures
            deliveries.deep_view() == self@.to_discord(
                OutboundView::SendSystem { channel: message.channel@, content: message.content@ },
            ),
    {
        let mut deliveries: Vec<Outbound> = Vec::new();
        if self.discord.is_some() {
            deliveries.push(
                Outbound::Discord(
                    DiscordMessage::SendSystem(
                        SendSystem { channel: message.channel, content: message.content },
                    ),
                ),
            );
        }
        assert(deliveries.deep_view() =~= self@.to_discord(
            OutboundView::SendSystem { channel: message.channel@, content: message.content@ },
        ));
        deliveries
    }

    /// The status of a channel, if it has one. Nothing changes.
    pub fn get_status(&self, message: &GetStatus) -> (status: Option<ServerStatus>)
        ensures
            status.deep_view() == self@.status_of(message.0@),
    {
        match self.status_by_channel.get(message.0.as_str()) {
            Some(status) => Some(status.clone()),
            None => None,
        }
    }

    /// A failure of the backend goes to the chat relay, if there is one.
    pub fn backend_error(&self, message: BackendError) -> (deliveries: Vec<Outbound>)
        ensures
            deliveries.deep_view() == self@.to_discord(
                OutboundView::ReportError {
                    title: message.title@,
                    description: message.description@,
                    fields: message.fields.deep_view(),
                },
            ),
    {
        let mut deliveries: Vec<Outbound> = Vec::new();
        if self.discord.is_some() {
            deliveries.push(
                Outbound::Discord(
                    DiscordMessage::ReportError(
                        ReportError {
                            title: message.title,
                            description: message.description,
                            fields: message.fields,
                        },
                    ),
                ),
            );
        }
        assert(deliveries.deep_view() =~= self@.to_discord(
            OutboundView::ReportError {
                title: message.title@,
                description: message.description@,
                fields: message.fields.deep_view(),
            },
        ));
        deliveries
    }

    /// The statistics of a game go to the statistics service as they are, if
    /// there is one.
    pub fn upload_stats_bundle(&self, message: UploadStatsBundle) -> (deliveries: Vec<Outbound>)
        ensures
            deliveries.deep_view() == if self@.statistics is Some {
                seq![
                    OutboundView::UploadStatsBundle {
                        game_id: message.game_id,
                        server: message.server@,
                        bundle: json_of(message.bundle),
                    },
                ]
            } else {
                Seq::empty()
            },
    {
        let mut deliveries: Vec<Outbound> = Vec::new();
        if self.statistics.is_some() {
            deliveries.push(Outbound::Statistics(message));
            assert(deliveries.deep_view() =~= seq![
                OutboundView::UploadStatsBundle {
                    game_id: message.game_id,
                    server: message.server@,
                    bundle: json_of(message.bundle),
                },
            ]);
        } else {
            assert(deliveries.deep_view() =~= Seq::empty());
        }
        deliveries
    }
}


/// What one status update names: its games, its players, either or both.
pub struct StatusChange {
    pub games: Option<Seq<GameView>>,
    pub players: Option<Seq<PlayerView>>,
}

/// The value named last in `named`, or `held` where none is named.
pub open spec fn latest<T>(named: Seq<Option<T>>, held: T) -> T
    decreases named.len(),
{
    if named.len() == 0 {
        held
    } else {
        match named.last() {
            Some(value) => value,
            None => latest(named.drop_last(), held),
        }
    }
}

impl<C, D, B, S> ControllerView<C, D, B, S> {
    /// After the status updates `changes` of `channel`, in order.
    pub open spec fn update_status_all(self, channel: Seq<char>, changes: Seq<StatusChange>) -> Self
        decreases changes.len(),
    {
        if changes.len() == 0 {
            self
        } else {
            self.update_status_all(channel, changes.drop_last()).update_status(
                channel,
                changes.last().games,
                changes.last().players,
            )
        }
    }
}

/// After a server has stopped its channel has no status, whatever the
/// controller held before and whether or not the channel is connected. The
/// clients and the status of every other channel are as they were.
pub proof fn lemma_stop_removes_status<C, D, B, S>(
    state: ControllerView<C, D, B, S>,
    channel: Seq<char>,
)
    ensures
        state.stop(channel).status_of(channel) is None,
        state.stop(channel).clients == state.clients,
        forall|other: Seq<char>|
            other != channel ==> state.stop(channel).status_of(other) == state.status_of(other),
{
}

/// After any number of status updates of a channel, its status holds for
/// games and for players, each by itself, what the last update that named it
/// said, and what was held before where no update named it. Version and
/// address are as they were.
pub proof fn lemma_status_holds_latest<C, D, B, S>(
    state: ControllerView<C, D, B, S>,
    channel: Seq<char>,
    changes: Seq<StatusChange>,
)
    ensures
        ({
            let before = state.status_or_empty(channel);
            let after = state.update_status_all(channel, changes).status_or_empty(channel);
            &&& after.games == latest(changes.map_values(|c: StatusChange| c.games), before.games)
            &&& after.players == latest(
                changes.map_values(|c: StatusChange| c.players),
                before.players,
            )
            &&& after.game_version == before.game_version
            &&& after.server_ip == before.server_ip
        }),
        changes.len() > 0 ==> state.update_status_all(channel, changes).status_of(channel) is Some,
        state.update_status_all(channel, changes).clients == state.clients,
    decreases changes.len(),
{
    if changes.len() > 0 {
        lemma_status_holds_latest(state, channel, changes.drop_last());
        assert(changes.map_values(|c: StatusChange| c.games).drop_last() =~= changes.drop_last().map_values(
            |c: StatusChange| c.games,
        ));
        assert(changes.map_values(|c: StatusChange| c.players).drop_last()
            =~= changes.drop_last().map_values(|c: StatusChange| c.players));
    }
}

/// A status update that names games only and one that names players only,
/// in either order, leave the status with the games of the one and the
/// players of the other.
pub proof fn lemma_status_fields_are_independent<C, D, B, S>(
    state: ControllerView<C, D, B, S>,
    channel: Seq<char>,
    games: Seq<GameView>,
    players: Seq<PlayerView>,
)
    ensures
        state.update_status(channel, Some(games), None).update_status(
            channel,
            None,
            Some(players),
        ).status_of(channel) == Some(
            ServerStatusView { games, players, ..state.status_or_empty(channel) },
        ),
        state.update_status(channel, None, Some(players)).update_status(
            channel,
            Some(games),
            None,
        ).status_of(channel) == Some(
            ServerStatusView { games, players, ..state.status_or_empty(channel) },
        ),
{
}

/// Registering a client puts it in the place of an earlier client of the
/// channel and keeps the games and players that the channel's status held.
/// Unregistering a client leaves every status as it was.
pub proof fn lemma_register_keeps_games_and_players<C, D, B, S>(
    state: ControllerView<C, D, B, S>,
    channel: Seq<char>,
    game_version: Seq<char>,
    server_ip: Option<Seq<char>>,
    client: C,
)
    ensures
        ({
            let after = state.register(channel, game_version, server_ip, client);
            &&& after.clients.contains_key(channel)
            &&& after.clients[channel] == client
            &&& after.status_of(channel) == Some(
                ServerStatusView {
                    game_version,
                    server_ip,
                    games: state.status_or_empty(channel).games,
                    players: state.status_or_empty(channel).players,
                },
            )
        }),
        state.unregister(channel).status == state.status,
        !state.unregister(channel).clients.contains_key(channel),
{
}


/// A status goes away by a stop of its own channel and by nothing else:
/// registering and unregistering clients, status updates and the stop of
/// another channel leave a channel that has a status with one. Clients come
/// and go by registering and unregistering only: status updates and stops
/// leave them as they were.
pub proof fn lemma_only_stop_removes_status<C, D, B, S>(
    state: ControllerView<C, D, B, S>,
    channel: Seq<char>,
    other: Seq<char>,
    game_version: Seq<char>,
    server_ip: Option<Seq<char>>,
    client: C,
    change: StatusChange,
)
    requires
        state.status_of(channel) is Some,
    ensures
        state.register(other, game_version, server_ip, client).status_of(channel) is Some,
        state.unregister(other).status_of(channel) is Some,
        state.update_status(other, change.games, change.players).status_of(channel) is Some,
        other != channel ==> state.stop(other).status_of(channel) is Some,
        state.update_status(other, change.games, change.players).clients == state.clients,
        state.stop(other).clients == state.clients,
{
}

} // verus!
