use nucleoid_backend::config::{Config, Kickback};
use nucleoid_backend::controller::{
    BackendError, Controller, GetStatisticsDatabaseController, GetStatus, IncomingChat,
    Outbound, OutgoingChat, OutgoingCommand, OutgoingServerChange, PerformanceUpdate,
    RegisterDatabaseClient, RegisterDiscordClient, RegisterIntegrationsClient,
    RegisterStatisticsDatabaseController, ServerLifecycleStart, ServerLifecycleStop,
    ServerSystemMessage, StatusUpdate, UnregisterDiscordClient, UnregisterIntegrationsClient,
};
use nucleoid_backend::database::{DatabaseMessage, WritePerformance, WriteStatus};
use nucleoid_backend::discord::{
    DiscordMessage, ErrorFields, ReportError, SendChat, SendSystem, UpdateRelayStatus,
};
use nucleoid_backend::integrations::{
    decode_message, handshake, registration, IntegrationsClient, OutgoingMessage,
};
use nucleoid_backend::model::{
    ChatMessage, Game, Player, ServerPerformance, ServerStatus, ServerType,
};
use nucleoid_backend::statistics::database::UploadStatsBundle;
use std::time::{Duration, SystemTime, UNIX_EPOCH};

type Hub = Controller<u32, &'static str, &'static str, &'static str>;

fn hub() -> Hub {
    Controller::new(Config::default())
}

fn register(hub: &mut Hub, channel: &str, version: &str, ip: Option<&str>, client: u32) {
    hub.register_integrations_client(RegisterIntegrationsClient {
        channel: channel.to_string(),
        game_version: version.to_string(),
        server_ip: ip.map(str::to_string),
        client,
    });
}

fn status(hub: &Hub, channel: &str) -> Option<ServerStatus> {
    hub.get_status(&GetStatus(channel.to_string()))
}

fn game(name: &str) -> Game {
    Game { name: name.to_string(), ty: "minigame".to_string(), player_count: 4 }
}

fn player(name: &str) -> Player {
    Player { id: format!("id-{}", name), name: name.to_string() }
}

fn update(channel: &str, games: Option<Vec<Game>>, players: Option<Vec<Player>>) -> StatusUpdate {
    StatusUpdate { channel: channel.to_string(), games, players }
}

fn stop(channel: &str, crash: bool, server_type: ServerType) -> ServerLifecycleStop {
    ServerLifecycleStop { channel: channel.to_string(), crash, server_type }
}

#[test]
fn new_controller_knows_nothing() {
    let hub = hub();
    assert_eq!(status(&hub, "lobby"), None);
    assert_eq!(hub.client("lobby"), None);
    assert_eq!(hub.discord(), None);
    assert_eq!(hub.database(), None);
    assert_eq!(hub.get_statistics_database_controller(GetStatisticsDatabaseController), None);
}

#[test]
fn handshake_sets_up_the_status_of_the_channel() {
    let frame = br#"{"type":"handshake","body":{"channel":"lobby","game_version":"1.20","server_type":"minecraft"}}"#;
    let opened = handshake(Some(decode_message(frame))).unwrap();
    let client = IntegrationsClient::new(&opened);
    assert_eq!(client.channel, "lobby");
    assert_eq!(client.server_type, ServerType::Minecraft);
    let mut hub = hub();
    hub.register_integrations_client(registration(opened, 1));
    assert_eq!(
        status(&hub, "lobby"),
        Some(ServerStatus {
            game_version: "1.20".to_string(),
            server_ip: None,
            games: vec![],
            players: vec![],
        })
    );
    assert_eq!(hub.client("lobby"), Some(&1));
}

#[test]
fn stop_removes_the_status_whatever_was_before() {
    // never seen
    let mut hub = hub();
    assert_eq!(hub.server_lifecycle_stop(stop("lobby", false, ServerType::Minecraft)), vec![]);
    assert_eq!(status(&hub, "lobby"), None);
    // registered and updated
    register(&mut hub, "lobby", "1.20", None, 1);
    hub.status_update_at(update("lobby", Some(vec![game("a")]), None), UNIX_EPOCH);
    register(&mut hub, "other", "1.19", None, 2);
    hub.server_lifecycle_stop(stop("lobby", true, ServerType::Minecraft));
    assert_eq!(status(&hub, "lobby"), None);
    assert_eq!(hub.client("lobby"), Some(&1));
    assert!(status(&hub, "other").is_some());
    // status without a client
    hub.unregister_integrations_client(UnregisterIntegrationsClient {
        channel: "other".to_string(),
    });
    hub.server_lifecycle_stop(stop("other", false, ServerType::Minecraft));
    assert_eq!(status(&hub, "other"), None);
}

#[test]
fn status_fields_are_updated_independently() {
    let mut hub = hub();
    hub.status_update_at(update("lobby", Some(vec![game("g1")]), None), UNIX_EPOCH);
    hub.status_update_at(update("lobby", None, Some(vec![player("p1")])), UNIX_EPOCH);
    let held = status(&hub, "lobby").unwrap();
    assert_eq!(held.games, vec![game("g1")]);
    assert_eq!(held.players, vec![player("p1")]);
    assert_eq!(held.game_version, "");
    assert_eq!(held.server_ip, None);

    hub.status_update_at(update("lobby", Some(vec![game("g2"), game("g3")]), None), UNIX_EPOCH);
    hub.status_update_at(update("lobby", None, None), UNIX_EPOCH);
    let held = status(&hub, "lobby").unwrap();
    assert_eq!(held.games, vec![game("g2"), game("g3")]);
    assert_eq!(held.players, vec![player("p1")]);

    hub.status_update_at(update("lobby", Some(vec![]), Some(vec![])), UNIX_EPOCH);
    let held = status(&hub, "lobby").unwrap();
    assert_eq!(held.games, vec![]);
    assert_eq!(held.players, vec![]);
}

#[test]
fn registering_again_replaces_the_client_and_keeps_games_and_players() {
    let mut hub = hub();
    register(&mut hub, "lobby", "1.19", Some("10.0.0.1"), 1);
    hub.status_update_at(
        update("lobby", Some(vec![game("g1")]), Some(vec![player("p1")])),
        UNIX_EPOCH,
    );
    register(&mut hub, "lobby", "1.20", None, 2);
    assert_eq!(hub.client("lobby"), Some(&2));
    assert_eq!(
        status(&hub, "lobby"),
        Some(ServerStatus {
            game_version: "1.20".to_string(),
            server_ip: None,
            games: vec![game("g1")],
            players: vec![player("p1")],
        })
    );
}

#[test]
fn unregistering_keeps_the_status() {
    let mut hub = hub();
    register(&mut hub, "lobby", "1.20", None, 1);
    hub.unregister_integrations_client(UnregisterIntegrationsClient {
        channel: "lobby".to_string(),
    });
    assert_eq!(hub.client("lobby"), None);
    assert!(status(&hub, "lobby").is_some());
}

#[test]
fn kickback_moves_players_through_the_connected_proxy() {
    let mut config = Config::default();
    config.kickbacks.insert(
        "lobby".to_string(),
        Kickback {
            from_server: "lobby".to_string(),
            to_server: "survival".to_string(),
            proxy_channel: "proxy".to_string(),
        },
    );
    let mut hub: Hub = Controller::new(config);
    register(&mut hub, "proxy", "3.3", None, 9);
    let start = || ServerLifecycleStart {
        channel: "lobby".to_string(),
        server_type: ServerType::Minecraft,
    };
    assert_eq!(
        hub.server_lifecycle_start(start()),
        vec![Outbound::Client {
            channel: "proxy".to_string(),
            message: OutgoingMessage::SendServerToServer {
                from_server: "lobby".to_string(),
                to_server: "survival".to_string(),
            },
        }]
    );
    assert_eq!(hub.client("proxy"), Some(&9));

    // a channel without a rule
    assert_eq!(
        hub.server_lifecycle_start(ServerLifecycleStart {
            channel: "survival".to_string(),
            server_type: ServerType::Minecraft,
        }),
        vec![]
    );
    // the proxy is gone
    hub.unregister_integrations_client(UnregisterIntegrationsClient {
        channel: "proxy".to_string(),
    });
    assert_eq!(hub.server_lifecycle_start(start()), vec![]);
}

#[test]
fn start_notice_goes_first_and_names_the_kind_of_server() {
    let mut config = Config::default();
    config.kickbacks.insert(
        "lobby".to_string(),
        Kickback {
            from_server: "a".to_string(),
            to_server: "b".to_string(),
            proxy_channel: "proxy".to_string(),
        },
    );
    let mut hub: Hub = Controller::new(config);
    hub.register_discord_client(RegisterDiscordClient { client: "discord" });
    register(&mut hub, "proxy", "3.3", None, 9);
    assert_eq!(
        hub.server_lifecycle_start(ServerLifecycleStart {
            channel: "lobby".to_string(),
            server_type: ServerType::Minecraft,
        }),
        vec![
            Outbound::Discord(DiscordMessage::SendSystem(SendSystem {
                channel: "lobby".to_string(),
                content: "Server has started!".to_string(),
            })),
            Outbound::Client {
                channel: "proxy".to_string(),
                message: OutgoingMessage::SendServerToServer {
                    from_server: "a".to_string(),
                    to_server: "b".to_string(),
                },
            },
        ]
    );
    assert_eq!(
        hub.server_lifecycle_start(ServerLifecycleStart {
            channel: "proxy".to_string(),
            server_type: ServerType::Velocity,
        }),
        vec![Outbound::Discord(DiscordMessage::SendSystem(SendSystem {
            channel: "proxy".to_string(),
            content: "Proxy has started!".to_string(),
        }))]
    );
}

#[test]
fn stop_notice_is_worded_by_crash_and_kind() {
    let mut hub = hub();
    hub.register_discord_client(RegisterDiscordClient { client: "discord" });
    let notice = |hub: &mut Hub, crash, server_type| match hub
        .server_lifecycle_stop(stop("lobby", crash, server_type))
        .pop()
    {
        Some(Outbound::Discord(DiscordMessage::SendSystem(SendSystem { channel, content }))) => {
            assert_eq!(channel, "lobby");
            content
        }
        other => panic!("unexpected delivery: {:?}", other),
    };
    assert_eq!(notice(&mut hub, false, ServerType::Minecraft), "Server has stopped!");
    assert_eq!(notice(&mut hub, true, ServerType::Minecraft), "Server has crashed!");
    assert_eq!(notice(&mut hub, false, ServerType::Velocity), "Proxy has stopped!");
    assert_eq!(notice(&mut hub, true, ServerType::Velocity), "Proxy has crashed!");
}

#[test]
fn command_for_a_channel_without_client_is_refused() {
    let hub = hub();
    let command = OutgoingCommand {
        channel: "nowhere".to_string(),
        sender: "admin".to_string(),
        command: "stop".to_string(),
        roles: vec![],
        silent: false,
    };
    assert_eq!(hub.outgoing_command(command), (false, vec![]));
}

#[test]
fn command_for_a_connected_channel_is_forwarded() {
    let mut hub = hub();
    register(&mut hub, "lobby", "1.20", None, 1);
    let command = OutgoingCommand {
        channel: "lobby".to_string(),
        sender: "admin".to_string(),
        command: "say hi".to_string(),
        roles: vec!["42".to_string()],
        silent: true,
    };
    assert_eq!(
        hub.outgoing_command(command),
        (
            true,
            vec![Outbound::Client {
                channel: "lobby".to_string(),
                message: OutgoingMessage::Command {
                    command: "say hi".to_string(),
                    sender: "admin".to_string(),
                    roles: vec!["42".to_string()],
                    silent: true,
                },
            }]
        )
    );
}

fn chat() -> ChatMessage {
    ChatMessage {
        sender: "alice".to_string(),
        content: "hello".to_string(),
        name_color: Some(7),
        attachments: vec![],
        replying_to: None,
    }
}

#[test]
fn outgoing_chat_and_server_change_go_to_the_client_if_connected() {
    let mut hub = hub();
    assert_eq!(
        hub.outgoing_chat(OutgoingChat { channel: "lobby".to_string(), chat: chat() }),
        vec![]
    );
    let change = || OutgoingServerChange {
        channel: "lobby".to_string(),
        player: "p".to_string(),
        target_server: "survival".to_string(),
    };
    assert_eq!(hub.outgoing_server_change(change()), vec![]);
    register(&mut hub, "lobby", "1.20", None, 1);
    assert_eq!(
        hub.outgoing_chat(OutgoingChat { channel: "lobby".to_string(), chat: chat() }),
        vec![Outbound::Client {
            channel: "lobby".to_string(),
            message: OutgoingMessage::Chat(chat()),
        }]
    );
    assert_eq!(
        hub.outgoing_server_change(change()),
        vec![Outbound::Client {
            channel: "lobby".to_string(),
            message: OutgoingMessage::SendToServer {
                player: "p".to_string(),
                target_server: "survival".to_string(),
            },
        }]
    );
}

#[test]
fn incoming_chat_and_notices_go_to_the_relay_if_registered() {
    let mut hub = hub();
    let said = || IncomingChat {
        channel: "lobby".to_string(),
        sender: player("p1"),
        content: "hi".to_string(),
    };
    let notice = || ServerSystemMessage {
        channel: "lobby".to_string(),
        content: "restarting".to_string(),
    };
    assert_eq!(hub.incoming_chat(said()), vec![]);
    assert_eq!(hub.server_system_message(notice()), vec![]);
    hub.register_discord_client(RegisterDiscordClient { client: "discord" });
    assert_eq!(hub.discord(), Some(&"discord"));
    assert_eq!(
        hub.incoming_chat(said()),
        vec![Outbound::Discord(DiscordMessage::SendChat(SendChat {
            channel: "lobby".to_string(),
            sender: player("p1"),
            content: "hi".to_string(),
        }))]
    );
    assert_eq!(
        hub.server_system_message(notice()),
        vec![Outbound::Discord(DiscordMessage::SendSystem(SendSystem {
            channel: "lobby".to_string(),
            content: "restarting".to_string(),
        }))]
    );
    hub.unregister_discord_client(UnregisterDiscordClient);
    assert_eq!(hub.discord(), None);
    assert_eq!(hub.incoming_chat(said()), vec![]);
}

#[test]
fn status_update_goes_to_relay_then_database() {
    let mut hub = hub();
    register(&mut hub, "lobby", "1.20", Some("10.0.0.1"), 1);
    hub.register_discord_client(RegisterDiscordClient { client: "discord" });
    hub.register_database_client(RegisterDatabaseClient { client: "database" });
    assert_eq!(hub.database(), Some(&"database"));
    let time = UNIX_EPOCH + Duration::from_secs(1_700_000_000);
    let deliveries = hub.status_update_at(
        update("lobby", None, Some(vec![player("p1"), player("p2")])),
        time,
    );
    assert_eq!(
        deliveries,
        vec![
            Outbound::Discord(DiscordMessage::UpdateRelayStatus(UpdateRelayStatus {
                channel: "lobby".to_string(),
                game_version: "1.20".to_string(),
                server_ip: Some("10.0.0.1".to_string()),
                player_count: 2,
            })),
            Outbound::Database(DatabaseMessage::WriteStatus(WriteStatus {
                channel: "lobby".to_string(),
                time,
                status: ServerStatus {
                    game_version: "1.20".to_string(),
                    server_ip: Some("10.0.0.1".to_string()),
                    games: vec![],
                    players: vec![player("p1"), player("p2")],
                },
            })),
        ]
    );
}

#[test]
fn status_update_stamps_the_time_of_the_call() {
    let mut hub = hub();
    hub.register_database_client(RegisterDatabaseClient { client: "database" });
    let before = SystemTime::now();
    let mut deliveries = hub.status_update(update("lobby", Some(vec![game("g")]), None));
    let after = SystemTime::now();
    assert_eq!(deliveries.len(), 1);
    match deliveries.pop() {
        Some(Outbound::Database(DatabaseMessage::WriteStatus(written))) => {
            assert_eq!(written.channel, "lobby");
            assert_eq!(written.status.games, vec![game("g")]);
            assert!(before <= written.time && written.time <= after);
        }
        other => panic!("unexpected delivery: {:?}", other),
    }
    assert_eq!(status(&hub, "lobby").unwrap().games, vec![game("g")]);
}

fn sample() -> ServerPerformance {
    ServerPerformance {
        average_tick_ms: serde_json::Number::from(12u64),
        tps: 20,
        dimensions: 3,
        entities: 100,
        chunks: 200,
        used_memory: 300,
        total_memory: 400,
    }
}

#[test]
fn performance_goes_to_the_database_and_is_not_kept() {
    let mut hub = hub();
    let report = || PerformanceUpdate { channel: "lobby".to_string(), performance: sample() };
    assert_eq!(hub.performance_update_at(report(), UNIX_EPOCH), vec![]);
    assert_eq!(hub.performance_update(report()), vec![]);
    hub.register_database_client(RegisterDatabaseClient { client: "database" });
    assert_eq!(
        hub.performance_update_at(report(), UNIX_EPOCH),
        vec![Outbound::Database(DatabaseMessage::WritePerformance(WritePerformance {
            channel: "lobby".to_string(),
            time: UNIX_EPOCH,
            performance: sample(),
        }))]
    );
    assert_eq!(hub.performance_update(report()).len(), 1);
    assert_eq!(status(&hub, "lobby"), None);
}

#[test]
fn backend_error_goes_to_the_relay() {
    let mut hub = hub();
    let details = || {
        let mut fields = ErrorFields::new();
        fields.insert("where".to_string(), "here".to_string());
        fields
    };
    let failure = || BackendError {
        title: "boom".to_string(),
        description: "it broke".to_string(),
        fields: Some(details()),
    };
    assert_eq!(hub.backend_error(failure()), vec![]);
    hub.register_discord_client(RegisterDiscordClient { client: "discord" });
    assert_eq!(
        hub.backend_error(failure()),
        vec![Outbound::Discord(DiscordMessage::ReportError(ReportError {
            title: "boom".to_string(),
            description: "it broke".to_string(),
            fields: Some(details()),
        }))]
    );
}

#[test]
fn error_fields_hold_each_name_once() {
    let mut fields = ErrorFields::new();
    assert!(fields.entries().is_empty());
    fields.insert("where".to_string(), "here".to_string());
    fields.insert("when".to_string(), "now".to_string());
    fields.insert("where".to_string(), "there".to_string());
    assert_eq!(
        fields.entries(),
        &vec![
            ("where".to_string(), "there".to_string()),
            ("when".to_string(), "now".to_string()),
        ]
    );
}

#[test]
fn statistics_go_to_the_statistics_service() {
    let mut hub = hub();
    let bundle = || UploadStatsBundle {
        game_id: 0x1234,
        server: "lobby".to_string(),
        bundle: serde_json::from_str(r#"{"namespace":"bedwars"}"#).unwrap(),
    };
    assert_eq!(hub.upload_stats_bundle(bundle()), vec![]);
    hub.register_statistics_database_controller(RegisterStatisticsDatabaseController {
        controller: "statistics",
    });
    assert_eq!(
        hub.get_statistics_database_controller(GetStatisticsDatabaseController),
        Some(&"statistics")
    );
    assert_eq!(hub.upload_stats_bundle(bundle()), vec![Outbound::Statistics(bundle())]);
}
