use nucleoid_backend::controller::{
    IncomingChat, PerformanceUpdate, ServerLifecycleStart, ServerLifecycleStop,
    ServerSystemMessage, StatusUpdate, UnregisterIntegrationsClient,
};
use nucleoid_backend::integrations::{
    decode_message, decode_value, encode_message, handshake, outgoing_bytes, outgoing_value,
    registration,
    ClientReport, Handshake, IncomingMessage, IntegrationsClient, IoError, JsonError,
    OutgoingMessage, ProtocolError,
};
use nucleoid_backend::model::{
    ChatAttachment, ChatMessage, Game, Player, ServerPerformance, ServerType,
};
use nucleoid_backend::statistics::database::UploadStatsBundle;
use nucleoid_backend::wire::{decode_frame, FrameError};

fn player(id: &str, name: &str) -> Player {
    Player { id: id.to_string(), name: name.to_string() }
}

fn lobby_client() -> IntegrationsClient {
    IntegrationsClient {
        channel: "lobby".to_string(),
        server_type: ServerType::Velocity,
        stopped: false,
    }
}

#[test]
fn decodes_handshake() {
    let frame = br#"{"type":"handshake","body":{"channel":"lobby","game_version":"1.20","server_ip":"play.example.org","server_type":"velocity"}}"#;
    assert_eq!(
        decode_message(frame),
        Ok(IncomingMessage::Handshake {
            channel: "lobby".to_string(),
            game_version: "1.20".to_string(),
            server_ip: Some("play.example.org".to_string()),
            server_type: Some(ServerType::Velocity),
        })
    );
}

#[test]
fn handshake_optional_members_may_be_missing_or_null() {
    let missing = br#"{"type":"handshake","body":{"channel":"lobby","game_version":"1.20"}}"#;
    let null = br#"{"body":{"channel":"lobby","game_version":"1.20","server_ip":null,"server_type":null},"type":"handshake"}"#;
    let expected = IncomingMessage::Handshake {
        channel: "lobby".to_string(),
        game_version: "1.20".to_string(),
        server_ip: None,
        server_type: None,
    };
    assert_eq!(decode_message(missing).as_ref(), Ok(&expected));
    assert_eq!(decode_message(null).as_ref(), Ok(&expected));
}

#[test]
fn handshake_with_unknown_server_type_is_malformed() {
    let frame = br#"{"type":"handshake","body":{"channel":"lobby","game_version":"1.20","server_type":"bungee"}}"#;
    assert_eq!(decode_message(frame), Err(ProtocolError::Json(JsonError::Body)));
}

#[test]
fn decodes_chat() {
    let frame = br#"{"type":"chat","body":{"sender":{"id":"069a79f4-44e9-4726-a5be-fca90e38aaf5","name":"Notch"},"content":"hi","extra":1}}"#;
    assert_eq!(
        decode_message(frame),
        Ok(IncomingMessage::Chat {
            sender: player("069a79f4-44e9-4726-a5be-fca90e38aaf5", "Notch"),
            content: "hi".to_string(),
        })
    );
}

#[test]
fn decodes_partial_status() {
    let only_games = br#"{"type":"status","body":{"games":[{"name":"Bedwars","type":"bedwars","player_count":8}]}}"#;
    assert_eq!(
        decode_message(only_games),
        Ok(IncomingMessage::Status {
            players: None,
            games: Some(vec![Game {
                name: "Bedwars".to_string(),
                ty: "bedwars".to_string(),
                player_count: 8,
            }]),
        })
    );
    let only_players = br#"{"type":"status","body":{"players":[{"id":"a","name":"A"},{"id":"b","name":"B"}]}}"#;
    assert_eq!(
        decode_message(only_players),
        Ok(IncomingMessage::Status {
            players: Some(vec![player("a", "A"), player("b", "B")]),
            games: None,
        })
    );
    let neither = br#"{"type":"status","body":{}}"#;
    assert_eq!(
        decode_message(neither),
        Ok(IncomingMessage::Status { players: None, games: None })
    );
}

#[test]
fn status_with_a_bad_element_is_malformed() {
    let bad_player = br#"{"type":"status","body":{"players":[{"id":"a","name":"A"},{"id":"b"}]}}"#;
    assert_eq!(decode_message(bad_player), Err(ProtocolError::Json(JsonError::Body)));
    let count_too_large = br#"{"type":"status","body":{"games":[{"name":"n","type":"t","player_count":65536}]}}"#;
    assert_eq!(decode_message(count_too_large), Err(ProtocolError::Json(JsonError::Body)));
    let largest_count = br#"{"type":"status","body":{"games":[{"name":"n","type":"t","player_count":65535}]}}"#;
    assert!(decode_message(largest_count).is_ok());
    let not_an_object = br#"{"type":"status","body":[]}"#;
    assert_eq!(decode_message(not_an_object), Err(ProtocolError::Json(JsonError::Body)));
}

#[test]
fn decodes_lifecycle() {
    assert_eq!(
        decode_message(br#"{"type":"lifecycle_start","body":{}}"#),
        Ok(IncomingMessage::LifecycleStart {})
    );
    assert_eq!(
        decode_message(br#"{"type":"lifecycle_stop","body":{"crash":true}}"#),
        Ok(IncomingMessage::LifecycleStop { crash: true })
    );
    assert_eq!(
        decode_message(br#"{"type":"lifecycle_stop","body":{"crash":"yes"}}"#),
        Err(ProtocolError::Json(JsonError::Body))
    );
}

#[test]
fn decodes_performance() {
    let frame = br#"{"type":"performance","body":{"average_tick_ms":12.5,"tps":20,"dimensions":3,"entities":1500,"chunks":900,"used_memory":1073741824,"total_memory":4294967296}}"#;
    assert_eq!(
        decode_message(frame),
        Ok(IncomingMessage::Performance(ServerPerformance {
            average_tick_ms: serde_json::Number::from_f64(12.5).unwrap(),
            tps: 20,
            dimensions: 3,
            entities: 1500,
            chunks: 900,
            used_memory: 1073741824,
            total_memory: 4294967296,
        }))
    );
    let tps_too_large = br#"{"type":"performance","body":{"average_tick_ms":12.5,"tps":256,"dimensions":3,"entities":1500,"chunks":900,"used_memory":1,"total_memory":2}}"#;
    assert_eq!(decode_message(tps_too_large), Err(ProtocolError::Json(JsonError::Body)));
    let negative = br#"{"type":"performance","body":{"average_tick_ms":12.5,"tps":20,"dimensions":3,"entities":-1,"chunks":900,"used_memory":1,"total_memory":2}}"#;
    assert_eq!(decode_message(negative), Err(ProtocolError::Json(JsonError::Body)));
}

#[test]
fn decodes_system_message() {
    assert_eq!(
        decode_message(br#"{"type":"system","body":{"content":"restarting"}}"#),
        Ok(IncomingMessage::SystemMessage { content: "restarting".to_string() })
    );
}

#[test]
fn decodes_upload_statistics() {
    let frame = br#"{"type":"upload_statistics","body":{"game_id":"a1a2a3a4-b1b2-c1c2-d1d2-d3d4d5d6d7d8","bundle":{"namespace":"bedwars","stats":{"players":{}}}}}"#;
    let bundle: serde_json::Value =
        serde_json::from_str(r#"{"namespace":"bedwars","stats":{"players":{}}}"#).unwrap();
    assert_eq!(
        decode_message(frame),
        Ok(IncomingMessage::UploadStatistics {
            bundle,
            game_id: 0xa1a2a3a4b1b2c1c2d1d2d3d4d5d6d7d8,
        })
    );
    let bad_id = br#"{"type":"upload_statistics","body":{"game_id":"not-a-uuid","bundle":{}}}"#;
    assert_eq!(decode_message(bad_id), Err(ProtocolError::Json(JsonError::Body)));
}

#[test]
fn each_decoding_error_has_its_input() {
    assert_eq!(decode_message(b"{not json"), Err(ProtocolError::Json(JsonError::Syntax)));
    assert_eq!(decode_message(b""), Err(ProtocolError::Json(JsonError::Syntax)));
    assert_eq!(decode_message(b"[1,2]"), Err(ProtocolError::Json(JsonError::Envelope)));
    assert_eq!(
        decode_message(br#"{"body":{}}"#),
        Err(ProtocolError::Json(JsonError::Envelope))
    );
    assert_eq!(
        decode_message(br#"{"type":7,"body":{}}"#),
        Err(ProtocolError::Json(JsonError::Envelope))
    );
    assert_eq!(
        decode_message(br#"{"type":"teleport","body":{}}"#),
        Err(ProtocolError::Json(JsonError::UnknownType))
    );
    assert_eq!(
        decode_message(br#"{"type":"teleport"}"#),
        Err(ProtocolError::Json(JsonError::UnknownType))
    );
    assert_eq!(
        decode_message(br#"{"type":"chat"}"#),
        Err(ProtocolError::Json(JsonError::Body))
    );
    assert_eq!(
        decode_message(br#"{"type":"chat","body":{"content":"hi"}}"#),
        Err(ProtocolError::Json(JsonError::Body))
    );
}

#[test]
fn decode_value_reads_a_parsed_value() {
    let value: serde_json::Value =
        serde_json::from_str(r#"{"type":"system","body":{"content":"x"}}"#).unwrap();
    assert_eq!(
        decode_value(&value),
        Ok(IncomingMessage::SystemMessage { content: "x".to_string() })
    );
    let value: serde_json::Value = serde_json::from_str(r#""system""#).unwrap();
    assert_eq!(decode_value(&value), Err(JsonError::Envelope));
}

#[test]
fn handshake_accepts_a_first_handshake() {
    let first = Some(Ok(IncomingMessage::Handshake {
        channel: "lobby".to_string(),
        game_version: "1.20".to_string(),
        server_ip: None,
        server_type: None,
    }));
    assert_eq!(
        handshake(first),
        Ok(Handshake {
            channel: "lobby".to_string(),
            game_version: "1.20".to_string(),
            server_ip: None,
            server_type: ServerType::Minecraft,
        })
    );
    let first = Some(Ok(IncomingMessage::Handshake {
        channel: "proxy".to_string(),
        game_version: "3.3".to_string(),
        server_ip: Some("10.0.0.1".to_string()),
        server_type: Some(ServerType::Velocity),
    }));
    assert_eq!(
        handshake(first),
        Ok(Handshake {
            channel: "proxy".to_string(),
            game_version: "3.3".to_string(),
            server_ip: Some("10.0.0.1".to_string()),
            server_type: ServerType::Velocity,
        })
    );
}

#[test]
fn handshake_is_missing_for_anything_else() {
    assert_eq!(handshake(None), Err(ProtocolError::MissingHandshake));
    assert_eq!(
        handshake(Some(Ok(IncomingMessage::LifecycleStart {}))),
        Err(ProtocolError::MissingHandshake)
    );
    assert_eq!(
        handshake(Some(Ok(IncomingMessage::SystemMessage { content: "x".to_string() }))),
        Err(ProtocolError::MissingHandshake)
    );
}

#[test]
fn handshake_is_missing_for_an_unreadable_first_frame() {
    assert_eq!(
        handshake(Some(decode_message(b"{oops"))),
        Err(ProtocolError::MissingHandshake)
    );
    assert_eq!(
        handshake(Some(Err(ProtocolError::Json(JsonError::UnknownType)))),
        Err(ProtocolError::MissingHandshake)
    );
}

#[test]
fn handshake_returns_an_io_failure_as_it_is() {
    assert_eq!(
        handshake(Some(Err(ProtocolError::Io(IoError::Transport)))),
        Err(ProtocolError::Io(IoError::Transport))
    );
    let oversized = IoError::Frame(FrameError::FrameTooLarge { length: 4194305 });
    assert_eq!(
        handshake(Some(Err(ProtocolError::Io(oversized)))),
        Err(ProtocolError::Io(oversized))
    );
}

#[test]
fn client_and_registration_come_from_the_handshake() {
    let opened = Handshake {
        channel: "lobby".to_string(),
        game_version: "1.20".to_string(),
        server_ip: Some("10.0.0.1".to_string()),
        server_type: ServerType::Velocity,
    };
    let client = IntegrationsClient::new(&opened);
    assert_eq!(client, lobby_client());
    let message = registration(opened, 7u32);
    assert_eq!(message.channel, "lobby");
    assert_eq!(message.game_version, "1.20");
    assert_eq!(message.server_ip, Some("10.0.0.1".to_string()));
    assert_eq!(message.client, 7);
}

#[test]
fn client_reports_each_message_under_its_channel() {
    let mut client = lobby_client();
    assert_eq!(
        client.handle(Ok(IncomingMessage::Chat {
            sender: player("a", "A"),
            content: "hi".to_string()
        })),
        Some(ClientReport::IncomingChat(IncomingChat {
            channel: "lobby".to_string(),
            sender: player("a", "A"),
            content: "hi".to_string(),
        }))
    );
    assert_eq!(
        client.handle(Ok(IncomingMessage::Status { players: Some(vec![]), games: None })),
        Some(ClientReport::StatusUpdate(StatusUpdate {
            channel: "lobby".to_string(),
            games: None,
            players: Some(vec![]),
        }))
    );
    assert_eq!(
        client.handle(Ok(IncomingMessage::LifecycleStart {})),
        Some(ClientReport::ServerLifecycleStart(ServerLifecycleStart {
            channel: "lobby".to_string(),
            server_type: ServerType::Velocity,
        }))
    );
    assert_eq!(
        client.handle(Ok(IncomingMessage::LifecycleStop { crash: true })),
        Some(ClientReport::ServerLifecycleStop(ServerLifecycleStop {
            channel: "lobby".to_string(),
            crash: true,
            server_type: ServerType::Velocity,
        }))
    );
    assert_eq!(
        client.handle(Ok(IncomingMessage::SystemMessage { content: "x".to_string() })),
        Some(ClientReport::ServerSystemMessage(ServerSystemMessage {
            channel: "lobby".to_string(),
            content: "x".to_string(),
        }))
    );
    let performance = || ServerPerformance {
        average_tick_ms: serde_json::Number::from(3u64),
        tps: 20,
        dimensions: 1,
        entities: 2,
        chunks: 3,
        used_memory: 4,
        total_memory: 5,
    };
    assert_eq!(
        client.handle(Ok(IncomingMessage::Performance(performance()))),
        Some(ClientReport::PerformanceUpdate(PerformanceUpdate {
            channel: "lobby".to_string(),
            performance: performance(),
        }))
    );
    assert_eq!(
        client.handle(Ok(IncomingMessage::UploadStatistics {
            bundle: serde_json::Value::Null,
            game_id: 9
        })),
        Some(ClientReport::UploadStatsBundle(UploadStatsBundle {
            game_id: 9,
            server: "lobby".to_string(),
            bundle: serde_json::Value::Null,
        }))
    );
    assert!(!client.stopped);
}

#[test]
fn client_passes_over_a_second_handshake() {
    let mut client = lobby_client();
    let again = IncomingMessage::Handshake {
        channel: "other".to_string(),
        game_version: "1".to_string(),
        server_ip: None,
        server_type: None,
    };
    assert_eq!(client.handle(Ok(again)), None);
    assert_eq!(client, lobby_client());
}

#[test]
fn malformed_frame_does_not_close_the_connection() {
    let mut client = lobby_client();
    assert_eq!(client.handle_frame(Ok(b"{oops".to_vec())), None);
    assert!(!client.stopped);
    assert_eq!(
        client.handle_frame(Ok(br#"{"type":"system","body":{"content":"still here"}}"#.to_vec())),
        Some(ClientReport::ServerSystemMessage(ServerSystemMessage {
            channel: "lobby".to_string(),
            content: "still here".to_string(),
        }))
    );
    assert!(!client.stopped);
}

#[test]
fn io_failure_stops_the_client_for_good() {
    let mut client = lobby_client();
    assert_eq!(client.handle_frame(Err(IoError::Transport)), None);
    assert!(client.stopped);
    assert_eq!(
        client.handle_frame(Ok(br#"{"type":"system","body":{"content":"late"}}"#.to_vec())),
        None
    );
    assert!(client.stopped);

    let mut client = lobby_client();
    let oversized = IoError::Frame(FrameError::FrameTooLarge { length: 5_000_000 });
    assert_eq!(client.handle(Err(ProtocolError::Io(oversized))), None);
    assert!(client.stopped);

    let mut client = lobby_client();
    assert_eq!(client.handle(Err(ProtocolError::MissingHandshake)), None);
    assert!(client.stopped);
}

#[test]
fn failed_delivery_stops_the_client_and_unregisters_once() {
    let mut client = lobby_client();
    client.delivery_failed();
    assert!(client.stopped);
    assert_eq!(
        client.stopped(),
        UnregisterIntegrationsClient { channel: "lobby".to_string() }
    );
}

fn parsed(text: &str) -> serde_json::Value {
    serde_json::from_str(text).unwrap()
}

#[test]
fn outgoing_command_is_written_under_its_tag() {
    let message = OutgoingMessage::Command {
        command: "say hi".to_string(),
        sender: "admin".to_string(),
        roles: vec!["1".to_string(), "2".to_string()],
        silent: true,
    };
    assert_eq!(
        outgoing_value(&message),
        parsed(r#"{"type":"command","body":{"command":"say hi","sender":"admin","roles":["1","2"],"silent":true}}"#)
    );
}

#[test]
fn outgoing_server_moves_are_written_under_their_tags() {
    let one = OutgoingMessage::SendToServer {
        player: "069a79f4-44e9-4726-a5be-fca90e38aaf5".to_string(),
        target_server: "survival".to_string(),
    };
    assert_eq!(
        outgoing_value(&one),
        parsed(r#"{"type":"send_to_server","body":{"player":"069a79f4-44e9-4726-a5be-fca90e38aaf5","target_server":"survival"}}"#)
    );
    let all = OutgoingMessage::SendServerToServer {
        from_server: "lobby".to_string(),
        to_server: "survival".to_string(),
    };
    assert_eq!(
        outgoing_value(&all),
        parsed(r#"{"type":"send_server_to_server","body":{"from_server":"lobby","to_server":"survival"}}"#)
    );
}

#[test]
fn outgoing_chat_leaves_out_what_is_absent() {
    let plain = OutgoingMessage::Chat(ChatMessage {
        sender: "alice".to_string(),
        content: "hello".to_string(),
        name_color: None,
        attachments: vec![],
        replying_to: None,
    });
    assert_eq!(
        outgoing_value(&plain),
        parsed(r#"{"type":"chat","body":{"sender":"alice","content":"hello","attachments":[]}}"#)
    );
    let full = OutgoingMessage::Chat(ChatMessage {
        sender: "bob".to_string(),
        content: "look".to_string(),
        name_color: Some(0xff8800),
        attachments: vec![ChatAttachment {
            name: "map.png".to_string(),
            url: "https://example.org/map.png".to_string(),
        }],
        replying_to: Some(Box::new(ChatMessage {
            sender: "alice".to_string(),
            content: "hello".to_string(),
            name_color: None,
            attachments: vec![],
            replying_to: None,
        })),
    });
    assert_eq!(
        outgoing_value(&full),
        parsed(
            r#"{"type":"chat","body":{"sender":"bob","content":"look","name_color":16746496,
            "attachments":[{"name":"map.png","url":"https://example.org/map.png"}],
            "replying_to":{"sender":"alice","content":"hello","attachments":[]}}}"#
        )
    );
}

#[test]
fn encoded_message_is_one_frame_of_its_json() {
    let message = OutgoingMessage::SendServerToServer {
        from_server: "lobby".to_string(),
        to_server: "survival".to_string(),
    };
    let frame = encode_message(&message).unwrap();
    let (body, consumed) = decode_frame(&frame).unwrap().unwrap();
    assert_eq!(consumed, frame.len());
    assert_eq!(frame[..4], (body.len() as u32).to_be_bytes());
    let read_back: serde_json::Value = serde_json::from_slice(&body).unwrap();
    assert_eq!(read_back["type"], "send_server_to_server");
    assert_eq!(read_back["body"]["from_server"], "lobby");
    assert_eq!(read_back["body"]["to_server"], "survival");
    assert_eq!(read_back, outgoing_value(&message));
}

#[test]
fn oversized_message_is_not_framed() {
    let message = OutgoingMessage::Command {
        command: "x".repeat(4 * 1024 * 1024),
        sender: "admin".to_string(),
        roles: vec![],
        silent: false,
    };
    let length = outgoing_bytes(&message).len();
    assert_eq!(length, 4 * 1024 * 1024 + 83);
    assert_eq!(
        encode_message(&message),
        Err(ProtocolError::Io(IoError::Frame(FrameError::FrameTooLarge { length })))
    );
}

#[test]
fn largest_message_is_framed() {
    let message = OutgoingMessage::Command {
        command: "x".repeat(4 * 1024 * 1024 - 83),
        sender: "admin".to_string(),
        roles: vec![],
        silent: false,
    };
    let written = encode_message(&message).unwrap();
    assert_eq!(written[..4], [0x00, 0x40, 0x00, 0x00]);
    assert_eq!(written.len(), 4 + 4 * 1024 * 1024);
}

#[test]
fn lifecycle_start_needs_an_object_for_a_body() {
    assert_eq!(
        decode_message(br#"{"type":"lifecycle_start","body":null}"#),
        Err(ProtocolError::Json(JsonError::Body))
    );
    assert_eq!(
        decode_message(br#"{"type":"lifecycle_start","body":{"ignored":1}}"#),
        Ok(IncomingMessage::LifecycleStart {})
    );
}

fn frame(text: &str) -> Vec<u8> {
    let mut frame = (text.len() as u32).to_be_bytes().to_vec();
    frame.extend_from_slice(text.as_bytes());
    frame
}

#[test]
fn move_order_is_written_byte_for_byte() {
    let message = OutgoingMessage::SendServerToServer {
        from_server: "lobby".to_string(),
        to_server: "survival".to_string(),
    };
    let text = r#"{"type":"send_server_to_server","body":{"from_server":"lobby","to_server":"survival"}}"#;
    assert_eq!(text.len(), 86);
    assert_eq!(outgoing_bytes(&message), text.as_bytes());
    let written = encode_message(&message).unwrap();
    assert_eq!(written[..4], [0x00, 0x00, 0x00, 0x56]);
    assert_eq!(written, frame(text));
}

#[test]
fn command_is_written_byte_for_byte() {
    let message = OutgoingMessage::Command {
        command: "say \"hi\"\n".to_string(),
        sender: "admin".to_string(),
        roles: vec!["1".to_string(), "2".to_string()],
        silent: true,
    };
    let text = r#"{"type":"command","body":{"command":"say \"hi\"\n","sender":"admin","roles":["1","2"],"silent":true}}"#;
    assert_eq!(encode_message(&message), Ok(frame(text)));
    let none = OutgoingMessage::Command {
        command: "stop".to_string(),
        sender: "admin".to_string(),
        roles: vec![],
        silent: false,
    };
    let text = r#"{"type":"command","body":{"command":"stop","sender":"admin","roles":[],"silent":false}}"#;
    assert_eq!(encode_message(&none), Ok(frame(text)));
}

#[test]
fn send_to_server_is_written_byte_for_byte() {
    let message = OutgoingMessage::SendToServer {
        player: "069a79f4-44e9-4726-a5be-fca90e38aaf5".to_string(),
        target_server: "survival".to_string(),
    };
    let text = r#"{"type":"send_to_server","body":{"player":"069a79f4-44e9-4726-a5be-fca90e38aaf5","target_server":"survival"}}"#;
    assert_eq!(encode_message(&message), Ok(frame(text)));
}

#[test]
fn chat_is_written_byte_for_byte() {
    let answered = ChatMessage {
        sender: "alice".to_string(),
        content: "h\u{e9}llo".to_string(),
        name_color: None,
        attachments: vec![],
        replying_to: None,
    };
    let message = OutgoingMessage::Chat(ChatMessage {
        sender: "bob".to_string(),
        content: "look".to_string(),
        name_color: Some(16746496),
        attachments: vec![
            ChatAttachment { name: "a.png".to_string(), url: "https://x/a.png".to_string() },
            ChatAttachment { name: "b.png".to_string(), url: "https://x/b.png".to_string() },
        ],
        replying_to: Some(Box::new(answered)),
    });
    let text = "{\"type\":\"chat\",\"body\":{\"sender\":\"bob\",\"content\":\"look\",\"name_color\":16746496,\
\"attachments\":[{\"name\":\"a.png\",\"url\":\"https://x/a.png\"},{\"name\":\"b.png\",\"url\":\"https://x/b.png\"}],\
\"replying_to\":{\"sender\":\"alice\",\"content\":\"h\u{e9}llo\",\"attachments\":[]}}}";
    assert_eq!(encode_message(&message), Ok(frame(text)));
}

#[test]
fn written_text_reads_back_as_the_value_of_the_message() {
    let messages = vec![
        OutgoingMessage::Chat(ChatMessage {
            sender: "bob".to_string(),
            content: "tab\there".to_string(),
            name_color: Some(1),
            attachments: vec![ChatAttachment { name: "n".to_string(), url: "u".to_string() }],
            replying_to: Some(Box::new(ChatMessage {
                sender: "alice".to_string(),
                content: "".to_string(),
                name_color: None,
                attachments: vec![],
                replying_to: None,
            })),
        }),
        OutgoingMessage::Command {
            command: "c".to_string(),
            sender: "s".to_string(),
            roles: vec!["r".to_string()],
            silent: false,
        },
        OutgoingMessage::SendToServer { player: "p".to_string(), target_server: "t".to_string() },
        OutgoingMessage::SendServerToServer {
            from_server: "f".to_string(),
            to_server: "t".to_string(),
        },
    ];
    for message in &messages {
        let read: serde_json::Value = serde_json::from_slice(&outgoing_bytes(message)).unwrap();
        assert_eq!(read, outgoing_value(message));
    }
}
