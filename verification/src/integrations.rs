//! The integrations protocol: what game servers send to the hub and what the
//! hub sends back, how both are written as JSON, and what the hub's end of one
//! connection does with each frame it receives.

use crate::controller::{
    IncomingChat, PerformanceUpdate, RegisterIntegrationsClient, ServerLifecycleStart,
    ServerLifecycleStop, ServerSystemMessage, StatusUpdate, UnregisterIntegrationsClient,
};
use crate::json::{
    array_value, as_array, as_bool, as_number, as_text, as_u64, bool_value, duplicate,
    empty_object, is_null, is_object, json_of, jsons_of, member, parse, parsed, print, printed,
    same_text, set_member, text_value, u32_value, Json, NumberModel,
};
use crate::model::{
    ChatAttachment, ChatAttachmentView, ChatMessage, ChatMessageView, Game, GameView, Player,
    PlayerView, ServerPerformance, ServerPerformanceView, ServerType,
};
use crate::statistics::database::UploadStatsBundle;
use crate::wire::{encode_frame, frame_of, FrameError, MAX_FRAME_LENGTH};
use vstd::prelude::*;
use vstd::string::StringSliceAdditionalSpecFns;
use vstd::utf8::encode_utf8;

verus! {

/// Why a frame is not a message of the protocol.
#[derive(Debug, Clone, Copy, PartialEq, Eq, Structural)]
pub enum JsonError {
    /// The frame is not JSON text.
    Syntax,
    /// The value has no `type` member that is a string.
    Envelope,
    /// The `type` names no message of the protocol.
    UnknownType,
    /// The `type` is known, and the `body` is missing or not of its shape.
    Body,
}

/// What went wrong below the level of messages.
#[derive(Debug, Clone, Copy, PartialEq, Eq, Structural)]
pub enum IoError {
    /// A frame was refused by the framing layer.
    Frame(FrameError),
    /// The connection failed.
    Transport,
}

/// Why a step of a connection failed.
#[derive(Debug, Clone, Copy, PartialEq, Eq, Structural)]
pub enum ProtocolError {
    /// Framing or transport failure: the connection cannot go on.
    Io(IoError),
    /// One frame could not be understood: the connection goes on.
    Json(JsonError),
    /// The first frame was not a handshake, or there was none.
    MissingHandshake,
}

/// A message from a game server.
#[derive(Debug, PartialEq, Eq)]
pub enum IncomingMessage {
    Handshake {
        channel: String,
        game_version: String,
        server_ip: Option<String>,
        server_type: Option<ServerType>,
    },
    Chat { sender: Player, content: String },
    Status { players: Option<Vec<Player>>, games: Option<Vec<Game>> },
    LifecycleStart {  },
    LifecycleStop { crash: bool },
    Performance(ServerPerformance),
    SystemMessage { content: String },
    UploadStatistics {
        /// The statistics of one game, passed on as they came.
        bundle: serde_json::Value,
        /// The UUID of the game, as a number.
        game_id: u128,
    },
}

/// Mathematical value of an [`IncomingMessage`].
pub enum IncomingMessageView {
    Handshake {
        channel: Seq<char>,
        game_version: Seq<char>,
        server_ip: Option<Seq<char>>,
        server_type: Option<ServerType>,
    },
    Chat { sender: PlayerView, content: Seq<char> },
    Status { players: Option<Seq<PlayerView>>, games: Option<Seq<GameView>> },
    LifecycleStart,
    LifecycleStop { crash: bool },
    Performance(ServerPerformanceView),
    SystemMessage { content: Seq<char> },
    UploadStatistics { bundle: Json, game_id: u128 },
}

impl View for IncomingMessage {
    type V = IncomingMessageView;

    open spec fn view(&self) -> IncomingMessageView {
        match *self {
            IncomingMessage::Handshake { channel, game_version, server_ip, server_type } => {
                IncomingMessageView::Handshake {
                    channel: channel@,
                    game_version: game_version@,
                    server_ip: server_ip.deep_view(),
                    server_type,
                }
            },
            IncomingMessage::Chat { sender, content } => IncomingMessageView::Chat {
                sender: sender@,
                content: content@,
            },
            IncomingMessage::Status { players, games } => IncomingMessageView::Status {
                players: players.deep_view(),
                games: games.deep_view(),
            },
            IncomingMessage::LifecycleStart {  } => IncomingMessageView::LifecycleStart,
            IncomingMessage::LifecycleStop { crash } => IncomingMessageView::LifecycleStop {
                crash,
            },
            IncomingMessage::Performance(performance) => IncomingMessageView::Performance(
                performance@,
            ),
            IncomingMessage::SystemMessage { content } => IncomingMessageView::SystemMessage {
                content: content@,
            },
            IncomingMessage::UploadStatistics { bundle, game_id } => {
                IncomingMessageView::UploadStatistics { bundle: json_of(bundle), game_id }
            },
        }
    }
}

impl DeepView for IncomingMessage {
    type V = IncomingMessageView;

    open spec fn deep_view(&self) -> IncomingMessageView {
        self@
    }
}

/// The number that the `uuid` crate reads from a text, if it accepts the
/// text as a UUID.
pub uninterp spec fn uuid_parsed(text: Seq<char>) -> Option<u128>;

/// `Uuid::parse_str` followed by `Uuid::as_u128`: reads a UUID in any of the
/// notations the `uuid` crate accepts. The outcome depends on the text alone.
#[verifier::external_body]
pub(crate) fn parse_uuid(text: &str) -> (result: Option<u128>)
    ensures
        result == uuid_parsed(text@),
{
    match uuid::Uuid::parse_str(text) {
        Ok(id) => Some(id.as_u128()),
        Err(_) => None,
    }
}

/// A member that has to be a string.
pub open spec fn text_member(body: Json, key: Seq<char>) -> Option<Seq<char>> {
    match body.member(key) {
        Some(Json::String(text)) => Some(text),
        _ => None,
    }
}

/// A member that may be a string, may be `null` and may be missing. The outer
/// `None` stands for a member of another kind.
pub open spec fn optional_text_member(body: Json, key: Seq<char>) -> Option<Option<Seq<char>>> {
    match body.member(key) {
        None => Some(None),
        Some(Json::Null) => Some(None),
        Some(Json::String(text)) => Some(Some(text)),
        Some(_) => None,
    }
}

/// A member that has to be a boolean.
pub open spec fn bool_member(body: Json, key: Seq<char>) -> Option<bool> {
    match body.member(key) {
        Some(Json::Bool(b)) => Some(b),
        _ => None,
    }
}

/// A member that has to be an integer between `0` and `max`.
pub open spec fn natural_member(body: Json, key: Seq<char>, max: int) -> Option<int> {
    match body.member(key) {
        Some(json) => json.natural(max),
        None => None,
    }
}

/// The kind of server that a text names.
pub open spec fn server_type_named(name: Seq<char>) -> Option<ServerType> {
    if name == "minecraft"@ {
        Some(ServerType::Minecraft)
    } else if name == "velocity"@ {
        Some(ServerType::Velocity)
    } else {
        None
    }
}

/// The optional member `server_type`. The outer `None` stands for a member
/// that names no kind of server.
pub open spec fn server_type_member(body: Json) -> Option<Option<ServerType>> {
    match optional_text_member(body, "server_type"@) {
        None => None,
        Some(None) => Some(None),
        Some(Some(name)) => match server_type_named(name) {
            Some(server_type) => Some(Some(server_type)),
            None => None,
        },
    }
}

/// The player that a JSON value describes.
pub open spec fn player_of(json: Json) -> Option<PlayerView> {
    match (text_member(json, "id"@), text_member(json, "name"@)) {
        (Some(id), Some(name)) => Some(PlayerView { id, name }),
        _ => None,
    }
}

/// The game that a JSON value describes.
pub open spec fn game_of(json: Json) -> Option<GameView> {
    match (
        text_member(json, "name"@),
        text_member(json, "type"@),
        natural_member(json, "player_count"@, u16::MAX as int),
    ) {
        (Some(name), Some(ty), Some(player_count)) => Some(
            GameView { name, ty, player_count: player_count as u16 },
        ),
        _ => None,
    }
}

/// The players that a list of JSON values describes, if each describes one.
pub open spec fn players_of(items: Seq<Json>) -> Option<Seq<PlayerView>> {
    if forall|i: int| 0 <= i < items.len() ==> player_of(#[trigger] items[i]) is Some {
        Some(items.map_values(|item: Json| player_of(item)->0))
    } else {
        None
    }
}

/// The games that a list of JSON values describes, if each describes one.
pub open spec fn games_of(items: Seq<Json>) -> Option<Seq<GameView>> {
    if forall|i: int| 0 <= i < items.len() ==> game_of(#[trigger] items[i]) is Some {
        Some(items.map_values(|item: Json| game_of(item)->0))
    } else {
        None
    }
}

/// The optional member `players` of a status. The outer `None` stands for a
/// member that is no list of players.
pub open spec fn players_member(body: Json) -> Option<Option<Seq<PlayerView>>> {
    match body.member("players"@) {
        None => Some(None),
        Some(Json::Null) => Some(None),
        Some(Json::Array(items)) => match players_of(items) {
            Some(players) => Some(Some(players)),
            None => None,
        },
        Some(_) => None,
    }
}

/// The optional member `games` of a status. The outer `None` stands for a
/// member that is no list of games.
pub open spec fn games_member(body: Json) -> Option<Option<Seq<GameView>>> {
    match body.member("games"@) {
        None => Some(None),
        Some(Json::Null) => Some(None),
        Some(Json::Array(items)) => match games_of(items) {
            Some(games) => Some(Some(games)),
            None => None,
        },
        Some(_) => None,
    }
}

/// The body of a `handshake`.
pub open spec fn handshake_of(body: Json) -> Option<IncomingMessageView> {
    match (
        text_member(body, "channel"@),
        text_member(body, "game_version"@),
        optional_text_member(body, "server_ip"@),
        server_type_member(body),
    ) {
        (Some(channel), Some(game_version), Some(server_ip), Some(server_type)) => Some(
            IncomingMessageView::Handshake { channel, game_version, server_ip, server_type },
        ),
        _ => None,
    }
}

/// The body of a `chat`.
pub open spec fn chat_of(body: Json) -> Option<IncomingMessageView> {
    match (body.member("sender"@), text_member(body, "content"@)) {
        (Some(sender), Some(content)) => match player_of(sender) {
            Some(sender) => Some(IncomingMessageView::Chat { sender, content }),
            None => None,
        },
        _ => None,
    }
}

/// The body of a `status`.
pub open spec fn status_of(body: Json) -> Option<IncomingMessageView> {
    if body is Object {
        match (players_member(body), games_member(body)) {
            (Some(players), Some(games)) => Some(IncomingMessageView::Status { players, games }),
            _ => None,
        }
    } else {
        None
    }
}

/// The body of a `lifecycle_start`.
pub open spec fn lifecycle_start_of(body: Json) -> Option<IncomingMessageView> {
    if body is Object {
        Some(IncomingMessageView::LifecycleStart)
    } else {
        None
    }
}

/// The body of a `lifecycle_stop`.
pub open spec fn lifecycle_stop_of(body: Json) -> Option<IncomingMessageView> {
    match bool_member(body, "crash"@) {
        Some(crash) => Some(IncomingMessageView::LifecycleStop { crash }),
        None => None,
    }
}

/// The body of a `performance`.
pub open spec fn performance_of(body: Json) -> Option<IncomingMessageView> {
    match (
        body.member("average_tick_ms"@),
        natural_member(body, "tps"@, u8::MAX as int),
        natural_member(body, "dimensions"@, u16::MAX as int),
        natural_member(body, "entities"@, u32::MAX as int),
        natural_member(body, "chunks"@, u32::MAX as int),
        natural_member(body, "used_memory"@, u64::MAX as int),
        natural_member(body, "total_memory"@, u64::MAX as int),
    ) {
        (
            Some(Json::Number(average_tick_ms)),
            Some(tps),
            Some(dimensions),
            Some(entities),
            Some(chunks),
            Some(used_memory),
            Some(total_memory),
        ) => Some(
            IncomingMessageView::Performance(
                ServerPerformanceView {
                    average_tick_ms,
                    tps: tps as u8,
                    dimensions: dimensions as u16,
                    entities: entities as u32,
                    chunks: chunks as u32,
                    used_memory: used_memory as u64,
                    total_memory: total_memory as u64,
                },
            ),
        ),
        _ => None,
    }
}

/// The body of a `system`.
pub open spec fn system_message_of(body: Json) -> Option<IncomingMessageView> {
    match text_member(body, "content"@) {
        Some(content) => Some(IncomingMessageView::SystemMessage { content }),
        None => None,
    }
}

/// The body of an `upload_statistics`.
pub open spec fn upload_statistics_of(body: Json) -> Option<IncomingMessageView> {
    match (body.member("bundle"@), text_member(body, "game_id"@)) {
        (Some(bundle), Some(game_id)) => match uuid_parsed(game_id) {
            Some(game_id) => Some(IncomingMessageView::UploadStatistics { bundle, game_id }),
            None => None,
        },
        _ => None,
    }
}

/// Whether `tag` names a kind of incoming message.
pub open spec fn is_known_type(tag: Seq<char>) -> bool {
    tag == "handshake"@ || tag == "chat"@ || tag == "status"@ || tag == "lifecycle_start"@ || tag
        == "lifecycle_stop"@ || tag == "performance"@ || tag == "system"@ || tag
        == "upload_statistics"@
}

/// The message that a body of the kind named `tag` holds; `None` for a body
/// that is not of the shape of its kind.
pub open spec fn body_of(tag: Seq<char>, body: Json) -> Option<IncomingMessageView> {
    if tag == "handshake"@ {
        handshake_of(body)
    } else if tag == "chat"@ {
        chat_of(body)
    } else if tag == "status"@ {
        status_of(body)
    } else if tag == "lifecycle_start"@ {
        lifecycle_start_of(body)
    } else if tag == "lifecycle_stop"@ {
        lifecycle_stop_of(body)
    } else if tag == "performance"@ {
        performance_of(body)
    } else if tag == "system"@ {
        system_message_of(body)
    } else if tag == "upload_statistics"@ {
        upload_statistics_of(body)
    } else {
        None
    }
}

/// The message that a JSON value holds: an object whose `type` names the kind
/// of message and whose `body` is of the shape of that kind. Members that the
/// protocol does not name are ignored.
pub open spec fn message_of(json: Json) -> Result<IncomingMessageView, JsonError> {
    match json.member("type"@) {
        Some(Json::String(tag)) => if !is_known_type(tag) {
            Err(JsonError::UnknownType)
        } else {
            match json.member("body"@) {
                Some(body) => match body_of(tag, body) {
                    Some(message) => Ok(message),
                    None => Err(JsonError::Body),
                },
                None => Err(JsonError::Body),
            }
        },
        _ => Err(JsonError::Envelope),
    }
}

/// The message that a frame holds.
pub open spec fn frame_message(frame: Seq<u8>) -> Result<IncomingMessageView, ProtocolError> {
    match parsed(frame) {
        None => Err(ProtocolError::Json(JsonError::Syntax)),
        Some(json) => match message_of(json) {
            Ok(message) => Ok(message),
            Err(error) => Err(ProtocolError::Json(error)),
        },
    }
}


fn read_text(body: &serde_json::Value, key: &str) -> (result: Option<String>)
    ensures
        result.deep_view() == text_member(json_of(*body), key@),
{
    match member(body, key) {
        Some(found) => match as_text(found) {
            Some(text) => Some(text.to_owned()),
            None => None,
        },
        None => None,
    }
}

fn read_optional_text(body: &serde_json::Value, key: &str) -> (result: Option<Option<String>>)
    ensures
        result.deep_view() == optional_text_member(json_of(*body), key@),
{
    match member(body, key) {
        None => Some(None),
        Some(found) => {
            if is_null(found) {
                Some(None)
            } else {
                match as_text(found) {
                    Some(text) => Some(Some(text.to_owned())),
                    None => None,
                }
            }
        },
    }
}

fn read_bool(body: &serde_json::Value, key: &str) -> (result: Option<bool>)
    ensures
        result == bool_member(json_of(*body), key@),
{
    match member(body, key) {
        Some(found) => as_bool(found),
        None => None,
    }
}

fn read_natural(body: &serde_json::Value, key: &str, max: u64) -> (result: Option<u64>)
    ensures
        match natural_member(json_of(*body), key@, max as int) {
            Some(n) => result == Some(n as u64),
            None => result is None,
        },
{
    match member(body, key) {
        Some(found) => match as_u64(found) {
            Some(n) => if n <= max {
                Some(n)
            } else {
                None
            },
            None => None,
        },
        None => None,
    }
}

fn read_server_type(body: &serde_json::Value) -> (result: Option<Option<ServerType>>)
    ensures
        result == server_type_member(json_of(*body)),
{
    match read_optional_text(body, "server_type") {
        None => None,
        Some(None) => Some(None),
        Some(Some(name)) => {
            if same_text(name.as_str(), "minecraft") {
                Some(Some(ServerType::Minecraft))
            } else if same_text(name.as_str(), "velocity") {
                Some(Some(ServerType::Velocity))
            } else {
                None
            }
        },
    }
}

fn read_player(json: &serde_json::Value) -> (result: Option<Player>)
    ensures
        result.deep_view() == player_of(json_of(*json)),
{
    let id = read_text(json, "id");
    let name = read_text(json, "name");
    match (id, name) {
        (Some(id), Some(name)) => Some(Player { id, name }),
        _ => None,
    }
}

fn read_game(json: &serde_json::Value) -> (result: Option<Game>)
    ensures
        result.deep_view() == game_of(json_of(*json)),
{
    let name = read_text(json, "name");
    let ty = read_text(json, "type");
    let player_count = read_natural(json, "player_count", 65535);
    match (name, ty, player_count) {
        (Some(name), Some(ty), Some(player_count)) => Some(
            Game { name, ty, player_count: player_count as u16 },
        ),
        _ => None,
    }
}

fn read_players(items: &Vec<serde_json::Value>) -> (result: Option<Vec<Player>>)
    ensures
        result.deep_view() == players_of(jsons_of(items@)),
{
    let ghost jsons = jsons_of(items@);
    let mut players: Vec<Player> = Vec::new();
    let mut i: usize = 0;
    while i < items.len()
        invariant
            i <= items@.len(),
            jsons == jsons_of(items@),
            players@.len() == i,
            forall|j: int| 0 <= j < i ==> player_of(#[trigger] jsons[j]) == Some(players@[j]@),
        decreases items@.len() - i,
    {
        match read_player(&items[i]) {
            Some(player) => {
                players.push(player);
            },
            None => {
                assert(player_of(jsons[i as int]) is None);
                return None;
            },
        }
        i += 1;
    }
    assert(players.deep_view() =~= jsons.map_values(|item: Json| player_of(item)->0));
    Some(players)
}

fn read_games(items: &Vec<serde_json::Value>) -> (result: Option<Vec<Game>>)
    ensures
        result.deep_view() == games_of(jsons_of(items@)),
{
    let ghost jsons = jsons_of(items@);
    let mut games: Vec<Game> = Vec::new();
    let mut i: usize = 0;
    while i < items.len()
        invariant
            i <= items@.len(),
            jsons == jsons_of(items@),
            games@.len() == i,
            forall|j: int| 0 <= j < i ==> game_of(#[trigger] jsons[j]) == Some(games@[j]@),
        decreases items@.len() - i,
    {
        match read_game(&items[i]) {
            Some(game) => {
                games.push(game);
            },
            None => {
                assert(game_of(jsons[i as int]) is None);
                return None;
            },
        }
        i += 1;
    }
    assert(games.deep_view() =~= jsons.map_values(|item: Json| game_of(item)->0));
    Some(games)
}

fn read_players_member(body: &serde_json::Value) -> (result: Option<Option<Vec<Player>>>)
    ensures
        result.deep_view() == players_member(json_of(*body)),
{
    match member(body, "players") {
        None => Some(None),
        Some(found) => {
            if is_null(found) {
                Some(None)
            } else {
                match as_array(found) {
                    Some(items) => match read_players(items) {
                        Some(players) => Some(Some(players)),
                        None => None,
                    },
                    None => None,
                }
            }
        },
    }
}

fn read_games_member(body: &serde_json::Value) -> (result: Option<Option<Vec<Game>>>)
    ensures
        result.deep_view() == games_member(json_of(*body)),
{
    match member(body, "games") {
        None => Some(None),
        Some(found) => {
            if is_null(found) {
                Some(None)
            } else {
                match as_array(found) {
                    Some(items) => match read_games(items) {
                        Some(games) => Some(Some(games)),
                        None => None,
                    },
                    None => None,
                }
            }
        },
    }
}

fn read_handshake(body: &serde_json::Value) -> (result: Option<IncomingMessage>)
    ensures
        result.deep_view() == handshake_of(json_of(*body)),
{
    let channel = read_text(body, "channel");
    let game_version = read_text(body, "game_version");
    let server_ip = read_optional_text(body, "server_ip");
    let server_type = read_server_type(body);
    match (channel, game_version, server_ip, server_type) {
        (Some(channel), Some(game_version), Some(server_ip), Some(server_type)) => Some(
            IncomingMessage::Handshake { channel, game_version, server_ip, server_type },
        ),
        _ => None,
    }
}

fn read_chat(body: &serde_json::Value) -> (result: Option<IncomingMessage>)
    ensures
        result.deep_view() == chat_of(json_of(*body)),
{
    let sender = member(body, "sender");
    let content = read_text(body, "content");
    match (sender, content) {
        (Some(sender), Some(content)) => match read_player(sender) {
            Some(sender) => Some(IncomingMessage::Chat { sender, content }),
            None => None,
        },
        _ => None,
    }
}

fn read_status(body: &serde_json::Value) -> (result: Option<IncomingMessage>)
    ensures
        result.deep_view() == status_of(json_of(*body)),
{
    if !is_object(body) {
        return None;
    }
    let players = read_players_member(body);
    let games = read_games_member(body);
    match (players, games) {
        (Some(players), Some(games)) => Some(IncomingMessage::Status { players, games }),
        _ => None,
    }
}

fn read_lifecycle_start(body: &serde_json::Value) -> (result: Option<IncomingMessage>)
    ensures
        result.deep_view() == lifecycle_start_of(json_of(*body)),
{
    if is_object(body) {
        Some(IncomingMessage::LifecycleStart {  })
    } else {
        None
    }
}

fn read_lifecycle_stop(body: &serde_json::Value) -> (result: Option<IncomingMessage>)
    ensures
        result.deep_view() == lifecycle_stop_of(json_of(*body)),
{
    match read_bool(body, "crash") {
        Some(crash) => Some(IncomingMessage::LifecycleStop { crash }),
        None => None,
    }
}

fn read_performance(body: &serde_json::Value) -> (result: Option<IncomingMessage>)
    ensures
        result.deep_view() == performance_of(json_of(*body)),
{
    let average_tick_ms = match member(body, "average_tick_ms") {
        Some(found) => as_number(found),
        None => None,
    };
    let tps = read_natural(body, "tps", 255);
    let dimensions = read_natural(body, "dimensions", 65535);
    let entities = read_natural(body, "entities", 4294967295);
    let chunks = read_natural(body, "chunks", 4294967295);
    let used_memory = read_natural(body, "used_memory", u64::MAX);
    let total_memory = read_natural(body, "total_memory", u64::MAX);
    match (average_tick_ms, tps, dimensions, entities, chunks, used_memory, total_memory) {
        (
            Some(average_tick_ms),
            Some(tps),
            Some(dimensions),
            Some(entities),
            Some(chunks),
            Some(used_memory),
            Some(total_memory),
        ) => Some(
            IncomingMessage::Performance(
                ServerPerformance {
                    average_tick_ms,
                    tps: tps as u8,
                    dimensions: dimensions as u16,
                    entities: entities as u32,
                    chunks: chunks as u32,
                    used_memory,
                    total_memory,
                },
            ),
        ),
        _ => None,
    }
}

fn read_system_message(body: &serde_json::Value) -> (result: Option<IncomingMessage>)
    ensures
        result.deep_view() == system_message_of(json_of(*body)),
{
    match read_text(body, "content") {
        Some(content) => Some(IncomingMessage::SystemMessage { content }),
        None => None,
    }
}

fn read_upload_statistics(body: &serde_json::Value) -> (result: Option<IncomingMessage>)
    ensures
        result.deep_view() == upload_statistics_of(json_of(*body)),
{
    let bundle = member(body, "bundle");
    let game_id = read_text(body, "game_id");
    match (bundle, game_id) {
        (Some(bundle), Some(game_id)) => match parse_uuid(game_id.as_str()) {
            Some(game_id) => Some(
                IncomingMessage::UploadStatistics { bundle: duplicate(bundle), game_id },
            ),
            None => None,
        },
        _ => None,
    }
}

fn known_type(tag: &str) -> (known: bool)
    ensures
        known == is_known_type(tag@),
{
    same_text(tag, "handshake") || same_text(tag, "chat") || same_text(tag, "status") || same_text(
        tag,
        "lifecycle_start",
    ) || same_text(tag, "lifecycle_stop") || same_text(tag, "performance") || same_text(
        tag,
        "system",
    ) || same_text(tag, "upload_statistics")
}

fn read_body(tag: &str, body: &serde_json::Value) -> (result: Option<IncomingMessage>)
    ensures
        result.deep_view() == body_of(tag@, json_of(*body)),
{
    if same_text(tag, "handshake") {
        read_handshake(body)
    } else if same_text(tag, "chat") {
        read_chat(body)
    } else if same_text(tag, "status") {
        read_status(body)
    } else if same_text(tag, "lifecycle_start") {
        read_lifecycle_start(body)
    } else if same_text(tag, "lifecycle_stop") {
        read_lifecycle_stop(body)
    } else if same_text(tag, "performance") {
        read_performance(body)
    } else if same_text(tag, "system") {
        read_system_message(body)
    } else if same_text(tag, "upload_statistics") {
        read_upload_statistics(body)
    } else {
        None
    }
}

/// Reads the message that a JSON value holds.
///
/// The value has to be an object with a string `type` that names a kind of
/// message, and a `body` of the shape of that kind; the error says which of
/// these failed first.
pub fn decode_value(value: &serde_json::Value) -> (result: Result<IncomingMessage, JsonError>)
    ensures
        match message_of(json_of(*value)) {
            Ok(message) => result matches Ok(decoded) && decoded@ == message,
            Err(error) => result matches Err(e) && e == error,
        },
{
    let tag = match member(value, "type") {
        Some(found) => match as_text(found) {
            Some(tag) => tag,
            None => {
                return Err(JsonError::Envelope);
            },
        },
        None => {
            return Err(JsonError::Envelope);
        },
    };
    if !known_type(tag) {
        return Err(JsonError::UnknownType);
    }
    match member(value, "body") {
        Some(body) => match read_body(tag, body) {
            Some(message) => Ok(message),
            None => Err(JsonError::Body),
        },
        None => Err(JsonError::Body),
    }
}

/// Reads the message that a frame holds.
///
/// Fails with [`JsonError::Syntax`] where the frame is not JSON text, and as
/// [`decode_value`] does where the text is not a message. Every failure is a
/// [`ProtocolError::Json`]: a frame that cannot be read is never fatal.
pub fn decode_message(frame: &[u8]) -> (result: Result<IncomingMessage, ProtocolError>)
    ensures
        match frame_message(frame@) {
            Ok(message) => result matches Ok(decoded) && decoded@ == message,
            Err(error) => result matches Err(e) && e == error,
        },
{
    match parse(frame) {
        Ok(value) => match decode_value(&value) {
            Ok(message) => Ok(message),
            Err(error) => Err(ProtocolError::Json(error)),
        },
        Err(_) => Err(ProtocolError::Json(JsonError::Syntax)),
    }
}


/// A message from the hub to a game server.
#[derive(Debug, PartialEq, Eq)]
pub enum OutgoingMessage {
    Chat(ChatMessage),
    Command { command: String, sender: String, roles: Vec<String>, silent: bool },
    SendToServer {
        /// The UUID of the player, as text.
        player: String,
        target_server: String,
    },
    SendServerToServer { from_server: String, to_server: String },
}

/// Mathematical value of an [`OutgoingMessage`].
pub enum OutgoingMessageView {
    Chat(ChatMessageView),
    Command { command: Seq<char>, sender: Seq<char>, roles: Seq<Seq<char>>, silent: bool },
    SendToServer { player: Seq<char>, target_server: Seq<char> },
    SendServerToServer { from_server: Seq<char>, to_server: Seq<char> },
}

impl View for OutgoingMessage {
    type V = OutgoingMessageView;

    open spec fn view(&self) -> OutgoingMessageView {
        match *self {
            OutgoingMessage::Chat(chat) => OutgoingMessageView::Chat(chat@),
            OutgoingMessage::Command { command, sender, roles, silent } => {
                OutgoingMessageView::Command {
                    command: command@,
                    sender: sender@,
                    roles: roles.deep_view(),
                    silent,
                }
            },
            OutgoingMessage::SendToServer { player, target_server } => {
                OutgoingMessageView::SendToServer {
                    player: player@,
                    target_server: target_server@,
                }
            },
            OutgoingMessage::SendServerToServer { from_server, to_server } => {
                OutgoingMessageView::SendServerToServer {
                    from_server: from_server@,
                    to_server: to_server@,
                }
            },
        }
    }
}

/// The JSON strings of a list of texts.
pub open spec fn texts_json(texts: Seq<Seq<char>>) -> Seq<Json> {
    texts.map_values(|text: Seq<char>| Json::String(text))
}

/// The JSON object that describes an attachment.
pub open spec fn attachment_json(attachment: ChatAttachmentView) -> Json {
    Json::Object(
        Map::empty().insert("name"@, Json::String(attachment.name)).insert(
            "url"@,
            Json::String(attachment.url),
        ),
    )
}

/// The JSON objects that describe a list of attachments.
pub open spec fn attachments_json(attachments: Seq<ChatAttachmentView>) -> Seq<Json> {
    attachments.map_values(|attachment: ChatAttachmentView| attachment_json(attachment))
}

/// The JSON object that describes a chat message. The colour of the name and
/// the message answered are members only where the message has them.
pub open spec fn chat_json(chat: ChatMessageView) -> Json
    decreases chat,
{
    let plain = Map::empty().insert("sender"@, Json::String(chat.sender)).insert(
        "content"@,
        Json::String(chat.content),
    );
    let coloured = match chat.name_color {
        Some(color) => plain.insert(
            "name_color"@,
            Json::Number(NumberModel::Integer(color as int)),
        ),
        None => plain,
    };
    let attached = coloured.insert("attachments"@, Json::Array(attachments_json(chat.attachments)));
    match chat.replying_to {
        Some(answered) => Json::Object(attached.insert("replying_to"@, chat_json(*answered))),
        None => Json::Object(attached),
    }
}

/// The name by which the wire calls the kind of an outgoing message.
pub open spec fn outgoing_tag(message: OutgoingMessageView) -> Seq<char> {
    match message {
        OutgoingMessageView::Chat(_) => "chat"@,
        OutgoingMessageView::Command { .. } => "command"@,
        OutgoingMessageView::SendToServer { .. } => "send_to_server"@,
        OutgoingMessageView::SendServerToServer { .. } => "send_server_to_server"@,
    }
}

/// The body of an outgoing message.
pub open spec fn outgoing_body(message: OutgoingMessageView) -> Json {
    match message {
        OutgoingMessageView::Chat(chat) => chat_json(chat),
        OutgoingMessageView::Command { command, sender, roles, silent } => Json::Object(
            Map::empty().insert("command"@, Json::String(command)).insert(
                "sender"@,
                Json::String(sender),
            ).insert("roles"@, Json::Array(texts_json(roles))).insert(
                "silent"@,
                Json::Bool(silent),
            ),
        ),
        OutgoingMessageView::SendToServer { player, target_server } => Json::Object(
            Map::empty().insert("player"@, Json::String(player)).insert(
                "target_server"@,
                Json::String(target_server),
            ),
        ),
        OutgoingMessageView::SendServerToServer { from_server, to_server } => Json::Object(
            Map::empty().insert("from_server"@, Json::String(from_server)).insert(
                "to_server"@,
                Json::String(to_server),
            ),
        ),
    }
}

/// The JSON object that carries a body of the kind named `tag`.
pub open spec fn envelope(tag: Seq<char>, body: Json) -> Json {
    Json::Object(Map::empty().insert("type"@, Json::String(tag)).insert("body"@, body))
}

/// The JSON value that stands for an outgoing message: the members of its
/// text by name, whatever their order.
pub open spec fn outgoing_json(message: OutgoingMessageView) -> Json {
    envelope(outgoing_tag(message), outgoing_body(message))
}

fn texts_value(texts: &Vec<String>) -> (result: serde_json::Value)
    ensures
        json_of(result) == Json::Array(texts_json(texts.deep_view())),
{
    let mut items: Vec<serde_json::Value> = Vec::new();
    let mut i: usize = 0;
    while i < texts.len()
        invariant
            i <= texts@.len(),
            items@.len() == i,
            forall|j: int| 0 <= j < i ==> json_of(#[trigger] items@[j]) == Json::String(texts@[j]@),
        decreases texts@.len() - i,
    {
        items.push(text_value(texts[i].clone()));
        i += 1;
    }
    assert(jsons_of(items@) =~= texts_json(texts.deep_view()));
    array_value(items)
}

fn attachment_value(attachment: &ChatAttachment) -> (result: serde_json::Value)
    ensures
        json_of(result) == attachment_json(attachment@),
{
    let mut object = empty_object();
    set_member(&mut object, "name", text_value(attachment.name.clone()));
    set_member(&mut object, "url", text_value(attachment.url.clone()));
    object
}

fn attachments_value(attachments: &Vec<ChatAttachment>) -> (result: serde_json::Value)
    ensures
        json_of(result) == Json::Array(attachments_json(attachments.deep_view())),
{
    let mut items: Vec<serde_json::Value> = Vec::new();
    let mut i: usize = 0;
    while i < attachments.len()
        invariant
            i <= attachments@.len(),
            items@.len() == i,
            forall|j: int|
                0 <= j < i ==> json_of(#[trigger] items@[j]) == attachment_json(attachments@[j]@),
        decreases attachments@.len() - i,
    {
        items.push(attachment_value(&attachments[i]));
        i += 1;
    }
    assert(jsons_of(items@) =~= attachments_json(attachments.deep_view()));
    array_value(items)
}

fn chat_value(chat: &ChatMessage) -> (result: serde_json::Value)
    ensures
        json_of(result) == chat_json(chat@),
    decreases chat,
{
    let mut object = empty_object();
    set_member(&mut object, "sender", text_value(chat.sender.clone()));
    set_member(&mut object, "content", text_value(chat.content.clone()));
    match chat.name_color {
        Some(color) => {
            set_member(&mut object, "name_color", u32_value(color));
        },
        None => {},
    }
    set_member(&mut object, "attachments", attachments_value(&chat.attachments));
    match &chat.replying_to {
        Some(answered) => {
            let inner = chat_value(&**answered);
            set_member(&mut object, "replying_to", inner);
        },
        None => {},
    }
    object
}

/// The JSON value that stands for `message`: an object whose `type` names
/// the kind of message and whose `body` holds its fields by name. It is the
/// value of the message without the order of its members; the text that goes
/// over the wire is that of [`outgoing_bytes`].
pub fn outgoing_value(message: &OutgoingMessage) -> (result: serde_json::Value)
    ensures
        json_of(result) == outgoing_json(message@),
{
    let mut object = empty_object();
    match message {
        OutgoingMessage::Chat(chat) => {
            set_member(&mut object, "type", text_value("chat".to_owned()));
            set_member(&mut object, "body", chat_value(chat));
        },
        OutgoingMessage::Command { command, sender, roles, silent } => {
            let mut body = empty_object();
            set_member(&mut body, "command", text_value(command.clone()));
            set_member(&mut body, "sender", text_value(sender.clone()));
            set_member(&mut body, "roles", texts_value(roles));
            set_member(&mut body, "silent", bool_value(*silent));
            set_member(&mut object, "type", text_value("command".to_owned()));
            set_member(&mut object, "body", body);
        },
        OutgoingMessage::SendToServer { player, target_server } => {
            let mut body = empty_object();
            set_member(&mut body, "player", text_value(player.clone()));
            set_member(&mut body, "target_server", text_value(target_server.clone()));
            set_member(&mut object, "type", text_value("send_to_server".to_owned()));
            set_member(&mut object, "body", body);
        },
        OutgoingMessage::SendServerToServer { from_server, to_server } => {
            let mut body = empty_object();
            set_member(&mut body, "from_server", text_value(from_server.clone()));
            set_member(&mut body, "to_server", text_value(to_server.clone()));
            set_member(&mut object, "type", text_value("send_server_to_server".to_owned()));
            set_member(&mut object, "body", body);
        },
    }
    object
}

/// The bytes of a text.
pub open spec fn utf8(text: Seq<char>) -> Seq<u8> {
    encode_utf8(text)
}

/// A text as a JSON string, quoted and escaped as the JSON printer does it.
pub open spec fn string_text(text: Seq<char>) -> Seq<u8> {
    printed(Json::String(text))
}

/// A number as the JSON printer writes it.
pub open spec fn number_text(n: u32) -> Seq<u8> {
    printed(Json::Number(NumberModel::Integer(n as int)))
}

/// A truth value as the JSON printer writes it.
pub open spec fn bool_text(b: bool) -> Seq<u8> {
    printed(Json::Bool(b))
}

/// The given texts with a comma between each two.
pub open spec fn joined(items: Seq<Seq<u8>>) -> Seq<u8>
    decreases items.len(),
{
    if items.len() == 0 {
        Seq::empty()
    } else if items.len() == 1 {
        items[0]
    } else {
        joined(items.drop_last()) + utf8(","@) + items.last()
    }
}

/// The JSON array of the given texts.
pub open spec fn array_text(items: Seq<Seq<u8>>) -> Seq<u8> {
    utf8("["@) + joined(items) + utf8("]"@)
}

/// The texts of a list of strings.
pub open spec fn string_texts(texts: Seq<Seq<char>>) -> Seq<Seq<u8>> {
    texts.map_values(|text: Seq<char>| string_text(text))
}

/// The text of an attachment: its name, then its address.
pub open spec fn attachment_text(attachment: ChatAttachmentView) -> Seq<u8> {
    utf8("{\"name\":"@) + string_text(attachment.name) + utf8(",\"url\":"@) + string_text(
        attachment.url,
    ) + utf8("}"@)
}

/// The texts of a list of attachments.
pub open spec fn attachment_texts(attachments: Seq<ChatAttachmentView>) -> Seq<Seq<u8>> {
    attachments.map_values(|attachment: ChatAttachmentView| attachment_text(attachment))
}

/// The start of the text of a chat message: its sender and its content.
pub open spec fn chat_head_text(chat: ChatMessageView) -> Seq<u8> {
    utf8("{\"sender\":"@) + string_text(chat.sender) + utf8(",\"content\":"@) + string_text(
        chat.content,
    )
}

/// The colour of a name as a member of a chat message; nothing for no colour.
pub open spec fn color_text(name_color: Option<u32>) -> Seq<u8> {
    match name_color {
        Some(color) => utf8(",\"name_color\":"@) + number_text(color),
        None => Seq::empty(),
    }
}

/// The text of a chat message: sender, content, the colour of the name if
/// there is one, the attachments, and the message answered if there is one,
/// in this order.
pub open spec fn chat_text(chat: ChatMessageView) -> Seq<u8>
    decreases chat,
{
    chat_head_text(chat) + color_text(chat.name_color) + utf8(",\"attachments\":"@) + array_text(
        attachment_texts(chat.attachments),
    ) + match chat.replying_to {
        Some(answered) => utf8(",\"replying_to\":"@) + chat_text(*answered),
        None => Seq::empty(),
    } + utf8("}"@)
}

/// The text of the body of an outgoing message: its fields by name, in the
/// order in which the message declares them.
pub open spec fn body_text(message: OutgoingMessageView) -> Seq<u8> {
    match message {
        OutgoingMessageView::Chat(chat) => chat_text(chat),
        OutgoingMessageView::Command { command, sender, roles, silent } => utf8(
            "{\"command\":"@,
        ) + string_text(command) + utf8(",\"sender\":"@) + string_text(sender) + utf8(
            ",\"roles\":"@,
        ) + array_text(string_texts(roles)) + utf8(",\"silent\":"@) + bool_text(silent) + utf8(
            "}"@,
        ),
        OutgoingMessageView::SendToServer { player, target_server } => utf8("{\"player\":"@)
            + string_text(player) + utf8(",\"target_server\":"@) + string_text(target_server)
            + utf8("}"@),
        OutgoingMessageView::SendServerToServer { from_server, to_server } => utf8(
            "{\"from_server\":"@,
        ) + string_text(from_server) + utf8(",\"to_server\":"@) + string_text(to_server) + utf8(
            "}"@,
        ),
    }
}

/// The JSON text written for an outgoing message: the `type`, then the `body`.
pub open spec fn outgoing_text(message: OutgoingMessageView) -> Seq<u8> {
    utf8("{\"type\":"@) + string_text(outgoing_tag(message)) + utf8(",\"body\":"@) + body_text(
        message,
    ) + utf8("}"@)
}

fn append(out: &mut Vec<u8>, bytes: &[u8])
    ensures
        final(out)@ == old(out)@ + bytes@,
{
    let mut i: usize = 0;
    while i < bytes.len()
        invariant
            i <= bytes@.len(),
            out@ == old(out)@ + bytes@.subrange(0, i as int),
        decreases bytes@.len() - i,
    {
        out.push(bytes[i]);
        i += 1;
        assert(out@ =~= old(out)@ + bytes@.subrange(0, i as int));
    }
    assert(bytes@.subrange(0, bytes@.len() as int) =~= bytes@);
}

fn write_literal(out: &mut Vec<u8>, text: &str)
    ensures
        final(out)@ == old(out)@ + utf8(text@),
{
    append(out, text.as_bytes());
}

fn write_value(out: &mut Vec<u8>, value: &serde_json::Value)
    ensures
        final(out)@ == old(out)@ + printed(json_of(*value)),
{
    match print(value) {
        Ok(text) => {
            append(out, text.as_slice());
        },
        Err(_) => {},
    }
}

fn write_string(out: &mut Vec<u8>, text: &String)
    ensures
        final(out)@ == old(out)@ + string_text(text@),
{
    write_value(out, &text_value(text.clone()));
}

fn write_texts(out: &mut Vec<u8>, texts: &Vec<String>)
    ensures
        final(out)@ == old(out)@ + array_text(string_texts(texts.deep_view())),
{
    let ghost items = string_texts(texts.deep_view());
    write_literal(out, "[");
    let mut i: usize = 0;
    while i < texts.len()
        invariant
            i <= texts@.len(),
            items == string_texts(texts.deep_view()),
            out@ == old(out)@ + utf8("["@) + joined(items.take(i as int)),
        decreases texts@.len() - i,
    {
        let ghost before = out@;
        if i > 0 {
            write_literal(out, ",");
        }
        write_string(out, &texts[i]);
        proof {
            let upto = items.take(i + 1);
            assert(upto.drop_last() =~= items.take(i as int));
            assert(upto.last() == string_text(texts@[i as int]@));
            assert(out@ =~= old(out)@ + utf8("["@) + joined(upto));
        }
        i += 1;
    }
    assert(items.take(texts@.len() as int) =~= items);
    write_literal(out, "]");
    assert(out@ =~= old(out)@ + array_text(items));
}

fn write_attachment(out: &mut Vec<u8>, attachment: &ChatAttachment)
    ensures
        final(out)@ == old(out)@ + attachment_text(attachment@),
{
    write_literal(out, "{\"name\":");
    write_string(out, &attachment.name);
    write_literal(out, ",\"url\":");
    write_string(out, &attachment.url);
    write_literal(out, "}");
    assert(out@ =~= old(out)@ + attachment_text(attachment@));
}

fn write_attachments(out: &mut Vec<u8>, attachments: &Vec<ChatAttachment>)
    ensures
        final(out)@ == old(out)@ + array_text(attachment_texts(attachments.deep_view())),
{
    let ghost items = attachment_texts(attachments.deep_view());
    write_literal(out, "[");
    let mut i: usize = 0;
    while i < attachments.len()
        invariant
            i <= attachments@.len(),
            items == attachment_texts(attachments.deep_view()),
            out@ == old(out)@ + utf8("["@) + joined(items.take(i as int)),
        decreases attachments@.len() - i,
    {
        if i > 0 {
            write_literal(out, ",");
        }
        write_attachment(out, &attachments[i]);
        proof {
            let upto = items.take(i + 1);
            assert(upto.drop_last() =~= items.take(i as int));
            assert(upto.last() == attachment_text(attachments@[i as int]@));
            assert(out@ =~= old(out)@ + utf8("["@) + joined(upto));
        }
        i += 1;
    }
    assert(items.take(attachments@.len() as int) =~= items);
    write_literal(out, "]");
    assert(out@ =~= old(out)@ + array_text(items));
}

fn write_chat_head(out: &mut Vec<u8>, chat: &ChatMessage)
    ensures
        final(out)@ == old(out)@ + chat_head_text(chat@),
{
    write_literal(out, "{\"sender\":");
    write_string(out, &chat.sender);
    write_literal(out, ",\"content\":");
    write_string(out, &chat.content);
    assert(out@ =~= old(out)@ + chat_head_text(chat@));
}

fn write_color(out: &mut Vec<u8>, name_color: Option<u32>)
    ensures
        final(out)@ == old(out)@ + color_text(name_color),
{
    match name_color {
        Some(color) => {
            write_literal(out, ",\"name_color\":");
            write_value(out, &u32_value(color));
        },
        None => {},
    }
    assert(out@ =~= old(out)@ + color_text(name_color));
}

fn write_chat(out: &mut Vec<u8>, chat: &ChatMessage)
    ensures
        final(out)@ == old(out)@ + chat_text(chat@),
    decreases chat,
{
    let ghost start = out@;
    let ghost head = chat_head_text(chat@);
    let ghost color = color_text(chat.name_color);
    let ghost list = array_text(attachment_texts(chat.attachments.deep_view()));
    write_chat_head(out, chat);
    write_color(out, chat.name_color);
    assert(out@ =~= start + (head + color));
    write_literal(out, ",\"attachments\":");
    assert(out@ =~= start + (head + color + utf8(",\"attachments\":"@)));
    write_attachments(out, &chat.attachments);
    assert(out@ =~= start + (head + color + utf8(",\"attachments\":"@) + list));
    let ghost upto = head + color + utf8(",\"attachments\":"@) + list;
    match &chat.replying_to {
        Some(answered) => {
            write_literal(out, ",\"replying_to\":");
            write_chat(out, &**answered);
            assert(out@ =~= start + (upto + (utf8(",\"replying_to\":"@) + chat_text(
                (**answered)@,
            ))));
            write_literal(out, "}");
            assert(out@ =~= start + (upto + (utf8(",\"replying_to\":"@) + chat_text(
                (**answered)@,
            )) + utf8("}"@)));
        },
        None => {
            write_literal(out, "}");
            assert(out@ =~= start + (upto + Seq::<u8>::empty() + utf8("}"@)));
        },
    }
}

fn write_body(out: &mut Vec<u8>, message: &OutgoingMessage)
    ensures
        final(out)@ == old(out)@ + body_text(message@),
{
    match message {
        OutgoingMessage::Chat(chat) => {
            write_chat(out, chat);
        },
        OutgoingMessage::Command { command, sender, roles, silent } => {
            write_literal(out, "{\"command\":");
            write_string(out, command);
            write_literal(out, ",\"sender\":");
            write_string(out, sender);
            write_literal(out, ",\"roles\":");
            write_texts(out, roles);
            write_literal(out, ",\"silent\":");
            write_value(out, &bool_value(*silent));
            write_literal(out, "}");
        },
        OutgoingMessage::SendToServer { player, target_server } => {
            write_literal(out, "{\"player\":");
            write_string(out, player);
            write_literal(out, ",\"target_server\":");
            write_string(out, target_server);
            write_literal(out, "}");
        },
        OutgoingMessage::SendServerToServer { from_server, to_server } => {
            write_literal(out, "{\"from_server\":");
            write_string(out, from_server);
            write_literal(out, ",\"to_server\":");
            write_string(out, to_server);
            write_literal(out, "}");
        },
    }
    assert(out@ =~= old(out)@ + body_text(message@));
}

/// The name by which the wire calls the kind of `message`.
fn tag_of(message: &OutgoingMessage) -> (tag: String)
    ensures
        tag@ == outgoing_tag(message@),
{
    match message {
        OutgoingMessage::Chat(_) => "chat".to_owned(),
        OutgoingMessage::Command { .. } => "command".to_owned(),
        OutgoingMessage::SendToServer { .. } => "send_to_server".to_owned(),
        OutgoingMessage::SendServerToServer { .. } => "send_server_to_server".to_owned(),
    }
}

/// The JSON text of `message`: an object with the `type` that names the
/// kind of message, then the `body` with the fields of the message by name,
/// in the order in which the message declares them. Strings and numbers are
/// written by the JSON printer; nothing stands between the parts.
pub fn outgoing_bytes(message: &OutgoingMessage) -> (text: Vec<u8>)
    ensures
        text@ == outgoing_text(message@),
{
    let mut text: Vec<u8> = Vec::new();
    write_literal(&mut text, "{\"type\":");
    write_string(&mut text, &tag_of(message));
    write_literal(&mut text, ",\"body\":");
    write_body(&mut text, message);
    write_literal(&mut text, "}");
    assert(text@ =~= outgoing_text(message@));
    text
}

/// Writes `message` as one frame: its JSON text behind the length of that
/// text. A message whose text is longer than a frame may be is refused.
pub fn encode_message(message: &OutgoingMessage) -> (result: Result<Vec<u8>, ProtocolError>)
    ensures
        outgoing_text(message@).len() <= MAX_FRAME_LENGTH ==> (result matches Ok(frame) && frame@
            == frame_of(outgoing_text(message@))),
        outgoing_text(message@).len() > MAX_FRAME_LENGTH ==> (result matches Err(e) && e
            == ProtocolError::Io(
            IoError::Frame(
                FrameError::FrameTooLarge { length: outgoing_text(message@).len() as usize },
            ),
        )),
{
    let text = outgoing_bytes(message);
    match encode_frame(text.as_slice()) {
        Ok(frame) => Ok(frame),
        Err(error) => Err(ProtocolError::Io(IoError::Frame(error))),
    }
}

/// The names of the members of messages and the names of the kinds of
/// outgoing messages differ from one another wherever they stand side by side.
proof fn lemma_names_differ()
    ensures
        "type"@ != "body"@,
        "name"@ != "url"@,
        "sender"@ != "content"@,
        "sender"@ != "name_color"@,
        "sender"@ != "attachments"@,
        "sender"@ != "replying_to"@,
        "content"@ != "name_color"@,
        "content"@ != "attachments"@,
        "content"@ != "replying_to"@,
        "name_color"@ != "attachments"@,
        "name_color"@ != "replying_to"@,
        "attachments"@ != "replying_to"@,
        "command"@ != "sender"@,
        "command"@ != "roles"@,
        "command"@ != "silent"@,
        "sender"@ != "roles"@,
        "sender"@ != "silent"@,
        "roles"@ != "silent"@,
        "player"@ != "target_server"@,
        "from_server"@ != "to_server"@,
        "chat"@ != "command"@,
        "chat"@ != "send_to_server"@,
        "chat"@ != "send_server_to_server"@,
        "command"@ != "send_to_server"@,
        "command"@ != "send_server_to_server"@,
        "send_to_server"@ != "send_server_to_server"@,
{
    reveal_strlit("type");
    reveal_strlit("body");
    reveal_strlit("name");
    reveal_strlit("url");
    reveal_strlit("sender");
    reveal_strlit("content");
    reveal_strlit("name_color");
    reveal_strlit("attachments");
    reveal_strlit("replying_to");
    reveal_strlit("command");
    reveal_strlit("roles");
    reveal_strlit("silent");
    reveal_strlit("player");
    reveal_strlit("target_server");
    reveal_strlit("from_server");
    reveal_strlit("to_server");
    reveal_strlit("chat");
    reveal_strlit("send_to_server");
    reveal_strlit("send_server_to_server");
    assert("type"@.len() == 4);
    assert("body"@.len() == 4);
    assert("name"@.len() == 4);
    assert("url"@.len() == 3);
    assert("sender"@.len() == 6);
    assert("content"@.len() == 7);
    assert("name_color"@.len() == 10);
    assert("attachments"@.len() == 11);
    assert("replying_to"@.len() == 11);
    assert("command"@.len() == 7);
    assert("roles"@.len() == 5);
    assert("silent"@.len() == 6);
    assert("player"@.len() == 6);
    assert("target_server"@.len() == 13);
    assert("from_server"@.len() == 11);
    assert("to_server"@.len() == 9);
    assert("chat"@.len() == 4);
    assert("send_to_server"@.len() == 14);
    assert("send_server_to_server"@.len() == 21);
    assert("type"@[0] != "body"@[0]);
    assert("attachments"@[0] != "replying_to"@[0]);
    assert("sender"@[1] != "silent"@[1]);
}

/// The envelope of an outgoing message gives back its kind and its body.
pub proof fn lemma_envelope_members(message: OutgoingMessageView)
    ensures
        outgoing_json(message).member("type"@) == Some(Json::String(outgoing_tag(message))),
        outgoing_json(message).member("body"@) == Some(outgoing_body(message)),
{
    lemma_names_differ();
}

/// The kinds of outgoing messages have names of their own.
pub proof fn lemma_outgoing_tag_tells_kind(a: OutgoingMessageView, b: OutgoingMessageView)
    requires
        outgoing_tag(a) == outgoing_tag(b),
    ensures
        a is Chat <==> b is Chat,
        a is Command <==> b is Command,
        a is SendToServer <==> b is SendToServer,
        a is SendServerToServer <==> b is SendServerToServer,
{
    lemma_names_differ();
}

proof fn lemma_texts_json_injective(a: Seq<Seq<char>>, b: Seq<Seq<char>>)
    requires
        texts_json(a) == texts_json(b),
    ensures
        a == b,
{
    assert(a.len() == texts_json(a).len());
    assert(b.len() == texts_json(b).len());
    assert forall|i: int| 0 <= i < a.len() implies a[i] == b[i] by {
        assert(texts_json(a)[i] == Json::String(a[i]));
        assert(texts_json(b)[i] == Json::String(b[i]));
    }
    assert(a =~= b);
}

proof fn lemma_attachment_json_injective(a: ChatAttachmentView, b: ChatAttachmentView)
    requires
        attachment_json(a) == attachment_json(b),
    ensures
        a == b,
{
    lemma_names_differ();
    assert(attachment_json(a).member("name"@) == Some(Json::String(a.name)));
    assert(attachment_json(b).member("name"@) == Some(Json::String(b.name)));
    assert(attachment_json(a).member("url"@) == Some(Json::String(a.url)));
    assert(attachment_json(b).member("url"@) == Some(Json::String(b.url)));
}

proof fn lemma_attachments_json_injective(
    a: Seq<ChatAttachmentView>,
    b: Seq<ChatAttachmentView>,
)
    requires
        attachments_json(a) == attachments_json(b),
    ensures
        a == b,
{
    assert(a.len() == attachments_json(a).len());
    assert(b.len() == attachments_json(b).len());
    assert forall|i: int| 0 <= i < a.len() implies a[i] == b[i] by {
        assert(attachments_json(a)[i] == attachment_json(a[i]));
        assert(attachments_json(b)[i] == attachment_json(b[i]));
        lemma_attachment_json_injective(a[i], b[i]);
    }
    assert(a =~= b);
}

/// What `chat_json` writes under each name.
proof fn lemma_chat_json_members(chat: ChatMessageView)
    ensures
        chat_json(chat).member("sender"@) == Some(Json::String(chat.sender)),
        chat_json(chat).member("content"@) == Some(Json::String(chat.content)),
        chat_json(chat).member("name_color"@) == match chat.name_color {
            Some(color) => Some(Json::Number(NumberModel::Integer(color as int))),
            None => None,
        },
        chat_json(chat).member("attachments"@) == Some(
            Json::Array(attachments_json(chat.attachments)),
        ),
        chat_json(chat).member("replying_to"@) == match chat.replying_to {
            Some(answered) => Some(chat_json(*answered)),
            None => None,
        },
{
    lemma_names_differ();
}

/// Chat messages that are written alike are alike.
pub proof fn lemma_chat_json_injective(a: ChatMessageView, b: ChatMessageView)
    requires
        chat_json(a) == chat_json(b),
    ensures
        a == b,
    decreases a,
{
    lemma_chat_json_members(a);
    lemma_chat_json_members(b);
    lemma_attachments_json_injective(a.attachments, b.attachments);
    match (a.replying_to, b.replying_to) {
        (Some(x), Some(y)) => {
            lemma_chat_json_injective(*x, *y);
        },
        _ => {},
    }
}

/// No two messages stand for the same JSON value: the value names the kind
/// of the message and holds every field of its body.
pub proof fn lemma_outgoing_json_injective(a: OutgoingMessageView, b: OutgoingMessageView)
    requires
        outgoing_json(a) == outgoing_json(b),
    ensures
        a == b,
{
    lemma_names_differ();
    lemma_envelope_members(a);
    lemma_envelope_members(b);
    lemma_outgoing_tag_tells_kind(a, b);
    let body = outgoing_body(a);
    assert(body == outgoing_body(b));
    match (a, b) {
        (OutgoingMessageView::Chat(x), OutgoingMessageView::Chat(y)) => {
            lemma_chat_json_injective(x, y);
        },
        (
            OutgoingMessageView::Command { command, sender, roles, silent },
            OutgoingMessageView::Command {
                command: command2,
                sender: sender2,
                roles: roles2,
                silent: silent2,
            },
        ) => {
            assert(body.member("command"@) == Some(Json::String(command)));
            assert(body.member("command"@) == Some(Json::String(command2)));
            assert(body.member("sender"@) == Some(Json::String(sender)));
            assert(body.member("sender"@) == Some(Json::String(sender2)));
            assert(body.member("roles"@) == Some(Json::Array(texts_json(roles))));
            assert(body.member("roles"@) == Some(Json::Array(texts_json(roles2))));
            assert(body.member("silent"@) == Some(Json::Bool(silent)));
            assert(body.member("silent"@) == Some(Json::Bool(silent2)));
            lemma_texts_json_injective(roles, roles2);
        },
        (
            OutgoingMessageView::SendToServer { player, target_server },
            OutgoingMessageView::SendToServer { player: player2, target_server: target_server2 },
        ) => {
            assert(body.member("player"@) == Some(Json::String(player)));
            assert(body.member("player"@) == Some(Json::String(player2)));
            assert(body.member("target_server"@) == Some(Json::String(target_server)));
            assert(body.member("target_server"@) == Some(Json::String(target_server2)));
        },
        (
            OutgoingMessageView::SendServerToServer { from_server, to_server },
            OutgoingMessageView::SendServerToServer {
                from_server: from_server2,
                to_server: to_server2,
            },
        ) => {
            assert(body.member("from_server"@) == Some(Json::String(from_server)));
            assert(body.member("from_server"@) == Some(Json::String(from_server2)));
            assert(body.member("to_server"@) == Some(Json::String(to_server)));
            assert(body.member("to_server"@) == Some(Json::String(to_server2)));
        },
        _ => {},
    }
}


/// The outgoing message that a JSON value stands for, as a peer that knows
/// the protocol reads it; `None` for a value that stands for no message.
pub open spec fn outgoing_of(json: Json) -> Option<OutgoingMessageView> {
    if exists|message: OutgoingMessageView| outgoing_json(message) == json {
        Some(choose|message: OutgoingMessageView| outgoing_json(message) == json)
    } else {
        None
    }
}

/// The value of a message, read back by a peer that knows the protocol, is
/// that message.
pub proof fn lemma_peer_reads_back(message: OutgoingMessageView)
    ensures
        outgoing_of(outgoing_json(message)) == Some(message),
{
    let read = choose|read: OutgoingMessageView| outgoing_json(read) == outgoing_json(message);
    lemma_outgoing_json_injective(read, message);
}

/// What a game server says of itself when it connects.
#[derive(Debug, PartialEq, Eq)]
pub struct Handshake {
    pub channel: String,
    pub game_version: String,
    pub server_ip: Option<String>,
    pub server_type: ServerType,
}

/// What a connection has received: a message, or the reason why there is none.
pub type Received = Result<IncomingMessage, ProtocolError>;

/// What the first thing received on a connection makes of the connection.
/// `None` stands for a connection that was closed before anything came.
pub open spec fn handshake_outcome(first: Option<Received>) -> Result<Handshake, ProtocolError> {
    match first {
        Some(Ok(IncomingMessage::Handshake { channel, game_version, server_ip, server_type })) => {
            Ok(
                Handshake {
                    channel,
                    game_version,
                    server_ip,
                    server_type: match server_type {
                        Some(server_type) => server_type,
                        None => ServerType::Minecraft,
                    },
                },
            )
        },
        Some(Ok(_)) => Err(ProtocolError::MissingHandshake),
        Some(Err(ProtocolError::Io(fault))) => Err(ProtocolError::Io(fault)),
        Some(Err(_)) => Err(ProtocolError::MissingHandshake),
        None => Err(ProtocolError::MissingHandshake),
    }
}

/// Opens a connection with the first thing received on it.
///
/// The first frame has to be a handshake; a server that does not say what
/// kind it is counts as a game server. Any other message, a frame that is no
/// message at all, and a connection closed before the first frame, is a
/// missing handshake. A failure of framing or transport is returned as it
/// is. Every error ends the connection.
pub fn handshake(first: Option<Received>) -> (result: Result<Handshake, ProtocolError>)
    ensures
        result == handshake_outcome(first),
{
    match first {
        Some(Ok(IncomingMessage::Handshake { channel, game_version, server_ip, server_type })) => {
            Ok(
                Handshake {
                    channel,
                    game_version,
                    server_ip,
                    server_type: match server_type {
                        Some(server_type) => server_type,
                        None => ServerType::Minecraft,
                    },
                },
            )
        },
        Some(Ok(_)) => Err(ProtocolError::MissingHandshake),
        Some(Err(ProtocolError::Io(fault))) => Err(ProtocolError::Io(fault)),
        Some(Err(_)) => Err(ProtocolError::MissingHandshake),
        None => Err(ProtocolError::MissingHandshake),
    }
}

/// What the hub's end of a connection hands to the controller.
#[derive(Debug, PartialEq, Eq)]
pub enum ClientReport {
    IncomingChat(IncomingChat),
    StatusUpdate(StatusUpdate),
    ServerLifecycleStart(ServerLifecycleStart),
    ServerLifecycleStop(ServerLifecycleStop),
    PerformanceUpdate(PerformanceUpdate),
    ServerSystemMessage(ServerSystemMessage),
    UploadStatsBundle(UploadStatsBundle),
}

/// The hub's end of the connection of one game server.
#[derive(Debug, PartialEq, Eq)]
pub struct IntegrationsClient {
    /// The channel of the server, as its handshake named it.
    pub channel: String,
    pub server_type: ServerType,
    /// Whether the client has given up the connection.
    pub stopped: bool,
}

/// Whether something received ends the connection: every failure does, but
/// for a frame that could not be read as a message.
pub open spec fn is_fatal(received: Received) -> bool {
    match received {
        Err(ProtocolError::Json(_)) => false,
        Err(_) => true,
        Ok(_) => false,
    }
}

/// The report that a client of `channel` makes of a message: one report for
/// each message, under the channel of the client, and none for a handshake
/// that comes after the first.
pub open spec fn report_of(
    channel: String,
    server_type: ServerType,
    message: IncomingMessage,
) -> Option<ClientReport> {
    match message {
        IncomingMessage::Handshake { .. } => None,
        IncomingMessage::Chat { sender, content } => Some(
            ClientReport::IncomingChat(IncomingChat { channel, sender, content }),
        ),
        IncomingMessage::Status { players, games } => Some(
            ClientReport::StatusUpdate(StatusUpdate { channel, games, players }),
        ),
        IncomingMessage::LifecycleStart {  } => Some(
            ClientReport::ServerLifecycleStart(ServerLifecycleStart { channel, server_type }),
        ),
        IncomingMessage::LifecycleStop { crash } => Some(
            ClientReport::ServerLifecycleStop(ServerLifecycleStop { channel, crash, server_type }),
        ),
        IncomingMessage::Performance(performance) => Some(
            ClientReport::PerformanceUpdate(PerformanceUpdate { channel, performance }),
        ),
        IncomingMessage::SystemMessage { content } => Some(
            ClientReport::ServerSystemMessage(ServerSystemMessage { channel, content }),
        ),
        IncomingMessage::UploadStatistics { bundle, game_id } => Some(
            ClientReport::UploadStatsBundle(UploadStatsBundle { game_id, server: channel, bundle }),
        ),
    }
}

impl IntegrationsClient {
    /// The client after it has handled `received`: stopped if it was, or if
    /// what it received is fatal.
    pub open spec fn after(self, received: Received) -> IntegrationsClient {
        IntegrationsClient { stopped: self.stopped || is_fatal(received), ..self }
    }

    /// The report that the client makes of `received`: that of the message,
    /// if it is one and the client has not stopped.
    pub open spec fn report(self, received: Received) -> Option<ClientReport> {
        match received {
            Ok(message) => if self.stopped {
                None
            } else {
                report_of(self.channel, self.server_type, message)
            },
            Err(_) => None,
        }
    }

    /// The client after all of `received`, in order.
    pub open spec fn after_all(self, received: Seq<Received>) -> IntegrationsClient
        decreases received.len(),
    {
        if received.len() == 0 {
            self
        } else {
            self.after_all(received.drop_last()).after(received.last())
        }
    }

    /// The reports that the client makes of all of `received`, in order.
    pub open spec fn reports(self, received: Seq<Received>) -> Seq<ClientReport>
        decreases received.len(),
    {
        if received.len() == 0 {
            Seq::empty()
        } else {
            let before = self.reports(received.drop_last());
            match self.after_all(received.drop_last()).report(received.last()) {
                Some(report) => before.push(report),
                None => before,
            }
        }
    }

    /// The client for a connection that has opened with `handshake`.
    pub fn new(handshake: &Handshake) -> (client: IntegrationsClient)
        ensures
            client == (IntegrationsClient {
                channel: handshake.channel,
                server_type: handshake.server_type,
                stopped: false,
            }),
    {
        IntegrationsClient {
            channel: handshake.channel.clone(),
            server_type: handshake.server_type,
            stopped: false,
        }
    }

    /// Handles what the connection has received and returns what is to be
    /// handed to the controller.
    ///
    /// A message becomes one report under the channel of the client. A frame
    /// that was no message is passed over and the connection goes on. Any
    /// other failure stops the client. A stopped client reports nothing.
    pub fn handle(&mut self, received: Received) -> (report: Option<ClientReport>)
        ensures
            *final(self) == old(self).after(received),
            report == old(self).report(received),
    {
        match received {
            Ok(message) => {
                if self.stopped {
                    return None;
                }
                match message {
                    IncomingMessage::Chat { sender, content } => Some(
                        ClientReport::IncomingChat(
                            IncomingChat { channel: self.channel.clone(), sender, content },
                        ),
                    ),
                    IncomingMessage::Status { players, games } => Some(
                        ClientReport::StatusUpdate(
                            StatusUpdate { channel: self.channel.clone(), games, players },
                        ),
                    ),
                    IncomingMessage::LifecycleStart {  } => Some(
                        ClientReport::ServerLifecycleStart(
                            ServerLifecycleStart {
                                channel: self.channel.clone(),
                                server_type: self.server_type,
                            },
                        ),
                    ),
                    IncomingMessage::LifecycleStop { crash } => Some(
                        ClientReport::ServerLifecycleStop(
                            ServerLifecycleStop {
                                channel: self.channel.clone(),
                                crash,
                                server_type: self.server_type,
                            },
                        ),
                    ),
                    IncomingMessage::Performance(performance) => Some(
                        ClientReport::PerformanceUpdate(
                            PerformanceUpdate { channel: self.channel.clone(), performance },
                        ),
                    ),
                    IncomingMessage::SystemMessage { content } => Some(
                        ClientReport::ServerSystemMessage(
                            ServerSystemMessage { channel: self.channel.clone(), content },
                        ),
                    ),
                    IncomingMessage::UploadStatistics { bundle, game_id } => Some(
                        ClientReport::UploadStatsBundle(
                            UploadStatsBundle { game_id, server: self.channel.clone(), bundle },
                        ),
                    ),
                    IncomingMessage::Handshake { .. } => None,
                }
            },
            Err(ProtocolError::Json(_)) => None,
            Err(_) => {
                self.stopped = true;
                None
            },
        }
    }

    /// Handles a frame that the connection has received, or the failure to
    /// receive one: reads the frame as a message and handles the outcome as
    /// [`IntegrationsClient::handle`] does.
    pub fn handle_frame(&mut self, frame: Result<Vec<u8>, IoError>) -> (report: Option<
        ClientReport,
    >)
        ensures
            match frame {
                Ok(frame) => exists|received: Received|
                    {
                        &&& #[trigger] received_view(received) == frame_message(frame@)
                        &&& *final(self) == old(self).after(received)
                        &&& report == old(self).report(received)
                    },
                Err(fault) => *final(self) == old(self).after(Err(ProtocolError::Io(fault)))
                    && report is None,
            },
    {
        match frame {
            Ok(frame) => {
                let received = decode_message(frame.as_slice());
                assert(received_view(received) == frame_message(frame@));
                self.handle(received)
            },
            Err(fault) => self.handle(Err(ProtocolError::Io(fault))),
        }
    }

    /// Takes note that a report could not be handed to the controller: the
    /// client stops.
    pub fn delivery_failed(&mut self)
        ensures
            *final(self) == (IntegrationsClient { stopped: true, ..*old(self) }),
    {
        self.stopped = true;
    }

    /// The message that a client owes the controller when it is done. The
    /// client is used up: it owes the message once.
    pub fn stopped(self) -> (message: UnregisterIntegrationsClient)
        ensures
            message == (UnregisterIntegrationsClient { channel: self.channel }),
    {
        UnregisterIntegrationsClient { channel: self.channel }
    }
}

/// The value of what a connection has received.
pub open spec fn received_view(received: Received) -> Result<IncomingMessageView, ProtocolError> {
    match received {
        Ok(message) => Ok(message@),
        Err(error) => Err(error),
    }
}

/// The message that makes the client of a handshake known to the controller.
pub fn registration<C>(handshake: Handshake, client: C) -> (message: RegisterIntegrationsClient<C>)
    ensures
        message.channel == handshake.channel,
        message.game_version == handshake.game_version,
        message.server_ip == handshake.server_ip,
        message.client == client,
{
    RegisterIntegrationsClient {
        channel: handshake.channel,
        game_version: handshake.game_version,
        server_ip: handshake.server_ip,
        client,
    }
}

/// A frame that cannot be read as a message does not end a connection, and
/// what comes after it is handled as if the frame had not come.
pub proof fn lemma_unreadable_frame_is_passed_over(
    client: IntegrationsClient,
    error: JsonError,
    rest: Seq<Received>,
)
    ensures
        client.after(Err(ProtocolError::Json(error))) == client,
        client.report(Err(ProtocolError::Json(error))) is None,
        client.after_all(seq![Err(ProtocolError::Json(error))] + rest) == client.after_all(rest),
        client.reports(seq![Err(ProtocolError::Json(error))] + rest) == client.reports(rest),
    decreases rest.len(),
{
    let unreadable: Received = Err(ProtocolError::Json(error));
    let all = seq![unreadable] + rest;
    if rest.len() == 0 {
        assert(all.drop_last() =~= Seq::<Received>::empty());
        assert(client.after_all(all.drop_last()) == client);
        assert(client.reports(all.drop_last()) =~= Seq::<ClientReport>::empty());
    } else {
        lemma_unreadable_frame_is_passed_over(client, error, rest.drop_last());
        assert(all.drop_last() =~= seq![unreadable] + rest.drop_last());
        assert(all.last() == rest.last());
    }
}

/// Once a client has stopped it stays stopped and reports nothing more.
pub proof fn lemma_stopped_client_is_silent(client: IntegrationsClient, received: Seq<Received>)
    requires
        client.stopped,
    ensures
        client.after_all(received) == client,
        client.reports(received) == Seq::<ClientReport>::empty(),
    decreases received.len(),
{
    if received.len() > 0 {
        lemma_stopped_client_is_silent(client, received.drop_last());
    }
}

} // verus!
