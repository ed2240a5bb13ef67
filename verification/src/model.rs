//! The data the hub keeps and passes on about game servers.

use crate::json::{number_of, NumberModel};
use vstd::prelude::*;

verus! {

/// What kind of process a channel is: a game server or the proxy in front of them.
#[derive(Debug, Clone, Copy, PartialEq, Eq, Structural)]
pub enum ServerType {
    Minecraft,
    Velocity,
}

/// A player as game servers report them.
#[derive(Debug, PartialEq, Eq)]
pub struct Player {
    /// The player's UUID, as text.
    pub id: String,
    pub name: String,
}

/// Mathematical value of a [`Player`].
pub struct PlayerView {
    pub id: Seq<char>,
    pub name: Seq<char>,
}

impl View for Player {
    type V = PlayerView;

    open spec fn view(&self) -> PlayerView {
        PlayerView { id: self.id@, name: self.name@ }
    }
}

impl DeepView for Player {
    type V = PlayerView;

    open spec fn deep_view(&self) -> PlayerView {
        self@
    }
}

impl Clone for Player {
    fn clone(&self) -> (copy: Player)
        ensures
            copy == *self,
    {
        Player { id: self.id.clone(), name: self.name.clone() }
    }
}

/// A game running on a server.
#[derive(Debug, PartialEq, Eq)]
pub struct Game {
    pub name: String,
    /// The kind of game; `type` on the wire.
    pub ty: String,
    pub player_count: u16,
}

/// Mathematical value of a [`Game`].
pub struct GameView {
    pub name: Seq<char>,
    pub ty: Seq<char>,
    pub player_count: u16,
}

impl View for Game {
    type V = GameView;

    open spec fn view(&self) -> GameView {
        GameView { name: self.name@, ty: self.ty@, player_count: self.player_count }
    }
}

impl DeepView for Game {
    type V = GameView;

    open spec fn deep_view(&self) -> GameView {
        self@
    }
}

impl Clone for Game {
    fn clone(&self) -> (copy: Game)
        ensures
            copy == *self,
    {
        Game { name: self.name.clone(), ty: self.ty.clone(), player_count: self.player_count }
    }
}

/// Copies a list of players.
pub fn clone_players(players: &Vec<Player>) -> (copy: Vec<Player>)
    ensures
        copy@ == players@,
{
    let mut copy: Vec<Player> = Vec::new();
    let mut i: usize = 0;
    while i < players.len()
        invariant
            i <= players@.len(),
            copy@ == players@.subrange(0, i as int),
        decreases players@.len() - i,
    {
        copy.push(players[i].clone());
        i += 1;
        assert(copy@ =~= players@.subrange(0, i as int));
    }
    assert(players@.subrange(0, players@.len() as int) =~= players@);
    copy
}

/// Copies a list of games.
pub fn clone_games(games: &Vec<Game>) -> (copy: Vec<Game>)
    ensures
        copy@ == games@,
{
    let mut copy: Vec<Game> = Vec::new();
    let mut i: usize = 0;
    while i < games.len()
        invariant
            i <= games@.len(),
            copy@ == games@.subrange(0, i as int),
        decreases games@.len() - i,
    {
        copy.push(games[i].clone());
        i += 1;
        assert(copy@ =~= games@.subrange(0, i as int));
    }
    assert(games@.subrange(0, games@.len() as int) =~= games@);
    copy
}

/// Copies an optional text.
pub fn clone_text(text: &Option<String>) -> (copy: Option<String>)
    ensures
        copy == *text,
{
    match text {
        Some(s) => Some(s.clone()),
        None => None,
    }
}

/// The last known state of a channel.
#[derive(Debug, PartialEq, Eq)]
pub struct ServerStatus {
    pub game_version: String,
    pub server_ip: Option<String>,
    pub games: Vec<Game>,
    pub players: Vec<Player>,
}

/// Mathematical value of a [`ServerStatus`].
pub struct ServerStatusView {
    pub game_version: Seq<char>,
    pub server_ip: Option<Seq<char>>,
    pub games: Seq<GameView>,
    pub players: Seq<PlayerView>,
}

impl ServerStatusView {
    /// The status of a channel nothing is known about yet.
    pub open spec fn empty() -> ServerStatusView {
        ServerStatusView {
            game_version: Seq::empty(),
            server_ip: None,
            games: Seq::empty(),
            players: Seq::empty(),
        }
    }
}

impl View for ServerStatus {
    type V = ServerStatusView;

    open spec fn view(&self) -> ServerStatusView {
        ServerStatusView {
            game_version: self.game_version@,
            server_ip: self.server_ip.deep_view(),
            games: self.games.deep_view(),
            players: self.players.deep_view(),
        }
    }
}

impl DeepView for ServerStatus {
    type V = ServerStatusView;

    open spec fn deep_view(&self) -> ServerStatusView {
        self@
    }
}

impl Default for ServerStatus {
    fn default() -> (status: ServerStatus)
        ensures
            status@ == ServerStatusView::empty(),
    {
        let status = ServerStatus {
            game_version: String::new(),
            server_ip: None,
            games: Vec::new(),
            players: Vec::new(),
        };
        assert(status.games.deep_view() =~= Seq::empty());
        assert(status.players.deep_view() =~= Seq::empty());
        status
    }
}

impl Clone for ServerStatus {
    fn clone(&self) -> (copy: ServerStatus)
        ensures
            copy@ == self@,
    {
        let copy = ServerStatus {
            game_version: self.game_version.clone(),
            server_ip: clone_text(&self.server_ip),
            games: clone_games(&self.games),
            players: clone_players(&self.players),
        };
        assert(copy.games.deep_view() =~= self.games.deep_view());
        assert(copy.players.deep_view() =~= self.players.deep_view());
        copy
    }
}


/// A file attached to a chat message.
#[derive(Debug, PartialEq, Eq)]
pub struct ChatAttachment {
    pub name: String,
    pub url: String,
}

/// Mathematical value of a [`ChatAttachment`].
pub struct ChatAttachmentView {
    pub name: Seq<char>,
    pub url: Seq<char>,
}

impl View for ChatAttachment {
    type V = ChatAttachmentView;

    open spec fn view(&self) -> ChatAttachmentView {
        ChatAttachmentView { name: self.name@, url: self.url@ }
    }
}

impl DeepView for ChatAttachment {
    type V = ChatAttachmentView;

    open spec fn deep_view(&self) -> ChatAttachmentView {
        self@
    }
}

/// A chat message on its way to a game server.
#[derive(Debug, PartialEq, Eq)]
pub struct ChatMessage {
    pub sender: String,
    pub content: String,
    pub name_color: Option<u32>,
    pub attachments: Vec<ChatAttachment>,
    /// The message this one answers, if any.
    pub replying_to: Option<Box<ChatMessage>>,
}

/// Mathematical value of a [`ChatMessage`].
pub struct ChatMessageView {
    pub sender: Seq<char>,
    pub content: Seq<char>,
    pub name_color: Option<u32>,
    pub attachments: Seq<ChatAttachmentView>,
    pub replying_to: Option<Box<ChatMessageView>>,
}

impl ChatMessage {
    /// The value of the message, with the value of the message it answers inside.
    pub open spec fn model(self) -> ChatMessageView
        decreases self,
    {
        ChatMessageView {
            sender: self.sender@,
            content: self.content@,
            name_color: self.name_color,
            attachments: self.attachments.deep_view(),
            replying_to: match self.replying_to {
                Some(inner) => Some(Box::new((*inner).model())),
                None => None,
            },
        }
    }
}

impl View for ChatMessage {
    type V = ChatMessageView;

    open spec fn view(&self) -> ChatMessageView {
        self.model()
    }
}

/// One sample of how a server is doing.
#[derive(Debug, PartialEq, Eq)]
pub struct ServerPerformance {
    /// Mean duration of a tick in milliseconds, as the number that was reported.
    pub average_tick_ms: serde_json::Number,
    pub tps: u8,
    pub dimensions: u16,
    pub entities: u32,
    pub chunks: u32,
    pub used_memory: u64,
    pub total_memory: u64,
}

/// Mathematical value of a [`ServerPerformance`].
pub struct ServerPerformanceView {
    pub average_tick_ms: NumberModel,
    pub tps: u8,
    pub dimensions: u16,
    pub entities: u32,
    pub chunks: u32,
    pub used_memory: u64,
    pub total_memory: u64,
}

impl View for ServerPerformance {
    type V = ServerPerformanceView;

    open spec fn view(&self) -> ServerPerformanceView {
        ServerPerformanceView {
            average_tick_ms: number_of(self.average_tick_ms),
            tps: self.tps,
            dimensions: self.dimensions,
            entities: self.entities,
            chunks: self.chunks,
            used_memory: self.used_memory,
            total_memory: self.total_memory,
        }
    }
}

} // verus!
