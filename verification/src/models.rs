//! The records that the coordinator keeps and exchanges, each with the
//! mathematical value that the contracts speak of.

use vstd::prelude::*;

verus! {

/// What an optional text holds, as a sequence of characters.
pub open spec fn text_of(t: Option<String>) -> Option<Seq<char>> {
    match t {
        Some(s) => Some(s@),
        None => None,
    }
}

/// A copy of an optional text.
pub fn copy_text(t: &Option<String>) -> (r: Option<String>)
    ensures
        text_of(r) == text_of(*t),
{
    match t {
        Some(s) => Some(s.clone()),
        None => None,
    }
}

/// Whether two optional texts hold the same characters, or both nothing.
pub fn same_text(a: &Option<String>, b: &Option<String>) -> (r: bool)
    ensures
        r == (text_of(*a) == text_of(*b)),
{
    match a {
        Some(x) => match b {
            Some(y) => *x == *y,
            None => false,
        },
        None => b.is_none(),
    }
}

/// One game session as the registry models it.
pub struct LobbyRecord {
    pub lobby_id: Seq<char>,
    pub join_code: Seq<char>,
    pub player_count: int,
    pub max_players: int,
    pub scene_name: Option<Seq<char>>,
    pub build_id: Option<Seq<char>>,
}

impl LobbyRecord {
    /// The record after one more client was matched to the lobby.
    pub open spec fn joined(self) -> LobbyRecord {
        LobbyRecord { player_count: self.player_count + 1, ..self }
    }

    /// The lobby has room for one more client.
    pub open spec fn has_room(self) -> bool {
        self.player_count < self.max_players
    }
}

/// One game session that the coordinator tracks.
///
/// `lobby_id` is the key under which the registry keeps the record; the
/// client that creates the lobby picks it. `join_code` is what clients use
/// to connect to the session; the coordinator hands it on and does not
/// read it. `player_count` is 1 when the lobby is registered and grows by
/// one with each client matched to it, whether or not that client goes on
/// to join. `scene_name` and `build_id` partition lobbies by content
/// version where a deployment sets them.
#[derive(Debug)]
pub struct LobbyInfo {
    pub lobby_id: String,
    pub join_code: String,
    pub player_count: i32,
    pub max_players: i32,
    pub scene_name: Option<String>,
    pub build_id: Option<String>,
}

impl View for LobbyInfo {
    type V = LobbyRecord;

    open spec fn view(&self) -> LobbyRecord {
        LobbyRecord {
            lobby_id: self.lobby_id@,
            join_code: self.join_code@,
            player_count: self.player_count as int,
            max_players: self.max_players as int,
            scene_name: text_of(self.scene_name),
            build_id: text_of(self.build_id),
        }
    }
}

impl Clone for LobbyInfo {
    fn clone(&self) -> (r: Self)
        ensures
            r@ == self@,
    {
        LobbyInfo {
            lobby_id: self.lobby_id.clone(),
            join_code: self.join_code.clone(),
            player_count: self.player_count,
            max_players: self.max_players,
            scene_name: copy_text(&self.scene_name),
            build_id: copy_text(&self.build_id),
        }
    }
}

/// What a client asks of a lobby, as the contracts model it.
pub struct Criteria {
    pub scene_name: Option<Seq<char>>,
    pub build_id: Option<Seq<char>>,
}

impl Criteria {
    /// Whether a record can be claimed for a client with these criteria:
    /// each attribute that the client names is the record's own, and the
    /// lobby has room. A client that names no attribute takes any lobby
    /// with room.
    pub open spec fn admits(self, r: LobbyRecord) -> bool {
        &&& self.scene_name is Some ==> r.scene_name == self.scene_name
        &&& self.build_id is Some ==> r.build_id == self.build_id
        &&& r.has_room()
    }
}

/// The content version that a client asks for. An attribute left out
/// matches every lobby.
#[derive(Debug)]
pub struct MatchCriteria {
    pub scene_name: Option<String>,
    pub build_id: Option<String>,
}

impl View for MatchCriteria {
    type V = Criteria;

    open spec fn view(&self) -> Criteria {
        Criteria { scene_name: text_of(self.scene_name), build_id: text_of(self.build_id) }
    }
}

impl MatchCriteria {
    /// Criteria that name no attribute.
    pub fn any() -> (c: MatchCriteria)
        ensures
            c@ == (Criteria { scene_name: None, build_id: None }),
    {
        MatchCriteria { scene_name: None, build_id: None }
    }

    /// Whether `lobby` can be claimed for a client with these criteria.
    pub fn admits(&self, lobby: &LobbyInfo) -> (r: bool)
        ensures
            r == self@.admits(lobby@),
    {
        let scene_fits = match &self.scene_name {
            Some(_) => same_text(&self.scene_name, &lobby.scene_name),
            None => true,
        };
        let build_fits = match &self.build_id {
            Some(_) => same_text(&self.build_id, &lobby.build_id),
            None => true,
        };
        scene_fits && build_fits && lobby.player_count < lobby.max_players
    }
}

/// The answer to a quick-join request, as the contracts model it.
pub struct QuickJoinReply {
    pub lobby_id: Option<Seq<char>>,
    pub join_code: Option<Seq<char>>,
    pub should_create: bool,
    pub creation_token: Option<u64>,
}

impl QuickJoinReply {
    /// "Join this lobby."
    pub open spec fn matched(lobby_id: Seq<char>, join_code: Seq<char>) -> QuickJoinReply {
        QuickJoinReply {
            lobby_id: Some(lobby_id),
            join_code: Some(join_code),
            should_create: false,
            creation_token: None,
        }
    }

    /// "Ask again later."
    pub open spec fn wait() -> QuickJoinReply {
        QuickJoinReply { lobby_id: None, join_code: None, should_create: false, creation_token: None }
    }

    /// "Create a lobby, and register it with this token."
    pub open spec fn create(token: u64) -> QuickJoinReply {
        QuickJoinReply {
            lobby_id: None,
            join_code: None,
            should_create: true,
            creation_token: Some(token),
        }
    }
}

/// The answer to a quick-join request. One of three: a lobby to join,
/// with its identifier and join code; leave to create a lobby, with the
/// token to register it under; or neither, which asks the client to come
/// back later.
#[derive(Debug)]
pub struct QuickJoinResponse {
    pub lobby_id: Option<String>,
    pub join_code: Option<String>,
    pub should_create: bool,
    pub creation_token: Option<u64>,
}

impl View for QuickJoinResponse {
    type V = QuickJoinReply;

    open spec fn view(&self) -> QuickJoinReply {
        QuickJoinReply {
            lobby_id: text_of(self.lobby_id),
            join_code: text_of(self.join_code),
            should_create: self.should_create,
            creation_token: self.creation_token,
        }
    }
}

impl QuickJoinResponse {
    /// The answer that sends the client to a lobby.
    pub fn matched(lobby_id: String, join_code: String) -> (r: QuickJoinResponse)
        ensures
            r@ == QuickJoinReply::matched(lobby_id@, join_code@),
    {
        QuickJoinResponse {
            lobby_id: Some(lobby_id),
            join_code: Some(join_code),
            should_create: false,
            creation_token: None,
        }
    }

    /// The answer that asks the client to come back later.
    pub fn wait() -> (r: QuickJoinResponse)
        ensures
            r@ == QuickJoinReply::wait(),
    {
        QuickJoinResponse {
            lobby_id: None,
            join_code: None,
            should_create: false,
            creation_token: None,
        }
    }

    /// The answer that lets the client create a lobby under `token`.
    pub fn create(token: u64) -> (r: QuickJoinResponse)
        ensures
            r@ == QuickJoinReply::create(token),
    {
        QuickJoinResponse {
            lobby_id: None,
            join_code: None,
            should_create: true,
            creation_token: Some(token),
        }
    }
}

/// A request to register a lobby, as the contracts model it.
pub struct RegisterRequest {
    pub lobby_id: Seq<char>,
    pub join_code: Seq<char>,
    pub max_players: int,
    pub creation_token: u64,
    pub scene_name: Option<Seq<char>>,
    pub build_id: Option<Seq<char>>,
}

impl RegisterRequest {
    /// The record of the lobby that the request describes. Its creator is
    /// its first player.
    pub open spec fn lobby(self) -> LobbyRecord {
        LobbyRecord {
            lobby_id: self.lobby_id,
            join_code: self.join_code,
            player_count: 1,
            max_players: self.max_players,
            scene_name: self.scene_name,
            build_id: self.build_id,
        }
    }
}

/// What the client that was given leave to create a lobby sends once the
/// lobby exists: the lobby, and the token that came with the leave.
#[derive(Debug)]
pub struct RegisterLobbyRequest {
    pub lobby_id: String,
    pub join_code: String,
    pub max_players: i32,
    pub creation_token: u64,
    pub scene_name: Option<String>,
    pub build_id: Option<String>,
}

impl View for RegisterLobbyRequest {
    type V = RegisterRequest;

    open spec fn view(&self) -> RegisterRequest {
        RegisterRequest {
            lobby_id: self.lobby_id@,
            join_code: self.join_code@,
            max_players: self.max_players as int,
            creation_token: self.creation_token,
            scene_name: text_of(self.scene_name),
            build_id: text_of(self.build_id),
        }
    }
}

impl RegisterLobbyRequest {
    /// The record of the lobby that the request describes.
    pub fn into_lobby(self) -> (lobby: LobbyInfo)
        ensures
            lobby@ == self@.lobby(),
    {
        LobbyInfo {
            lobby_id: self.lobby_id,
            join_code: self.join_code,
            player_count: 1,
            max_players: self.max_players,
            scene_name: self.scene_name,
            build_id: self.build_id,
        }
    }
}

} // verus!
