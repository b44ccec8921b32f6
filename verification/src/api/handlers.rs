//! Request and response bodies of the HTTP API, and what a room's summary shows.

use vstd::prelude::*;
use vstd::string::*;

use crate::game::state::{GameConfig, GamePhase, GameState, Player, PlayerId};

verus! {

/// Create a new game room
pub struct CreateRoomRequest {
    pub host_name: String,
    pub config: Option<GameConfig>,
}

pub struct CreateRoomResponse {
    pub room_id: String,
    pub player_id: PlayerId,
}

/// Join an existing room
pub struct JoinRoomRequest {
    pub player_name: String,
}

pub struct JoinRoomResponse {
    pub player_id: PlayerId,
}

/// Get room state
pub struct RoomStateResponse {
    pub room_id: String,
    pub players: Vec<PlayerInfo>,
    pub phase: String,
    pub config: GameConfig,
}

pub struct PlayerInfo {
    pub id: PlayerId,
    pub name: String,
    pub color: String,
    pub is_host: bool,
    pub is_bot: bool,
}

/// Add a bot to the room
pub struct AddBotRequest {
    pub difficulty: Option<String>,
}

/// The name of a phase, as `Debug` writes it.
pub open spec fn spec_phase_name(p: GamePhase) -> Seq<char> {
    match p {
        GamePhase::Lobby => "Lobby"@,
        GamePhase::RollingOrder => "RollingOrder"@,
        GamePhase::Playing => "Playing"@,
        GamePhase::GameOver => "GameOver"@,
    }
}

/// What a room's summary shows of a player.
pub open spec fn shows_player(info: PlayerInfo, p: Player) -> bool {
    &&& info.id == p.id
    &&& info.name@ == p.name@
    &&& info.color@ == p.color@
    &&& info.is_host == p.is_host
    &&& info.is_bot == p.is_bot
}

/// The name of a phase
pub fn phase_name(phase: GamePhase) -> (r: String)
    ensures
        r@ == spec_phase_name(phase),
{
    match phase {
        GamePhase::Lobby => String::from_str("Lobby"),
        GamePhase::RollingOrder => String::from_str("RollingOrder"),
        GamePhase::Playing => String::from_str("Playing"),
        GamePhase::GameOver => String::from_str("GameOver"),
    }
}

/// A room's summary: its players, phase and configuration
pub fn room_state(game: &GameState, room_id: String) -> (r: RoomStateResponse)
    ensures
        r.room_id == room_id,
        r.players@.len() == game@.players.len(),
        forall|i: int| 0 <= i < r.players@.len() ==> shows_player(#[trigger] r.players@[i], game@.players[i]),
        r.phase@ == spec_phase_name(game.phase),
        r.config == game.config,
{
    let mut players: Vec<PlayerInfo> = Vec::new();
    let mut i: usize = 0;
    while i < game.players.len()
        invariant
            i <= game.players@.len(),
            players@.len() == i,
            forall|j: int| 0 <= j < i ==> shows_player(#[trigger] players@[j], game@.players[j]),
        decreases game.players@.len() - i,
    {
        let p = &game.players[i];
        players.push(
            PlayerInfo {
                id: p.id,
                name: p.name.clone(),
                color: p.color.clone(),
                is_host: p.is_host,
                is_bot: p.is_bot,
            },
        );
        i = i + 1;
    }
    RoomStateResponse { room_id, players, phase: phase_name(game.phase), config: game.config }
}

/// Health check
pub fn health() -> (r: &'static str)
    ensures
        r@ == "OK"@,
{
    "OK"
}

} // verus!
