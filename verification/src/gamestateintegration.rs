//! The part of a Counter-Strike 2 game state integration (GSI) payload that the
//! rewards read. The game posts such a payload whenever something changes.

use vstd::prelude::*;

verus! {

/// Phase of the match as a whole.
#[derive(Debug, Clone, Copy, PartialEq, Eq, Structural)]
pub enum MapPhase {
    Unknown,
    Warmup,
    Live,
    Intermission,
    GameOver,
}

/// Phase of the current round.
#[derive(Debug, Clone, Copy, PartialEq, Eq, Structural)]
pub enum RoundPhase {
    Unknown,
    Freezetime,
    Live,
    Over,
}

/// Who is sending the payload: the local player's Steam id.
#[derive(Debug, Clone, PartialEq, Eq)]
pub struct Provider {
    pub steamid: String,
}

#[derive(Debug, Clone, Copy, PartialEq, Eq, Structural)]
pub struct MapInfo {
    pub phase: MapPhase,
}

#[derive(Debug, Clone, PartialEq, Eq)]
pub struct RoundInfo {
    pub phase: RoundPhase,
    /// The team that won the round, once it is over.
    pub win_team: Option<String>,
}

/// Per-round state of the observed player.
#[derive(Debug, Clone, Copy, PartialEq, Eq, Structural)]
pub struct PlayerRoundState {
    pub health: i32,
    pub armor: i32,
    pub round_kills: i32,
}

/// Match totals of the observed player.
#[derive(Debug, Clone, Copy, PartialEq, Eq, Structural)]
pub struct PlayerMatchStats {
    pub kills: i32,
    pub deaths: i32,
}

/// The player the game is currently showing (the local player or a spectated one).
#[derive(Debug, Clone, PartialEq, Eq)]
pub struct PlayerInfo {
    pub steamid: String,
    pub team: Option<String>,
    pub state: PlayerRoundState,
    pub match_stats: PlayerMatchStats,
}

/// One game state integration payload; every section is optional.
#[derive(Debug, Clone, PartialEq, Eq)]
pub struct Payload {
    pub provider: Option<Provider>,
    pub map: Option<MapInfo>,
    pub round: Option<RoundInfo>,
    pub player: Option<PlayerInfo>,
}

} // verus!
