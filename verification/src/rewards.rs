//! What the game state integration payloads mean for the rewards: the known
//! game state, when a kill reward fires, when a round-end reward is armed, and
//! how an armed round-end reward is resolved once the round's winner is known.

use vstd::prelude::*;

use crate::config::{Config, RewardConfig, RoundEndRewardGating, VibrationRewardConfig};
use crate::gamestateintegration::{MapPhase, Payload, RoundPhase};
use crate::sounds::{SoundChoice, SoundChoiceView};
use crate::text::{opt_str_view, opt_string_view};

verus! {

// ----------------------------------------------------------------------------
// Team names

/// `c` is an ASCII letter or digit.
pub open spec fn is_ascii_alphanumeric(c: char) -> bool {
    ('0' <= c <= '9') || ('A' <= c <= 'Z') || ('a' <= c <= 'z')
}

/// `c` with an ASCII capital letter turned into its small letter.
pub open spec fn ascii_lowercase(c: char) -> char {
    if 'A' <= c <= 'Z' {
        ((c as u32) + 32) as char
    } else {
        c
    }
}

/// A team name reduced to its ASCII letters and digits, in lower case, so that
/// "Counter-Terrorist" and "counter_terrorist" compare equal.
pub open spec fn normalized_team(name: Seq<char>) -> Seq<char>
    decreases name.len(),
{
    if name.len() == 0 {
        Seq::empty()
    } else {
        let rest = normalized_team(name.drop_last());
        if is_ascii_alphanumeric(name.last()) {
            rest.push(ascii_lowercase(name.last()))
        } else {
            rest
        }
    }
}

fn lowercase_ascii_letter(c: char) -> (r: char)
    ensures
        r == ascii_lowercase(c),
{
    if 'A' <= c && c <= 'Z' {
        let code: u32 = c as u32 + 32;
        let byte: u8 = code as u8;
        byte as char
    } else {
        c
    }
}

pub fn normalize_team_name(team: &str) -> (r: String)
    ensures
        r@ == normalized_team(team@),
{
    let mut out = String::new();
    for c in it: team.chars()
        invariant
            it.seq() == team@,
            out@ == normalized_team(team@.take(it.index() as int)),
    {
        let ghost i = it.index() as int;
        proof {
            assert(team@.take(i + 1).drop_last() =~= team@.take(i));
            assert(team@.take(i + 1).last() == c);
        }
        if ('0' <= c && c <= '9') || ('A' <= c && c <= 'Z') || ('a' <= c && c <= 'z') {
            out.push(lowercase_ascii_letter(c));
        }
    }
    proof {
        assert(team@.take(team@.len() as int) =~= team@);
    }
    out
}


/// The player's team won the round: both names are known and they normalize to the same name.
pub open spec fn spec_did_player_win_round(
    player_team: Option<Seq<char>>,
    round_winner: Option<Seq<char>>,
) -> bool {
    match (player_team, round_winner) {
        (Some(team), Some(winner)) => normalized_team(team) == normalized_team(winner),
        _ => false,
    }
}

pub fn did_player_win_round(player_team: Option<&str>, round_winner: Option<&str>) -> (r: bool)
    ensures
        r == spec_did_player_win_round(opt_str_view(player_team), opt_str_view(round_winner)),
{
    let player_team = match player_team {
        Some(team) => team,
        None => return false,
    };
    let round_winner = match round_winner {
        Some(winner) => winner,
        None => return false,
    };
    let a = normalize_team_name(player_team);
    let b = normalize_team_name(round_winner);
    a == b
}

/// How a round ended for the player.
#[derive(Debug, Clone, Copy, PartialEq, Eq, Structural)]
pub enum RoundOutcome {
    Won,
    Lost,
    /// The player's team or the round's winner is not known.
    Unknown,
}

pub open spec fn spec_round_outcome(
    player_team: Option<Seq<char>>,
    round_winner: Option<Seq<char>>,
) -> RoundOutcome {
    if player_team is None || round_winner is None {
        RoundOutcome::Unknown
    } else if spec_did_player_win_round(player_team, round_winner) {
        RoundOutcome::Won
    } else {
        RoundOutcome::Lost
    }
}

pub fn round_outcome_for_player(player_team: Option<&str>, round_winner: Option<&str>) -> (r:
    RoundOutcome)
    ensures
        r == spec_round_outcome(opt_str_view(player_team), opt_str_view(round_winner)),
{
    if player_team.is_none() || round_winner.is_none() {
        return RoundOutcome::Unknown;
    }
    if did_player_win_round(player_team, round_winner) {
        RoundOutcome::Won
    } else {
        RoundOutcome::Lost
    }
}

/// Whether the player's team won does not depend on which name is the player's and
/// which the winner's, and a known team name always matches itself.
pub proof fn win_check_is_symmetric_and_reflexive(a: Option<Seq<char>>, b: Option<Seq<char>>)
    ensures
        spec_did_player_win_round(a, b) == spec_did_player_win_round(b, a),
        a is Some ==> spec_did_player_win_round(a, a),
        spec_round_outcome(a, b) == RoundOutcome::Won <==> spec_did_player_win_round(a, b),
        spec_round_outcome(a, b) == RoundOutcome::Unknown <==> (a is None || b is None),
{
}

/// `c` with an ASCII small letter turned into its capital letter.
pub open spec fn ascii_uppercase(c: char) -> char {
    if 'a' <= c <= 'z' {
        ((c as u32) - 32) as char
    } else {
        c
    }
}

/// `name` with every ASCII small letter turned into its capital letter.
pub open spec fn ascii_uppercased(name: Seq<char>) -> Seq<char> {
    name.map_values(|c: char| ascii_uppercase(c))
}

/// Team names compare without regard to ASCII case: upper-casing a name does not
/// change its normalized form.
pub proof fn normalized_team_ignores_case(name: Seq<char>)
    ensures
        normalized_team(ascii_uppercased(name)) == normalized_team(name),
    decreases name.len(),
{
    if name.len() > 0 {
        let upper = ascii_uppercased(name);
        assert(upper.drop_last() =~= ascii_uppercased(name.drop_last()));
        assert(upper.last() == ascii_uppercase(name.last()));
        normalized_team_ignores_case(name.drop_last());
    }
}

/// Normalizing a team name twice gives the same name as normalizing it once.
pub proof fn normalized_team_is_idempotent(name: Seq<char>)
    ensures
        normalized_team(normalized_team(name)) == normalized_team(name),
    decreases name.len(),
{
    if name.len() > 0 {
        normalized_team_is_idempotent(name.drop_last());
        let rest = normalized_team(name.drop_last());
        if is_ascii_alphanumeric(name.last()) {
            let pushed = rest.push(ascii_lowercase(name.last()));
            assert(pushed.drop_last() =~= rest);
        }
    }
}


// ----------------------------------------------------------------------------
// Kill rewards

/// A kill reward fires when it is enabled, the player's kill count went up,
/// and both the match and the round are live.
pub open spec fn spec_kill_triggers(
    enabled: bool,
    previous_kills: i32,
    current_kills: i32,
    map_phase: MapPhase,
    round_phase: RoundPhase,
) -> bool {
    &&& enabled
    &&& current_kills > previous_kills
    &&& map_phase == MapPhase::Live
    &&& round_phase == RoundPhase::Live
}

pub fn should_trigger_kill_reward(
    rewards: &RewardConfig,
    previous_kills: i32,
    current_kills: i32,
    map_phase: &MapPhase,
    round_phase: &RoundPhase,
) -> (r: bool)
    ensures
        r == spec_kill_triggers(
            rewards.kill_reward_enabled,
            previous_kills,
            current_kills,
            *map_phase,
            *round_phase,
        ),
{
    rewards.kill_reward_enabled && current_kills > previous_kills && *map_phase == MapPhase::Live
        && *round_phase == RoundPhase::Live
}

pub fn should_trigger_kill_vibration(
    vibrations: &VibrationRewardConfig,
    previous_kills: i32,
    current_kills: i32,
    map_phase: &MapPhase,
    round_phase: &RoundPhase,
) -> (r: bool)
    ensures
        r == spec_kill_triggers(
            vibrations.kill_vibration_enabled,
            previous_kills,
            current_kills,
            *map_phase,
            *round_phase,
        ),
{
    vibrations.kill_vibration_enabled && current_kills > previous_kills && *map_phase
        == MapPhase::Live && *round_phase == RoundPhase::Live
}

// ----------------------------------------------------------------------------
// Round-end rewards

/// A round-end sound armed at the end of a round, waiting for the round's winner.
#[derive(Debug, PartialEq)]
pub struct PendingRoundEndReward {
    pub sound: SoundChoice,
    pub volume_percent: u32,
    pub gating: RoundEndRewardGating,
}

pub struct PendingRewardView {
    pub sound: SoundChoiceView,
    pub volume_percent: u32,
    pub gating: RoundEndRewardGating,
}

impl View for PendingRoundEndReward {
    type V = PendingRewardView;

    open spec fn view(&self) -> PendingRewardView {
        PendingRewardView {
            sound: self.sound@,
            volume_percent: self.volume_percent,
            gating: self.gating,
        }
    }
}

impl Clone for PendingRoundEndReward {
    fn clone(&self) -> (r: Self)
        ensures
            r@ == self@,
    {
        PendingRoundEndReward {
            sound: self.sound.clone(),
            volume_percent: self.volume_percent,
            gating: self.gating,
        }
    }
}

/// A round-end vibration armed at the end of a round, waiting for the round's winner.
#[derive(Debug, Clone, Copy, PartialEq, Eq, Structural)]
pub struct PendingRoundEndVibration {
    pub strength_percent: u32,
    pub duration_ms: u32,
    pub gating: RoundEndRewardGating,
}

/// The round-end sound armed for a round with `round_kills` kills, if it is enabled
/// and the kills reach its threshold.
pub open spec fn spec_arm_reward(rewards: RewardConfig, round_kills: i32) -> Option<
    PendingRewardView,
> {
    if rewards.round_end_reward_enabled && round_kills >= rewards.round_end_reward_kill_threshold {
        Some(
            PendingRewardView {
                sound: rewards.round_end_reward_sound@,
                volume_percent: rewards.round_end_reward_volume_percent,
                gating: rewards.round_end_reward_gating,
            },
        )
    } else {
        None
    }
}

/// The round-end vibration armed for a round with `round_kills` kills, if it is
/// enabled and the kills reach its threshold.
pub open spec fn spec_arm_vibration(vibrations: VibrationRewardConfig, round_kills: i32) -> Option<
    PendingRoundEndVibration,
> {
    if vibrations.round_end_vibration_enabled && round_kills
        >= vibrations.round_end_vibration_kill_threshold {
        Some(
            PendingRoundEndVibration {
                strength_percent: vibrations.round_end_vibration_strength_percent,
                duration_ms: vibrations.round_end_vibration_duration_ms,
                gating: vibrations.round_end_vibration_gating,
            },
        )
    } else {
        None
    }
}

pub fn arm_round_end_reward_if_eligible(rewards: &RewardConfig, round_kills: i32) -> (r: Option<
    PendingRoundEndReward,
>)
    ensures
        match r {
            Some(p) => spec_arm_reward(*rewards, round_kills) == Some(p@),
            None => spec_arm_reward(*rewards, round_kills) is None,
        },
        r is Some <==> (rewards.round_end_reward_enabled && round_kills
            >= rewards.round_end_reward_kill_threshold),
        r matches Some(p) ==> {
            &&& p.sound@ == rewards.round_end_reward_sound@
            &&& p.volume_percent == rewards.round_end_reward_volume_percent
            &&& p.gating == rewards.round_end_reward_gating
        },
{
    if !rewards.round_end_reward_enabled {
        return None;
    }
    if round_kills < rewards.round_end_reward_kill_threshold {
        return None;
    }
    Some(
        PendingRoundEndReward {
            sound: rewards.round_end_reward_sound.clone(),
            volume_percent: rewards.round_end_reward_volume_percent,
            gating: rewards.round_end_reward_gating,
        },
    )
}

pub fn arm_round_end_vibration_if_eligible(
    vibrations: &VibrationRewardConfig,
    round_kills: i32,
) -> (r: Option<PendingRoundEndVibration>)
    ensures
        r == spec_arm_vibration(*vibrations, round_kills),
        r is Some <==> (vibrations.round_end_vibration_enabled && round_kills
            >= vibrations.round_end_vibration_kill_threshold),
        r matches Some(p) ==> {
            &&& p.strength_percent == vibrations.round_end_vibration_strength_percent
            &&& p.duration_ms == vibrations.round_end_vibration_duration_ms
            &&& p.gating == vibrations.round_end_vibration_gating
        },
{
    if !vibrations.round_end_vibration_enabled {
        return None;
    }
    if round_kills < vibrations.round_end_vibration_kill_threshold {
        return None;
    }
    Some(
        PendingRoundEndVibration {
            strength_percent: vibrations.round_end_vibration_strength_percent,
            duration_ms: vibrations.round_end_vibration_duration_ms,
            gating: vibrations.round_end_vibration_gating,
        },
    )
}

/// With this gating and outcome, an armed round-end reward fires.
pub open spec fn gating_fires(gating: RoundEndRewardGating, outcome: RoundOutcome) -> bool {
    gating == RoundEndRewardGating::Always || outcome == RoundOutcome::Won
}

/// With this gating and outcome, an armed round-end reward is dropped without firing.
pub open spec fn gating_discards(gating: RoundEndRewardGating, outcome: RoundOutcome) -> bool {
    gating == RoundEndRewardGating::OnlyIfTeamWins && outcome == RoundOutcome::Lost
}

// ----------------------------------------------------------------------------
// Tracked game state

/// The observed player's numbers as last seen.
#[derive(Debug, Clone, Copy, PartialEq, Eq, Structural)]
pub struct PlayerState {
    pub health: i32,
    pub armor: i32,
    pub kills: i32,
    pub deaths: i32,
}

/// What the application remembers between two payloads.
#[derive(Debug)]
pub struct GameState {
    pub round_phase: RoundPhase,
    pub map_phase: MapPhase,
    pub steam_id: String,
    pub player_team: Option<String>,
    pub player_state: Option<PlayerState>,
    pub current_round_kills: i32,
    pub pending_round_end_reward: Option<PendingRoundEndReward>,
    pub pending_round_end_vibration: Option<PendingRoundEndVibration>,
}

pub struct GameStateView {
    pub round_phase: RoundPhase,
    pub map_phase: MapPhase,
    pub steam_id: Seq<char>,
    pub player_team: Option<Seq<char>>,
    pub player_state: Option<PlayerState>,
    pub current_round_kills: i32,
    pub pending_round_end_reward: Option<PendingRewardView>,
    pub pending_round_end_vibration: Option<PendingRoundEndVibration>,
}

impl View for GameState {
    type V = GameStateView;

    open spec fn view(&self) -> GameStateView {
        GameStateView {
            round_phase: self.round_phase,
            map_phase: self.map_phase,
            steam_id: self.steam_id@,
            player_team: opt_string_view(self.player_team),
            player_state: self.player_state,
            current_round_kills: self.current_round_kills,
            pending_round_end_reward: match self.pending_round_end_reward {
                Some(p) => Some(p@),
                None => None,
            },
            pending_round_end_vibration: self.pending_round_end_vibration,
        }
    }
}

impl GameStateView {
    /// The state at the start of a match: only the Steam id is kept.
    pub open spec fn reset(self) -> GameStateView {
        GameStateView {
            round_phase: RoundPhase::Unknown,
            map_phase: MapPhase::Unknown,
            steam_id: self.steam_id,
            player_team: None,
            player_state: None,
            current_round_kills: 0,
            pending_round_end_reward: None,
            pending_round_end_vibration: None,
        }
    }
}

impl Default for GameState {
    fn default() -> (r: Self)
        ensures
            r@ == (GameStateView {
                round_phase: RoundPhase::Unknown,
                map_phase: MapPhase::Unknown,
                steam_id: Seq::empty(),
                player_team: None,
                player_state: None,
                current_round_kills: 0,
                pending_round_end_reward: None,
                pending_round_end_vibration: None,
            }),
    {
        GameState {
            round_phase: RoundPhase::Unknown,
            map_phase: MapPhase::Unknown,
            steam_id: String::new(),
            player_team: None,
            player_state: None,
            current_round_kills: 0,
            pending_round_end_reward: None,
            pending_round_end_vibration: None,
        }
    }
}

impl GameState {
    /// Forgets everything but the Steam id, as at the start of a match.
    pub fn reset(&mut self)
        ensures
            final(self)@ == old(self)@.reset(),
    {
        self.round_phase = RoundPhase::Unknown;
        self.map_phase = MapPhase::Unknown;
        self.player_team = None;
        self.player_state = None;
        self.current_round_kills = 0;
        self.pending_round_end_reward = None;
        self.pending_round_end_vibration = None;
    }
}

/// Resolving the armed round-end sound once the round's winner is known: the new
/// state and the sound (with its volume) to play, if any.
pub open spec fn spec_resolve_reward(s: GameStateView, round_winner: Option<Seq<char>>) -> (
    GameStateView,
    Option<(SoundChoiceView, u32)>,
) {
    match s.pending_round_end_reward {
        None => (s, None),
        Some(p) => {
            let outcome = spec_round_outcome(s.player_team, round_winner);
            if gating_fires(p.gating, outcome) {
                (
                    GameStateView { pending_round_end_reward: None, ..s },
                    Some((p.sound, p.volume_percent)),
                )
            } else if gating_discards(p.gating, outcome) {
                (GameStateView { pending_round_end_reward: None, ..s }, None)
            } else {
                (s, None)
            }
        },
    }
}

/// Resolving the armed round-end vibration once the round's winner is known: the
/// new state and the strength and duration to vibrate with, if any.
pub open spec fn spec_resolve_vibration(s: GameStateView, round_winner: Option<Seq<char>>) -> (
    GameStateView,
    Option<(u32, u32)>,
) {
    match s.pending_round_end_vibration {
        None => (s, None),
        Some(p) => {
            let outcome = spec_round_outcome(s.player_team, round_winner);
            if gating_fires(p.gating, outcome) {
                (
                    GameStateView { pending_round_end_vibration: None, ..s },
                    Some((p.strength_percent, p.duration_ms)),
                )
            } else if gating_discards(p.gating, outcome) {
                (GameStateView { pending_round_end_vibration: None, ..s }, None)
            } else {
                (s, None)
            }
        },
    }
}

fn player_team_str(game_state: &GameState) -> (r: Option<&str>)
    ensures
        opt_str_view(r) == game_state@.player_team,
{
    match &game_state.player_team {
        Some(team) => Some(team.as_str()),
        None => None,
    }
}

pub fn resolve_pending_round_end_reward(
    game_state: &mut GameState,
    round_winner: Option<&str>,
) -> (r: Option<(SoundChoice, u32)>)
    ensures
        final(game_state)@ == spec_resolve_reward(old(game_state)@, opt_str_view(round_winner)).0,
        match r {
            Some((sound, volume)) => spec_resolve_reward(
                old(game_state)@,
                opt_str_view(round_winner),
            ).1 == Some((sound@, volume)),
            None => spec_resolve_reward(old(game_state)@, opt_str_view(round_winner)).1 is None,
        },
{
    let gating = match &game_state.pending_round_end_reward {
        Some(pending) => pending.gating,
        None => return None,
    };
    let outcome = round_outcome_for_player(player_team_str(game_state), round_winner);
    match (gating, outcome) {
        (RoundEndRewardGating::Always, _) | (RoundEndRewardGating::OnlyIfTeamWins, RoundOutcome::Won) => {
            match game_state.pending_round_end_reward.take() {
                Some(reward) => Some((reward.sound, reward.volume_percent)),
                None => None,
            }
        },
        (RoundEndRewardGating::OnlyIfTeamWins, RoundOutcome::Lost) => {
            game_state.pending_round_end_reward = None;
            None
        },
        (RoundEndRewardGating::OnlyIfTeamWins, RoundOutcome::Unknown) => None,
    }
}

pub fn resolve_pending_round_end_vibration(
    game_state: &mut GameState,
    round_winner: Option<&str>,
) -> (r: Option<(u32, u32)>)
    ensures
        final(game_state)@ == spec_resolve_vibration(old(game_state)@, opt_str_view(round_winner)).0,
        r == spec_resolve_vibration(old(game_state)@, opt_str_view(round_winner)).1,
{
    let pending = match game_state.pending_round_end_vibration {
        Some(pending) => pending,
        None => return None,
    };
    let outcome = round_outcome_for_player(player_team_str(game_state), round_winner);
    match (pending.gating, outcome) {
        (RoundEndRewardGating::Always, _) | (RoundEndRewardGating::OnlyIfTeamWins, RoundOutcome::Won) => {
            game_state.pending_round_end_vibration = None;
            Some((pending.strength_percent, pending.duration_ms))
        },
        (RoundEndRewardGating::OnlyIfTeamWins, RoundOutcome::Lost) => {
            game_state.pending_round_end_vibration = None;
            None
        },
        (RoundEndRewardGating::OnlyIfTeamWins, RoundOutcome::Unknown) => None,
    }
}


// ----------------------------------------------------------------------------
// Handling one payload

/// What a payload asks the application to do: sounds to play with their volume,
/// and vibrations with their strength (percent) and duration (milliseconds).
#[derive(Debug)]
pub struct RewardActions {
    pub kill_sound: Option<(SoundChoice, u32)>,
    pub round_end_sound: Option<(SoundChoice, u32)>,
    pub kill_vibration: Option<(u32, u32)>,
    pub round_end_vibration: Option<(u32, u32)>,
}

pub struct RewardActionsView {
    pub kill_sound: Option<(SoundChoiceView, u32)>,
    pub round_end_sound: Option<(SoundChoiceView, u32)>,
    pub kill_vibration: Option<(u32, u32)>,
    pub round_end_vibration: Option<(u32, u32)>,
}

pub open spec fn opt_sound_view(o: Option<(SoundChoice, u32)>) -> Option<(SoundChoiceView, u32)> {
    match o {
        Some((sound, volume)) => Some((sound@, volume)),
        None => None,
    }
}

impl View for RewardActions {
    type V = RewardActionsView;

    open spec fn view(&self) -> RewardActionsView {
        RewardActionsView {
            kill_sound: opt_sound_view(self.kill_sound),
            round_end_sound: opt_sound_view(self.round_end_sound),
            kill_vibration: self.kill_vibration,
            round_end_vibration: self.round_end_vibration,
        }
    }
}

/// The provider section names the local player's Steam id.
pub open spec fn provider_step(s: GameStateView, payload: &Payload) -> GameStateView {
    match payload.provider {
        Some(provider) => GameStateView { steam_id: provider.steamid@, ..s },
        None => s,
    }
}

/// The map section updates the match phase; going from warmup to live starts a
/// new match and forgets everything else first.
pub open spec fn map_step(s: GameStateView, payload: &Payload) -> GameStateView {
    match payload.map {
        Some(map) => {
            let started = if s.map_phase == MapPhase::Warmup && map.phase == MapPhase::Live {
                s.reset()
            } else {
                s
            };
            GameStateView { map_phase: map.phase, ..started }
        },
        None => s,
    }
}

/// Arms the round-end rewards when a live round ends.
pub open spec fn arm_step(s: GameStateView, config: &Config, new_phase: RoundPhase) -> GameStateView {
    if s.round_phase == RoundPhase::Live && new_phase == RoundPhase::Over {
        let with_reward = match spec_arm_reward(config.rewards, s.current_round_kills) {
            Some(p) => GameStateView { pending_round_end_reward: Some(p), ..s },
            None => s,
        };
        match spec_arm_vibration(config.vibrations, s.current_round_kills) {
            Some(p) => GameStateView { pending_round_end_vibration: Some(p), ..with_reward },
            None => with_reward,
        }
    } else {
        s
    }
}

/// A new round begins (freeze time or live after another phase): the round's kills
/// and anything still armed are dropped.
pub open spec fn round_start_step(s: GameStateView, new_phase: RoundPhase) -> GameStateView {
    if s.round_phase != new_phase && (new_phase == RoundPhase::Freezetime || new_phase
        == RoundPhase::Live) {
        GameStateView {
            current_round_kills: 0,
            pending_round_end_reward: None,
            pending_round_end_vibration: None,
            ..s
        }
    } else {
        s
    }
}

/// The round section: arming, resolving with the round's winner, starting a new
/// round, then recording the phase. Gives the state and the round-end sound and
/// vibration to play.
pub open spec fn round_step(s: GameStateView, config: &Config, payload: &Payload) -> (
    GameStateView,
    Option<(SoundChoiceView, u32)>,
    Option<(u32, u32)>,
) {
    match payload.round {
        Some(round) => {
            let winner = opt_string_view(round.win_team);
            let armed = arm_step(s, config, round.phase);
            let after_reward = spec_resolve_reward(armed, winner);
            let after_vibration = spec_resolve_vibration(after_reward.0, winner);
            let started = round_start_step(after_vibration.0, round.phase);
            (
                GameStateView { round_phase: round.phase, ..started },
                after_reward.1,
                after_vibration.1,
            )
        },
        None => (s, None, None),
    }
}

/// The player section, when the match is live and the payload shows the local
/// player: records team, round kills and numbers, and decides the kill rewards.
/// `previous_round_phase` is the round phase before the payload was applied.
pub open spec fn player_step(
    s: GameStateView,
    config: &Config,
    payload: &Payload,
    previous_round_phase: RoundPhase,
) -> (GameStateView, Option<(SoundChoiceView, u32)>, Option<(u32, u32)>) {
    if s.map_phase == MapPhase::Live && payload.player is Some && payload.player->0.steamid@
        == s.steam_id {
        let player = payload.player->0;
        let round_phase = if previous_round_phase == RoundPhase::Live || s.round_phase
            == RoundPhase::Live {
            RoundPhase::Live
        } else {
            s.round_phase
        };
        let seen = PlayerState {
            health: player.state.health,
            armor: player.state.armor,
            kills: player.match_stats.kills,
            deaths: player.match_stats.deaths,
        };
        let next = GameStateView {
            player_team: opt_string_view(player.team),
            current_round_kills: player.state.round_kills,
            player_state: Some(seen),
            ..s
        };
        match s.player_state {
            Some(known) => {
                let sound = if spec_kill_triggers(
                    config.rewards.kill_reward_enabled,
                    known.kills,
                    player.match_stats.kills,
                    s.map_phase,
                    round_phase,
                ) {
                    Some((config.rewards.kill_reward_sound@, config.rewards.kill_reward_volume_percent))
                } else {
                    None
                };
                let vibration = if spec_kill_triggers(
                    config.vibrations.kill_vibration_enabled,
                    known.kills,
                    player.match_stats.kills,
                    s.map_phase,
                    round_phase,
                ) {
                    Some(
                        (
                            config.vibrations.kill_vibration_strength_percent,
                            config.vibrations.kill_vibration_duration_ms,
                        ),
                    )
                } else {
                    None
                };
                (next, sound, vibration)
            },
            None => (next, None, None),
        }
    } else {
        (s, None, None)
    }
}

/// Applying one payload to the known state: the new state and what to do.
pub open spec fn payload_step(s: GameStateView, config: &Config, payload: &Payload) -> (
    GameStateView,
    RewardActionsView,
) {
    let after_map = map_step(provider_step(s, payload), payload);
    let after_round = round_step(after_map, config, payload);
    let after_player = player_step(after_round.0, config, payload, s.round_phase);
    (
        after_player.0,
        RewardActionsView {
            kill_sound: after_player.1,
            round_end_sound: after_round.1,
            kill_vibration: after_player.2,
            round_end_vibration: after_round.2,
        },
    )
}

fn apply_round(game_state: &mut GameState, config: &Config, round: crate::gamestateintegration::RoundInfo) -> (r: (
    Option<(SoundChoice, u32)>,
    Option<(u32, u32)>,
))
    ensures
        ({
            let payload = Payload { provider: None, map: None, round: Some(round), player: None };
            let expected = round_step(old(game_state)@, config, &payload);
            &&& final(game_state)@ == expected.0
            &&& opt_sound_view(r.0) == expected.1
            &&& r.1 == expected.2
        }),
{
    let ghost start = game_state@;
    if game_state.round_phase == RoundPhase::Live && round.phase == RoundPhase::Over {
        let kills = game_state.current_round_kills;
        if let Some(reward) = arm_round_end_reward_if_eligible(&config.rewards, kills) {
            game_state.pending_round_end_reward = Some(reward);
        }
        if let Some(vibration) = arm_round_end_vibration_if_eligible(&config.vibrations, kills) {
            game_state.pending_round_end_vibration = Some(vibration);
        }
    }
    let ghost armed = game_state@;
    assert(armed == arm_step(start, config, round.phase));
    let winner: Option<&str> = match &round.win_team {
        Some(w) => Some(w.as_str()),
        None => None,
    };
    assert(opt_str_view(winner) == opt_string_view(round.win_team));
    let sound = resolve_pending_round_end_reward(game_state, winner);
    let vibration = resolve_pending_round_end_vibration(game_state, winner);
    if game_state.round_phase != round.phase && (round.phase == RoundPhase::Freezetime
        || round.phase == RoundPhase::Live) {
        game_state.current_round_kills = 0;
        game_state.pending_round_end_reward = None;
        game_state.pending_round_end_vibration = None;
    }
    game_state.round_phase = round.phase;
    (sound, vibration)
}

fn apply_player(
    game_state: &mut GameState,
    config: &Config,
    player: crate::gamestateintegration::PlayerInfo,
    previous_round_phase: RoundPhase,
) -> (r: (Option<(SoundChoice, u32)>, Option<(u32, u32)>))
    ensures
        ({
            let payload = Payload { provider: None, map: None, round: None, player: Some(player) };
            let expected = player_step(old(game_state)@, config, &payload, previous_round_phase);
            &&& final(game_state)@ == expected.0
            &&& opt_sound_view(r.0) == expected.1
            &&& r.1 == expected.2
        }),
{
    if !(game_state.map_phase == MapPhase::Live && player.steamid == game_state.steam_id) {
        return (None, None);
    }
    let round_phase = if previous_round_phase == RoundPhase::Live || game_state.round_phase
        == RoundPhase::Live {
        RoundPhase::Live
    } else {
        game_state.round_phase
    };
    let map_phase_now = game_state.map_phase;
    let mut kill_sound: Option<(SoundChoice, u32)> = None;
    let mut kill_vibration: Option<(u32, u32)> = None;
    if let Some(known) = game_state.player_state {
        if should_trigger_kill_reward(
            &config.rewards,
            known.kills,
            player.match_stats.kills,
            &map_phase_now,
            &round_phase,
        ) {
            kill_sound = Some(
                (config.rewards.kill_reward_sound.clone(), config.rewards.kill_reward_volume_percent),
            );
        }
        if should_trigger_kill_vibration(
            &config.vibrations,
            known.kills,
            player.match_stats.kills,
            &map_phase_now,
            &round_phase,
        ) {
            kill_vibration = Some(
                (
                    config.vibrations.kill_vibration_strength_percent,
                    config.vibrations.kill_vibration_duration_ms,
                ),
            );
        }
    }
    game_state.player_team = player.team;
    game_state.current_round_kills = player.state.round_kills;
    game_state.player_state = Some(
        PlayerState {
            health: player.state.health,
            armor: player.state.armor,
            kills: player.match_stats.kills,
            deaths: player.match_stats.deaths,
        },
    );
    (kill_sound, kill_vibration)
}

/// Applies one game state integration payload to the known state and returns
/// the rewards it triggers.
pub fn apply_payload(game_state: &mut GameState, config: &Config, payload: Payload) -> (r:
    RewardActions)
    ensures
        final(game_state)@ == payload_step(old(game_state)@, config, &payload).0,
        r@ == payload_step(old(game_state)@, config, &payload).1,
        r.kill_sound matches Some((sound, volume)) ==> sound@ == config.rewards.kill_reward_sound@
            && volume == config.rewards.kill_reward_volume_percent,
        r.kill_vibration matches Some((strength, duration)) ==> strength
            == config.vibrations.kill_vibration_strength_percent && duration
            == config.vibrations.kill_vibration_duration_ms,
{
    let ghost start = game_state@;
    let ghost whole = payload;
    let previous_round_phase = game_state.round_phase;
    let Payload { provider, map, round, player } = payload;
    if let Some(provider) = provider {
        game_state.steam_id = provider.steamid;
    }
    assert(game_state@ == provider_step(start, &whole));
    if let Some(map) = map {
        if game_state.map_phase == MapPhase::Warmup && map.phase == MapPhase::Live {
            game_state.reset();
        }
        game_state.map_phase = map.phase;
    }
    let ghost after_map = game_state@;
    assert(after_map == map_step(provider_step(start, &whole), &whole));
    let mut round_end_sound: Option<(SoundChoice, u32)> = None;
    let mut round_end_vibration: Option<(u32, u32)> = None;
    if let Some(round) = round {
        let ghost only_round = Payload { provider: None, map: None, round: Some(round), player: None };
        let (sound, vibration) = apply_round(game_state, config, round);
        assert(round_step(after_map, config, &only_round) == round_step(after_map, config, &whole));
        round_end_sound = sound;
        round_end_vibration = vibration;
    }
    let ghost after_round = game_state@;
    assert(after_round == round_step(after_map, config, &whole).0);
    let mut kill_sound: Option<(SoundChoice, u32)> = None;
    let mut kill_vibration: Option<(u32, u32)> = None;
    if let Some(player) = player {
        let ghost only_player = Payload { provider: None, map: None, round: None, player: Some(player) };
        let (sound, vibration) = apply_player(game_state, config, player, previous_round_phase);
        assert(player_step(after_round, config, &only_player, previous_round_phase) == player_step(
            after_round,
            config,
            &whole,
            previous_round_phase,
        ));
        kill_sound = sound;
        kill_vibration = vibration;
    }
    RewardActions { kill_sound, round_end_sound, kill_vibration, round_end_vibration }
}


// ----------------------------------------------------------------------------
// Properties of handling payloads

/// A kill reward plays the configured kill sound at the configured kill volume,
/// and vibrates with the configured kill strength and duration.
pub proof fn kill_rewards_use_the_kill_settings(s: GameStateView, config: &Config, payload: &Payload)
    ensures
        ({
            let actions = payload_step(s, config, payload).1;
            &&& actions.kill_sound matches Some((sound, volume)) ==> sound
                == config.rewards.kill_reward_sound@ && volume
                == config.rewards.kill_reward_volume_percent
            &&& actions.kill_vibration matches Some((strength, duration)) ==> strength
                == config.vibrations.kill_vibration_strength_percent && duration
                == config.vibrations.kill_vibration_duration_ms
        }),
{
}

/// A round-end reward is armed exactly when it is enabled and the round's kills
/// reach its threshold, and it carries the configured round-end sound, volume and
/// gating; likewise the round-end vibration with its strength, duration and gating.
pub proof fn armed_rewards_carry_the_round_end_settings(
    rewards: RewardConfig,
    vibrations: VibrationRewardConfig,
    round_kills: i32,
)
    ensures
        spec_arm_reward(rewards, round_kills) is Some <==> (rewards.round_end_reward_enabled
            && round_kills >= rewards.round_end_reward_kill_threshold),
        spec_arm_reward(rewards, round_kills) matches Some(p) ==> {
            &&& p.sound == rewards.round_end_reward_sound@
            &&& p.volume_percent == rewards.round_end_reward_volume_percent
            &&& p.gating == rewards.round_end_reward_gating
        },
        spec_arm_vibration(vibrations, round_kills) is Some <==> (
        vibrations.round_end_vibration_enabled && round_kills
            >= vibrations.round_end_vibration_kill_threshold),
        spec_arm_vibration(vibrations, round_kills) matches Some(p) ==> {
            &&& p.strength_percent == vibrations.round_end_vibration_strength_percent
            &&& p.duration_ms == vibrations.round_end_vibration_duration_ms
            &&& p.gating == vibrations.round_end_vibration_gating
        },
{
}

/// Resolving an armed round-end reward follows its gating: with `Always`, or with
/// `OnlyIfTeamWins` once the player's team is known to have won, it plays the armed
/// sound at the armed volume and is disarmed; on a known loss it is disarmed
/// silently; with an unknown outcome it stays armed. Nothing plays without an armed
/// reward, and nothing but the armed reward changes.
pub proof fn round_end_resolution_follows_gating(s: GameStateView, round_winner: Option<Seq<char>>)
    ensures
        ({
            let (next, played) = spec_resolve_reward(s, round_winner);
            let outcome = spec_round_outcome(s.player_team, round_winner);
            &&& s.pending_round_end_reward is None ==> played is None && next == s
            &&& s.pending_round_end_reward matches Some(p) ==> {
                &&& (p.gating == RoundEndRewardGating::Always || outcome == RoundOutcome::Won)
                    ==> played == Some((p.sound, p.volume_percent))
                    && next.pending_round_end_reward is None
                &&& (p.gating == RoundEndRewardGating::OnlyIfTeamWins && outcome
                    == RoundOutcome::Lost) ==> played is None && next.pending_round_end_reward is None
                &&& (p.gating == RoundEndRewardGating::OnlyIfTeamWins && outcome
                    == RoundOutcome::Unknown) ==> played is None && next == s
            }
            &&& next == (GameStateView { pending_round_end_reward: next.pending_round_end_reward, ..s })
        }),
        ({
            let (next, vibrated) = spec_resolve_vibration(s, round_winner);
            let outcome = spec_round_outcome(s.player_team, round_winner);
            &&& s.pending_round_end_vibration is None ==> vibrated is None && next == s
            &&& s.pending_round_end_vibration matches Some(p) ==> {
                &&& (p.gating == RoundEndRewardGating::Always || outcome == RoundOutcome::Won)
                    ==> vibrated == Some((p.strength_percent, p.duration_ms))
                    && next.pending_round_end_vibration is None
                &&& (p.gating == RoundEndRewardGating::OnlyIfTeamWins && outcome
                    == RoundOutcome::Lost) ==> vibrated is None
                    && next.pending_round_end_vibration is None
                &&& (p.gating == RoundEndRewardGating::OnlyIfTeamWins && outcome
                    == RoundOutcome::Unknown) ==> vibrated is None && next == s
            }
            &&& next == (GameStateView {
                pending_round_end_vibration: next.pending_round_end_vibration,
                ..s
            })
        }),
{
}

/// A round-end sound played for a payload is either the one armed before it, at
/// its armed volume, or the configured round-end sound at the configured round-end
/// volume (armed by this payload); likewise the round-end vibration.
pub proof fn round_end_rewards_come_from_an_arming(s: GameStateView, config: &Config, payload: &Payload)
    ensures
        ({
            let before = map_step(provider_step(s, payload), payload);
            let actions = payload_step(s, config, payload).1;
            &&& actions.round_end_sound matches Some((sound, volume)) ==> (
            before.pending_round_end_reward == Some(
                PendingRewardView {
                    sound,
                    volume_percent: volume,
                    gating: before.pending_round_end_reward->0.gating,
                },
            ) || (sound == config.rewards.round_end_reward_sound@ && volume
                == config.rewards.round_end_reward_volume_percent))
            &&& actions.round_end_vibration matches Some((strength, duration)) ==> (
            before.pending_round_end_vibration matches Some(p) && p.strength_percent == strength
                && p.duration_ms == duration) || (strength
                == config.vibrations.round_end_vibration_strength_percent && duration
                == config.vibrations.round_end_vibration_duration_ms)
        }),
{
}

/// A kill reward (sound or vibration) only fires for the local player in a live
/// match, when that kind of reward is enabled and the reported kill count exceeds
/// the one known before the payload; afterwards the known count is the reported one.
pub proof fn kill_reward_needs_a_new_kill(s: GameStateView, config: &Config, payload: &Payload)
    ensures
        ({
            let (next, actions) = payload_step(s, config, payload);
            (actions.kill_sound is Some || actions.kill_vibration is Some) ==> {
                &&& payload.player is Some
                &&& s.player_state is Some
                &&& payload.player->0.match_stats.kills > s.player_state->0.kills
                &&& next.map_phase == MapPhase::Live
                &&& next.player_state is Some
                &&& next.player_state->0.kills == payload.player->0.match_stats.kills
                &&& actions.kill_sound is Some ==> config.rewards.kill_reward_enabled
                &&& actions.kill_vibration is Some ==> config.vibrations.kill_vibration_enabled
            }
        }),
{
}

/// The game resends payloads: delivering the same payload a second time never
/// triggers a kill reward again.
pub proof fn repeated_payload_triggers_no_kill_reward(
    s: GameStateView,
    config: &Config,
    payload: &Payload,
)
    ensures
        ({
            let first = payload_step(s, config, payload);
            let second = payload_step(first.0, config, payload);
            &&& second.1.kill_sound is None
            &&& second.1.kill_vibration is None
        }),
{
    let first = payload_step(s, config, payload);
    kill_reward_needs_a_new_kill(first.0, config, payload);
}

/// An armed round-end reward fires at most once: a payload that plays the
/// round-end sound (or starts the round-end vibration) leaves nothing of that
/// kind armed.
pub proof fn round_end_reward_fires_once(s: GameStateView, config: &Config, payload: &Payload)
    ensures
        ({
            let (next, actions) = payload_step(s, config, payload);
            &&& actions.round_end_sound is Some ==> next.pending_round_end_reward is None
            &&& actions.round_end_vibration is Some ==> next.pending_round_end_vibration is None
        }),
{
}

/// When a new round starts (freeze time or live after another phase), nothing
/// stays armed from the round before, and the round phase is the reported one.
pub proof fn new_round_drops_armed_rewards(s: GameStateView, config: &Config, payload: &Payload)
    requires
        payload.round is Some,
        payload.round->0.phase == RoundPhase::Freezetime || payload.round->0.phase
            == RoundPhase::Live,
        map_step(provider_step(s, payload), payload).round_phase != payload.round->0.phase,
    ensures
        ({
            let next = payload_step(s, config, payload).0;
            &&& next.pending_round_end_reward is None
            &&& next.pending_round_end_vibration is None
            &&& next.round_phase == payload.round->0.phase
        }),
{
}

/// The payload that moves the match from warmup to live starts a new match: no
/// reward of any kind fires for it.
pub proof fn match_start_forgets_the_warmup(s: GameStateView, config: &Config, payload: &Payload)
    requires
        s.map_phase == MapPhase::Warmup,
        payload.map is Some,
        payload.map->0.phase == MapPhase::Live,
    ensures
        ({
            let (next, actions) = payload_step(s, config, payload);
            &&& actions.kill_sound is None
            &&& actions.kill_vibration is None
            &&& actions.round_end_sound is None
            &&& actions.round_end_vibration is None
            &&& next.map_phase == MapPhase::Live
        }),
{
}

} // verus!
