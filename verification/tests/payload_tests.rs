use cs2love::config::{Config, RoundEndRewardGating};
use cs2love::gamestateintegration::{
    MapInfo, MapPhase, Payload, PlayerInfo, PlayerMatchStats, PlayerRoundState, Provider,
    RoundInfo, RoundPhase,
};
use cs2love::rewards::{apply_payload, normalize_team_name, GameState, PlayerState};
use cs2love::sounds::{BundledSound, SoundChoice};

const ME: &str = "76561198000000001";

fn empty() -> Payload {
    Payload { provider: None, map: None, round: None, player: None }
}

fn player(steamid: &str, team: Option<&str>, kills: i32, round_kills: i32) -> PlayerInfo {
    PlayerInfo {
        steamid: steamid.to_string(),
        team: team.map(|t| t.to_string()),
        state: PlayerRoundState { health: 100, armor: 50, round_kills },
        match_stats: PlayerMatchStats { kills, deaths: 1 },
    }
}

fn live_state() -> GameState {
    let mut state = GameState::default();
    state.steam_id = ME.to_string();
    state.map_phase = MapPhase::Live;
    state.round_phase = RoundPhase::Live;
    state.player_team = Some("CT".to_string());
    state.player_state = Some(PlayerState { health: 100, armor: 50, kills: 2, deaths: 1 });
    state
}

#[test]
fn provider_sets_steam_id() {
    let mut state = GameState::default();
    let mut payload = empty();
    payload.provider = Some(Provider { steamid: ME.to_string() });
    let actions = apply_payload(&mut state, &Config::default(), payload);
    assert_eq!(state.steam_id, ME);
    assert!(actions.kill_sound.is_none());
}

#[test]
fn kill_in_live_round_plays_sound_and_vibrates() {
    let mut state = live_state();
    let mut payload = empty();
    payload.player = Some(player(ME, Some("CT"), 3, 1));
    let actions = apply_payload(&mut state, &Config::default(), payload);
    assert_eq!(
        actions.kill_sound,
        Some((SoundChoice::Bundled(BundledSound::Clicker), 100))
    );
    assert_eq!(actions.kill_vibration, Some((60, 1500)));
    assert!(actions.round_end_sound.is_none());
    assert_eq!(state.player_state.unwrap().kills, 3);
    assert_eq!(state.current_round_kills, 1);
}

#[test]
fn repeated_payload_does_not_repeat_kill_reward() {
    let mut state = live_state();
    let config = Config::default();
    let mut payload = empty();
    payload.player = Some(player(ME, Some("CT"), 3, 1));
    let first = apply_payload(&mut state, &config, payload.clone());
    let second = apply_payload(&mut state, &config, payload);
    assert!(first.kill_sound.is_some());
    assert!(second.kill_sound.is_none());
    assert!(second.kill_vibration.is_none());
}

#[test]
fn spectated_player_is_ignored() {
    let mut state = live_state();
    let mut payload = empty();
    payload.player = Some(player("someone-else", Some("T"), 9, 4));
    let actions = apply_payload(&mut state, &Config::default(), payload);
    assert!(actions.kill_sound.is_none());
    assert_eq!(state.player_state.unwrap().kills, 2);
    assert_eq!(state.player_team.as_deref(), Some("CT"));
}

#[test]
fn first_player_sighting_only_records() {
    let mut state = live_state();
    state.player_state = None;
    let mut payload = empty();
    payload.player = Some(player(ME, Some("CT"), 5, 2));
    let actions = apply_payload(&mut state, &Config::default(), payload);
    assert!(actions.kill_sound.is_none());
    assert_eq!(
        state.player_state,
        Some(PlayerState { health: 100, armor: 50, kills: 5, deaths: 1 })
    );
}

#[test]
fn kill_reported_with_round_end_counts_as_live() {
    // The round was live before this payload, so a kill reported together with
    // the round ending still rewards.
    let mut state = live_state();
    let mut payload = empty();
    payload.round = Some(RoundInfo { phase: RoundPhase::Over, win_team: None });
    payload.player = Some(player(ME, Some("CT"), 3, 1));
    let actions = apply_payload(&mut state, &Config::default(), payload);
    assert!(actions.kill_sound.is_some());
}

#[test]
fn round_end_with_enough_kills_plays_round_end_reward() {
    let mut state = live_state();
    state.current_round_kills = 3;
    let mut payload = empty();
    payload.round = Some(RoundInfo { phase: RoundPhase::Over, win_team: Some("CT".into()) });
    let actions = apply_payload(&mut state, &Config::default(), payload);
    assert_eq!(
        actions.round_end_sound,
        Some((SoundChoice::Bundled(BundledSound::GoodPuppy1), 100))
    );
    assert_eq!(actions.round_end_vibration, Some((100, 4000)));
    assert!(state.pending_round_end_reward.is_none());
    assert!(state.pending_round_end_vibration.is_none());
    assert_eq!(state.round_phase, RoundPhase::Over);
}

#[test]
fn round_end_below_threshold_plays_nothing() {
    let mut state = live_state();
    state.current_round_kills = 2;
    let mut payload = empty();
    payload.round = Some(RoundInfo { phase: RoundPhase::Over, win_team: Some("CT".into()) });
    let actions = apply_payload(&mut state, &Config::default(), payload);
    assert!(actions.round_end_sound.is_none());
    assert!(actions.round_end_vibration.is_none());
}

#[test]
fn win_only_reward_waits_for_winner_then_fires() {
    let mut config = Config::default();
    config.rewards.round_end_reward_gating = RoundEndRewardGating::OnlyIfTeamWins;
    config.vibrations.round_end_vibration_gating = RoundEndRewardGating::OnlyIfTeamWins;
    let mut state = live_state();
    state.current_round_kills = 4;

    let mut over = empty();
    over.round = Some(RoundInfo { phase: RoundPhase::Over, win_team: None });
    let actions = apply_payload(&mut state, &config, over);
    assert!(actions.round_end_sound.is_none());
    assert!(state.pending_round_end_reward.is_some());
    assert!(state.pending_round_end_vibration.is_some());

    let mut decided = empty();
    decided.round = Some(RoundInfo {
        phase: RoundPhase::Over,
        win_team: Some("ct".into()),
    });
    let actions = apply_payload(&mut state, &config, decided);
    assert!(actions.round_end_sound.is_some());
    assert_eq!(actions.round_end_vibration, Some((100, 4000)));
    assert!(state.pending_round_end_reward.is_none());
}

#[test]
fn win_only_reward_is_dropped_on_loss() {
    let mut config = Config::default();
    config.rewards.round_end_reward_gating = RoundEndRewardGating::OnlyIfTeamWins;
    let mut state = live_state();
    state.current_round_kills = 4;
    let mut payload = empty();
    payload.round = Some(RoundInfo {
        phase: RoundPhase::Over,
        win_team: Some("T".into()),
    });
    let actions = apply_payload(&mut state, &config, payload);
    assert!(actions.round_end_sound.is_none());
    assert!(state.pending_round_end_reward.is_none());
}

#[test]
fn new_round_drops_undecided_reward_and_kills() {
    let mut config = Config::default();
    config.rewards.round_end_reward_gating = RoundEndRewardGating::OnlyIfTeamWins;
    let mut state = live_state();
    state.current_round_kills = 4;
    let mut over = empty();
    over.round = Some(RoundInfo { phase: RoundPhase::Over, win_team: None });
    apply_payload(&mut state, &config, over);
    assert!(state.pending_round_end_reward.is_some());

    let mut freeze = empty();
    freeze.round = Some(RoundInfo { phase: RoundPhase::Freezetime, win_team: None });
    let actions = apply_payload(&mut state, &config, freeze);
    assert!(actions.round_end_sound.is_none());
    assert!(state.pending_round_end_reward.is_none());
    assert_eq!(state.current_round_kills, 0);
    assert_eq!(state.round_phase, RoundPhase::Freezetime);
}

#[test]
fn match_start_resets_state_but_keeps_steam_id() {
    let mut state = live_state();
    state.map_phase = MapPhase::Warmup;
    state.current_round_kills = 3;
    let mut payload = empty();
    payload.map = Some(MapInfo { phase: MapPhase::Live });
    payload.player = Some(player(ME, Some("T"), 0, 0));
    let actions = apply_payload(&mut state, &Config::default(), payload);
    assert!(actions.kill_sound.is_none());
    assert_eq!(state.map_phase, MapPhase::Live);
    assert_eq!(state.round_phase, RoundPhase::Unknown);
    assert_eq!(state.steam_id, ME);
    assert_eq!(state.player_team.as_deref(), Some("T"));
    assert_eq!(
        state.player_state,
        Some(PlayerState { health: 100, armor: 50, kills: 0, deaths: 1 })
    );
}

#[test]
fn no_kill_rewards_outside_live_map() {
    let mut state = live_state();
    state.map_phase = MapPhase::Warmup;
    let mut payload = empty();
    payload.player = Some(player(ME, Some("CT"), 7, 1));
    let actions = apply_payload(&mut state, &Config::default(), payload);
    assert!(actions.kill_sound.is_none());
    assert_eq!(state.player_state.unwrap().kills, 2);
}

#[test]
fn reset_keeps_only_steam_id() {
    let mut state = live_state();
    state.current_round_kills = 2;
    state.reset();
    assert_eq!(state.steam_id, ME);
    assert_eq!(state.map_phase, MapPhase::Unknown);
    assert_eq!(state.round_phase, RoundPhase::Unknown);
    assert!(state.player_team.is_none());
    assert!(state.player_state.is_none());
    assert_eq!(state.current_round_kills, 0);
}

#[test]
fn normalize_team_name_keeps_lowercase_ascii_alphanumerics() {
    assert_eq!(normalize_team_name("Counter-Terrorist"), "counterterrorist");
    assert_eq!(normalize_team_name("T_2 é!"), "t2");
    assert_eq!(normalize_team_name(""), "");
    for team in ["Counter-Terrorist", "t", "Team 7_b"] {
        assert_eq!(
            normalize_team_name(&team.to_ascii_uppercase()),
            normalize_team_name(team)
        );
    }
    let once = normalize_team_name("Team Α-1");
    assert_eq!(normalize_team_name(&once), once);
}
