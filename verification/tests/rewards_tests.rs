use cs2love::config::{RewardConfig, RoundEndRewardGating, VibrationRewardConfig};
use cs2love::gamestateintegration::{MapPhase, RoundPhase};
use cs2love::rewards::{
    arm_round_end_reward_if_eligible, arm_round_end_vibration_if_eligible, did_player_win_round,
    resolve_pending_round_end_reward, resolve_pending_round_end_vibration,
    round_outcome_for_player, should_trigger_kill_reward, should_trigger_kill_vibration,
    GameState, PendingRoundEndReward, PendingRoundEndVibration, RoundOutcome,
};
use cs2love::sounds::{BundledSound, SoundChoice};

#[test]
fn did_player_win_round_matches_team_names() {
    assert!(did_player_win_round(Some("CT"), Some("CT")));
    assert!(did_player_win_round(
        Some("Counter-Terrorist"),
        Some("counter_terrorist")
    ));
    assert!(!did_player_win_round(Some("T"), Some("CT")));
}

#[test]
fn round_outcome_for_player_detects_win_loss_and_unknown() {
    assert_eq!(
        round_outcome_for_player(Some("CT"), Some("CT")),
        RoundOutcome::Won
    );
    assert_eq!(
        round_outcome_for_player(Some("T"), Some("CT")),
        RoundOutcome::Lost
    );
    assert_eq!(
        round_outcome_for_player(None, Some("CT")),
        RoundOutcome::Unknown
    );
}

#[test]
fn should_trigger_kill_reward_fires_on_positive_kill_delta_during_live_round() {
    let rewards = RewardConfig::default();
    assert!(should_trigger_kill_reward(
        &rewards,
        2,
        3,
        &MapPhase::Live,
        &RoundPhase::Live
    ));
}

#[test]
fn should_trigger_kill_reward_ignores_zero_or_negative_delta() {
    let rewards = RewardConfig::default();
    assert!(!should_trigger_kill_reward(
        &rewards,
        3,
        3,
        &MapPhase::Live,
        &RoundPhase::Live
    ));
    assert!(!should_trigger_kill_reward(
        &rewards,
        3,
        2,
        &MapPhase::Live,
        &RoundPhase::Live
    ));
}

#[test]
fn should_trigger_kill_reward_suppressed_outside_live_phase() {
    let rewards = RewardConfig::default();
    assert!(!should_trigger_kill_reward(
        &rewards,
        0,
        1,
        &MapPhase::Warmup,
        &RoundPhase::Live
    ));
    assert!(!should_trigger_kill_reward(
        &rewards,
        0,
        1,
        &MapPhase::Live,
        &RoundPhase::Freezetime
    ));
    assert!(!should_trigger_kill_reward(
        &rewards,
        0,
        1,
        &MapPhase::Live,
        &RoundPhase::Over
    ));
}

#[test]
fn should_trigger_kill_reward_respects_disabled_setting() {
    let mut rewards = RewardConfig::default();
    rewards.kill_reward_enabled = false;
    assert!(!should_trigger_kill_reward(
        &rewards,
        0,
        1,
        &MapPhase::Live,
        &RoundPhase::Live
    ));
}

#[test]
fn should_trigger_kill_vibration_fires_on_positive_kill_delta_during_live_round() {
    let vibrations = VibrationRewardConfig::default();
    assert!(should_trigger_kill_vibration(
        &vibrations,
        2,
        3,
        &MapPhase::Live,
        &RoundPhase::Live
    ));
}

#[test]
fn should_trigger_kill_vibration_ignores_zero_or_negative_delta() {
    let vibrations = VibrationRewardConfig::default();
    assert!(!should_trigger_kill_vibration(
        &vibrations,
        3,
        3,
        &MapPhase::Live,
        &RoundPhase::Live
    ));
    assert!(!should_trigger_kill_vibration(
        &vibrations,
        3,
        2,
        &MapPhase::Live,
        &RoundPhase::Live
    ));
}

#[test]
fn should_trigger_kill_vibration_suppressed_outside_live_phase() {
    let vibrations = VibrationRewardConfig::default();
    assert!(!should_trigger_kill_vibration(
        &vibrations,
        0,
        1,
        &MapPhase::Warmup,
        &RoundPhase::Live
    ));
    assert!(!should_trigger_kill_vibration(
        &vibrations,
        0,
        1,
        &MapPhase::Live,
        &RoundPhase::Freezetime
    ));
    assert!(!should_trigger_kill_vibration(
        &vibrations,
        0,
        1,
        &MapPhase::Live,
        &RoundPhase::Over
    ));
}

#[test]
fn should_trigger_kill_vibration_respects_disabled_setting() {
    let mut vibrations = VibrationRewardConfig::default();
    vibrations.kill_vibration_enabled = false;
    assert!(!should_trigger_kill_vibration(
        &vibrations,
        0,
        1,
        &MapPhase::Live,
        &RoundPhase::Live
    ));
}

#[test]
fn arm_round_end_reward_returns_pending_when_threshold_met() {
    let rewards = RewardConfig::default();
    let pending = arm_round_end_reward_if_eligible(&rewards, 3).expect("should arm");
    assert_eq!(pending.sound, rewards.round_end_reward_sound);
    assert_eq!(pending.volume_percent, rewards.round_end_reward_volume_percent);
    assert_eq!(pending.gating, rewards.round_end_reward_gating);
}

#[test]
fn arm_round_end_reward_returns_none_below_threshold() {
    let rewards = RewardConfig::default();
    assert!(arm_round_end_reward_if_eligible(&rewards, 2).is_none());
}

#[test]
fn arm_round_end_reward_returns_none_when_disabled() {
    let mut rewards = RewardConfig::default();
    rewards.round_end_reward_enabled = false;
    assert!(arm_round_end_reward_if_eligible(&rewards, 5).is_none());
}

#[test]
fn arm_round_end_vibration_returns_pending_when_threshold_met() {
    let vibrations = VibrationRewardConfig::default();
    let pending = arm_round_end_vibration_if_eligible(&vibrations, 3).expect("should arm");
    assert_eq!(
        pending.strength_percent,
        vibrations.round_end_vibration_strength_percent
    );
    assert_eq!(
        pending.duration_ms,
        vibrations.round_end_vibration_duration_ms
    );
    assert_eq!(pending.gating, vibrations.round_end_vibration_gating);
}

#[test]
fn arm_round_end_vibration_returns_none_below_threshold() {
    let vibrations = VibrationRewardConfig::default();
    assert!(arm_round_end_vibration_if_eligible(&vibrations, 2).is_none());
}

#[test]
fn arm_round_end_vibration_returns_none_when_disabled() {
    let mut vibrations = VibrationRewardConfig::default();
    vibrations.round_end_vibration_enabled = false;
    assert!(arm_round_end_vibration_if_eligible(&vibrations, 5).is_none());
}

fn pending_reward(gating: RoundEndRewardGating) -> PendingRoundEndReward {
    PendingRoundEndReward {
        sound: SoundChoice::Bundled(BundledSound::GoodPuppy1),
        volume_percent: 100,
        gating,
    }
}

fn pending_vibration(gating: RoundEndRewardGating) -> PendingRoundEndVibration {
    PendingRoundEndVibration {
        strength_percent: 80,
        duration_ms: 3000,
        gating,
    }
}

#[test]
fn resolve_pending_round_end_reward_fires_unconditionally_when_gating_is_always() {
    for winner in [Some("CT"), Some("T"), None] {
        let mut game_state = GameState::default();
        game_state.player_team = Some("CT".into());
        game_state.pending_round_end_reward = Some(pending_reward(RoundEndRewardGating::Always));

        let result = resolve_pending_round_end_reward(&mut game_state, winner);

        assert!(result.is_some(), "winner={:?} should fire reward", winner);
        assert!(game_state.pending_round_end_reward.is_none());
    }
}

#[test]
fn resolve_pending_round_end_reward_fires_only_on_win_for_only_if_team_wins() {
    let mut game_state = GameState::default();
    game_state.player_team = Some("CT".into());
    game_state.pending_round_end_reward =
        Some(pending_reward(RoundEndRewardGating::OnlyIfTeamWins));

    let result = resolve_pending_round_end_reward(&mut game_state, Some("CT"));
    assert!(result.is_some());
    assert!(game_state.pending_round_end_reward.is_none());
}

#[test]
fn resolve_pending_round_end_reward_clears_silently_on_loss_for_only_if_team_wins() {
    let mut game_state = GameState::default();
    game_state.player_team = Some("T".into());
    game_state.pending_round_end_reward =
        Some(pending_reward(RoundEndRewardGating::OnlyIfTeamWins));

    let result = resolve_pending_round_end_reward(&mut game_state, Some("CT"));
    assert!(result.is_none());
    assert!(game_state.pending_round_end_reward.is_none());
}

#[test]
fn resolve_pending_round_end_reward_keeps_pending_when_winner_unknown() {
    let mut game_state = GameState::default();
    game_state.player_team = Some("CT".into());
    game_state.pending_round_end_reward =
        Some(pending_reward(RoundEndRewardGating::OnlyIfTeamWins));

    let result = resolve_pending_round_end_reward(&mut game_state, None);
    assert!(result.is_none());
    assert!(game_state.pending_round_end_reward.is_some());
}

#[test]
fn resolve_pending_round_end_reward_returns_none_when_nothing_pending() {
    let mut game_state = GameState::default();
    let result = resolve_pending_round_end_reward(&mut game_state, Some("CT"));
    assert!(result.is_none());
}

#[test]
fn resolve_pending_round_end_vibration_fires_unconditionally_when_gating_is_always() {
    for winner in [Some("CT"), Some("T"), None] {
        let mut game_state = GameState::default();
        game_state.player_team = Some("CT".into());
        game_state.pending_round_end_vibration =
            Some(pending_vibration(RoundEndRewardGating::Always));

        let result = resolve_pending_round_end_vibration(&mut game_state, winner);

        assert_eq!(result, Some((80, 3000)), "winner={:?} should fire", winner);
        assert!(game_state.pending_round_end_vibration.is_none());
    }
}

#[test]
fn resolve_pending_round_end_vibration_fires_only_on_win_for_only_if_team_wins() {
    let mut game_state = GameState::default();
    game_state.player_team = Some("CT".into());
    game_state.pending_round_end_vibration =
        Some(pending_vibration(RoundEndRewardGating::OnlyIfTeamWins));

    let result = resolve_pending_round_end_vibration(&mut game_state, Some("CT"));
    assert_eq!(result, Some((80, 3000)));
    assert!(game_state.pending_round_end_vibration.is_none());
}

#[test]
fn resolve_pending_round_end_vibration_clears_silently_on_loss_for_only_if_team_wins() {
    let mut game_state = GameState::default();
    game_state.player_team = Some("T".into());
    game_state.pending_round_end_vibration =
        Some(pending_vibration(RoundEndRewardGating::OnlyIfTeamWins));

    let result = resolve_pending_round_end_vibration(&mut game_state, Some("CT"));
    assert!(result.is_none());
    assert!(game_state.pending_round_end_vibration.is_none());
}

#[test]
fn resolve_pending_round_end_vibration_keeps_pending_when_winner_unknown() {
    let mut game_state = GameState::default();
    game_state.player_team = Some("CT".into());
    game_state.pending_round_end_vibration =
        Some(pending_vibration(RoundEndRewardGating::OnlyIfTeamWins));

    let result = resolve_pending_round_end_vibration(&mut game_state, None);
    assert!(result.is_none());
    assert!(game_state.pending_round_end_vibration.is_some());
}

#[test]
fn resolve_pending_round_end_vibration_returns_none_when_nothing_pending() {
    let mut game_state = GameState::default();
    let result = resolve_pending_round_end_vibration(&mut game_state, Some("CT"));
    assert!(result.is_none());
}

#[test]
fn win_check_is_symmetric_and_reflexive() {
    for (a, b) in [("CT", "ct"), ("Terrorist", "CT"), ("T", "T")] {
        assert_eq!(
            did_player_win_round(Some(a), Some(b)),
            did_player_win_round(Some(b), Some(a))
        );
        assert!(did_player_win_round(Some(a), Some(a)));
    }
    assert!(!did_player_win_round(None, None));
    assert_eq!(round_outcome_for_player(Some("CT"), None), RoundOutcome::Unknown);
}
