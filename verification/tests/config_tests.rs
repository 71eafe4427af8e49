use cs2love::config::{
    Config, RewardConfig, RoundEndRewardGating, VibrationRewardConfig, DEFAULT_INTIFACE_URL,
};
use cs2love::sounds::{BundledSound, SoundChoice};

#[test]
fn default_config_matches_application_defaults() {
    let config = Config::default();

    assert!(!config.setup_dismissed);
    assert_eq!(config.intiface_websocket_url, DEFAULT_INTIFACE_URL);
    assert!(config.selected_toy_identifiers.is_empty());
    assert_eq!(config.rewards, RewardConfig::default());
    assert_eq!(config.vibrations, VibrationRewardConfig::default());
}

#[test]
fn default_rewards_match_application_defaults() {
    let rewards = RewardConfig::default();

    assert!(rewards.kill_reward_enabled);
    assert_eq!(
        rewards.kill_reward_sound,
        SoundChoice::Bundled(BundledSound::Clicker)
    );
    assert_eq!(rewards.kill_reward_volume_percent, 100);
    assert!(rewards.round_end_reward_enabled);
    assert_eq!(rewards.round_end_reward_kill_threshold, 3);
    assert_eq!(
        rewards.round_end_reward_gating,
        RoundEndRewardGating::Always
    );
    assert_eq!(
        rewards.round_end_reward_sound,
        SoundChoice::Bundled(BundledSound::GoodPuppy1)
    );
    assert_eq!(rewards.round_end_reward_volume_percent, 100);
}

#[test]
fn default_vibrations_match_application_defaults() {
    let vibrations = VibrationRewardConfig::default();

    assert!(vibrations.kill_vibration_enabled);
    assert_eq!(vibrations.kill_vibration_strength_percent, 60);
    assert_eq!(vibrations.kill_vibration_duration_ms, 1500);
    assert!(vibrations.round_end_vibration_enabled);
    assert_eq!(vibrations.round_end_vibration_kill_threshold, 3);
    assert_eq!(
        vibrations.round_end_vibration_gating,
        RoundEndRewardGating::Always
    );
    assert_eq!(vibrations.round_end_vibration_strength_percent, 100);
    assert_eq!(vibrations.round_end_vibration_duration_ms, 4000);
}

#[test]
fn validate_rejects_kill_volume_above_two_hundred() {
    let mut config = Config::default();
    config.rewards.kill_reward_volume_percent = 201;

    assert!(!config.validate());
}

#[test]
fn validate_rejects_round_end_volume_above_two_hundred() {
    let mut config = Config::default();
    config.rewards.round_end_reward_volume_percent = 500;

    assert!(!config.validate());
}

#[test]
fn validate_rejects_round_end_threshold_below_one() {
    let mut config = Config::default();
    config.rewards.round_end_reward_kill_threshold = 0;

    assert!(!config.validate());
}

#[test]
fn validate_rejects_round_end_threshold_above_five() {
    let mut config = Config::default();
    config.rewards.round_end_reward_kill_threshold = 6;

    assert!(!config.validate());
}

#[test]
fn validate_rejects_kill_vibration_strength_above_one_hundred() {
    let mut config = Config::default();
    config.vibrations.kill_vibration_strength_percent = 101;

    assert!(!config.validate());
}

#[test]
fn validate_rejects_round_end_vibration_strength_above_one_hundred() {
    let mut config = Config::default();
    config.vibrations.round_end_vibration_strength_percent = 250;

    assert!(!config.validate());
}

#[test]
fn validate_rejects_kill_vibration_duration_below_minimum() {
    let mut config = Config::default();
    config.vibrations.kill_vibration_duration_ms = 50;

    assert!(!config.validate());
}

#[test]
fn validate_rejects_round_end_vibration_duration_above_maximum() {
    let mut config = Config::default();
    config.vibrations.round_end_vibration_duration_ms = 60_000;

    assert!(!config.validate());
}

#[test]
fn validate_rejects_round_end_vibration_threshold_outside_range() {
    let mut config = Config::default();
    config.vibrations.round_end_vibration_kill_threshold = 0;
    assert!(!config.validate());

    config.vibrations.round_end_vibration_kill_threshold = 6;
    assert!(!config.validate());
}

#[test]
fn default_config_passes_validation() {
    let config = Config::default();
    assert!(config.validate());
    assert!(config.rewards.is_valid());
    assert!(config.vibrations.is_valid());
}

#[test]
fn validation_accepts_range_bounds() {
    let mut config = Config::default();
    config.rewards.kill_reward_volume_percent = 200;
    config.rewards.round_end_reward_volume_percent = 0;
    config.rewards.round_end_reward_kill_threshold = 1;
    config.vibrations.kill_vibration_strength_percent = 100;
    config.vibrations.kill_vibration_duration_ms = 100;
    config.vibrations.round_end_vibration_duration_ms = 10_000;
    config.vibrations.round_end_vibration_kill_threshold = 5;
    assert!(config.validate());
}

#[test]
fn cloned_config_equals_its_source() {
    let mut config = Config::default();
    config.selected_toy_identifiers.push("Lush 3".to_string());
    config.rewards.kill_reward_sound = SoundChoice::Custom("/tmp/kill.wav".to_string());
    let copy = config.clone();
    assert_eq!(copy, config);
}
