//! The user's settings: which rewards are on, their sounds, strengths and thresholds.

use vstd::prelude::*;

use crate::sounds::{BundledSound, SoundChoice, VOLUME_PERCENT_MAX};

verus! {

/// File the settings are saved to, in the working directory.
pub const CONFIG_FILE_PATH: &'static str = "cs2love-config.json";

pub const MIN_REWARD_KILL_THRESHOLD: i32 = 1;
pub const MAX_REWARD_KILL_THRESHOLD: i32 = 5;

pub const MAX_VIBRATION_STRENGTH_PERCENT: u32 = 100;
pub const MIN_VIBRATION_DURATION_MS: u32 = 100;
pub const MAX_VIBRATION_DURATION_MS: u32 = 10_000;

/// Where Intiface Central listens unless the user says otherwise.
pub const DEFAULT_INTIFACE_URL: &'static str = "ws://127.0.0.1:12345";

/// Whether a round-end reward fires whenever the kill threshold was met,
/// or only when the player's team also won the round.
#[derive(Debug, Clone, Copy, PartialEq, Eq, Structural)]
pub enum RoundEndRewardGating {
    Always,
    OnlyIfTeamWins,
}

impl Default for RoundEndRewardGating {
    fn default() -> (r: Self)
        ensures
            r == RoundEndRewardGating::Always,
    {
        RoundEndRewardGating::Always
    }
}

/// Settings of the sound rewards.
#[derive(Debug, PartialEq)]
pub struct RewardConfig {
    pub kill_reward_enabled: bool,
    pub kill_reward_sound: SoundChoice,
    pub kill_reward_volume_percent: u32,
    pub round_end_reward_enabled: bool,
    pub round_end_reward_kill_threshold: i32,
    pub round_end_reward_gating: RoundEndRewardGating,
    pub round_end_reward_sound: SoundChoice,
    pub round_end_reward_volume_percent: u32,
}

/// Whether a kill threshold lies in the range the settings allow.
pub open spec fn threshold_in_range(threshold: i32) -> bool {
    MIN_REWARD_KILL_THRESHOLD <= threshold <= MAX_REWARD_KILL_THRESHOLD
}

/// Whether a vibration duration lies in the range the settings allow.
pub open spec fn duration_in_range(duration_ms: u32) -> bool {
    MIN_VIBRATION_DURATION_MS <= duration_ms <= MAX_VIBRATION_DURATION_MS
}

impl RewardConfig {
    /// Both volumes are at most [`VOLUME_PERCENT_MAX`] and the round-end threshold is in range.
    pub open spec fn spec_is_valid(&self) -> bool {
        &&& self.kill_reward_volume_percent <= VOLUME_PERCENT_MAX
        &&& self.round_end_reward_volume_percent <= VOLUME_PERCENT_MAX
        &&& threshold_in_range(self.round_end_reward_kill_threshold)
    }

    /// The documented defaults of the sound rewards.
    pub open spec fn spec_default() -> RewardConfig {
        RewardConfig {
            kill_reward_enabled: true,
            kill_reward_sound: SoundChoice::Bundled(BundledSound::Clicker),
            kill_reward_volume_percent: 100,
            round_end_reward_enabled: true,
            round_end_reward_kill_threshold: 3,
            round_end_reward_gating: RoundEndRewardGating::Always,
            round_end_reward_sound: SoundChoice::Bundled(BundledSound::GoodPuppy1),
            round_end_reward_volume_percent: 100,
        }
    }

    /// The two hold the same settings, sounds compared by their values.
    pub open spec fn same_settings(&self, other: &RewardConfig) -> bool {
        &&& self.kill_reward_enabled == other.kill_reward_enabled
        &&& self.kill_reward_sound@ == other.kill_reward_sound@
        &&& self.kill_reward_volume_percent == other.kill_reward_volume_percent
        &&& self.round_end_reward_enabled == other.round_end_reward_enabled
        &&& self.round_end_reward_kill_threshold == other.round_end_reward_kill_threshold
        &&& self.round_end_reward_gating == other.round_end_reward_gating
        &&& self.round_end_reward_sound@ == other.round_end_reward_sound@
        &&& self.round_end_reward_volume_percent == other.round_end_reward_volume_percent
    }

    pub fn is_valid(&self) -> (r: bool)
        ensures
            r == self.spec_is_valid(),
            r <==> (self.kill_reward_volume_percent <= VOLUME_PERCENT_MAX
                && self.round_end_reward_volume_percent <= VOLUME_PERCENT_MAX
                && MIN_REWARD_KILL_THRESHOLD <= self.round_end_reward_kill_threshold
                <= MAX_REWARD_KILL_THRESHOLD),
    {
        if self.kill_reward_volume_percent > VOLUME_PERCENT_MAX {
            return false;
        }
        if self.round_end_reward_volume_percent > VOLUME_PERCENT_MAX {
            return false;
        }
        if !(MIN_REWARD_KILL_THRESHOLD <= self.round_end_reward_kill_threshold
            && self.round_end_reward_kill_threshold <= MAX_REWARD_KILL_THRESHOLD) {
            return false;
        }
        true
    }
}

impl Default for RewardConfig {
    fn default() -> (r: Self)
        ensures
            r == RewardConfig::spec_default(),
    {
        RewardConfig {
            kill_reward_enabled: true,
            kill_reward_sound: SoundChoice::Bundled(BundledSound::Clicker),
            kill_reward_volume_percent: 100,
            round_end_reward_enabled: true,
            round_end_reward_kill_threshold: 3,
            round_end_reward_gating: RoundEndRewardGating::Always,
            round_end_reward_sound: SoundChoice::Bundled(BundledSound::GoodPuppy1),
            round_end_reward_volume_percent: 100,
        }
    }
}

impl Clone for RewardConfig {
    fn clone(&self) -> (r: Self)
        ensures
            r.same_settings(self),
    {
        RewardConfig {
            kill_reward_enabled: self.kill_reward_enabled,
            kill_reward_sound: self.kill_reward_sound.clone(),
            kill_reward_volume_percent: self.kill_reward_volume_percent,
            round_end_reward_enabled: self.round_end_reward_enabled,
            round_end_reward_kill_threshold: self.round_end_reward_kill_threshold,
            round_end_reward_gating: self.round_end_reward_gating,
            round_end_reward_sound: self.round_end_reward_sound.clone(),
            round_end_reward_volume_percent: self.round_end_reward_volume_percent,
        }
    }
}

/// Settings of the vibration rewards.
#[derive(Debug, Clone, Copy, PartialEq, Eq, Structural)]
pub struct VibrationRewardConfig {
    pub kill_vibration_enabled: bool,
    pub kill_vibration_strength_percent: u32,
    pub kill_vibration_duration_ms: u32,
    pub round_end_vibration_enabled: bool,
    pub round_end_vibration_kill_threshold: i32,
    pub round_end_vibration_gating: RoundEndRewardGating,
    pub round_end_vibration_strength_percent: u32,
    pub round_end_vibration_duration_ms: u32,
}

impl VibrationRewardConfig {
    /// Both strengths are at most [`MAX_VIBRATION_STRENGTH_PERCENT`], both durations
    /// and the round-end threshold are in range.
    pub open spec fn spec_is_valid(&self) -> bool {
        &&& self.kill_vibration_strength_percent <= MAX_VIBRATION_STRENGTH_PERCENT
        &&& self.round_end_vibration_strength_percent <= MAX_VIBRATION_STRENGTH_PERCENT
        &&& duration_in_range(self.kill_vibration_duration_ms)
        &&& duration_in_range(self.round_end_vibration_duration_ms)
        &&& threshold_in_range(self.round_end_vibration_kill_threshold)
    }

    /// The documented defaults of the vibration rewards.
    pub open spec fn spec_default() -> VibrationRewardConfig {
        VibrationRewardConfig {
            kill_vibration_enabled: true,
            kill_vibration_strength_percent: 60,
            kill_vibration_duration_ms: 1500,
            round_end_vibration_enabled: true,
            round_end_vibration_kill_threshold: 3,
            round_end_vibration_gating: RoundEndRewardGating::Always,
            round_end_vibration_strength_percent: 100,
            round_end_vibration_duration_ms: 4000,
        }
    }

    pub fn is_valid(&self) -> (r: bool)
        ensures
            r == self.spec_is_valid(),
            r <==> (self.kill_vibration_strength_percent <= MAX_VIBRATION_STRENGTH_PERCENT
                && self.round_end_vibration_strength_percent <= MAX_VIBRATION_STRENGTH_PERCENT
                && MIN_VIBRATION_DURATION_MS <= self.kill_vibration_duration_ms
                <= MAX_VIBRATION_DURATION_MS && MIN_VIBRATION_DURATION_MS
                <= self.round_end_vibration_duration_ms <= MAX_VIBRATION_DURATION_MS
                && MIN_REWARD_KILL_THRESHOLD <= self.round_end_vibration_kill_threshold
                <= MAX_REWARD_KILL_THRESHOLD),
    {
        if self.kill_vibration_strength_percent > MAX_VIBRATION_STRENGTH_PERCENT {
            return false;
        }
        if self.round_end_vibration_strength_percent > MAX_VIBRATION_STRENGTH_PERCENT {
            return false;
        }
        if !(MIN_VIBRATION_DURATION_MS <= self.kill_vibration_duration_ms
            && self.kill_vibration_duration_ms <= MAX_VIBRATION_DURATION_MS) {
            return false;
        }
        if !(MIN_VIBRATION_DURATION_MS <= self.round_end_vibration_duration_ms
            && self.round_end_vibration_duration_ms <= MAX_VIBRATION_DURATION_MS) {
            return false;
        }
        if !(MIN_REWARD_KILL_THRESHOLD <= self.round_end_vibration_kill_threshold
            && self.round_end_vibration_kill_threshold <= MAX_REWARD_KILL_THRESHOLD) {
            return false;
        }
        true
    }
}

impl Default for VibrationRewardConfig {
    fn default() -> (r: Self)
        ensures
            r == VibrationRewardConfig::spec_default(),
    {
        VibrationRewardConfig {
            kill_vibration_enabled: true,
            kill_vibration_strength_percent: 60,
            kill_vibration_duration_ms: 1500,
            round_end_vibration_enabled: true,
            round_end_vibration_kill_threshold: 3,
            round_end_vibration_gating: RoundEndRewardGating::Always,
            round_end_vibration_strength_percent: 100,
            round_end_vibration_duration_ms: 4000,
        }
    }
}

/// All settings of the application.
#[derive(Debug, PartialEq)]
pub struct Config {
    pub setup_dismissed: bool,
    pub intiface_websocket_url: String,
    pub selected_toy_identifiers: Vec<String>,
    pub rewards: RewardConfig,
    pub vibrations: VibrationRewardConfig,
}

impl Config {
    /// Both the sound and the vibration settings are valid.
    pub open spec fn spec_validate(&self) -> bool {
        self.rewards.spec_is_valid() && self.vibrations.spec_is_valid()
    }

    pub fn validate(&self) -> (r: bool)
        ensures
            r == self.spec_validate(),
            r <==> (self.rewards.kill_reward_volume_percent <= VOLUME_PERCENT_MAX
                && self.rewards.round_end_reward_volume_percent <= VOLUME_PERCENT_MAX
                && MIN_REWARD_KILL_THRESHOLD <= self.rewards.round_end_reward_kill_threshold
                <= MAX_REWARD_KILL_THRESHOLD && self.vibrations.kill_vibration_strength_percent
                <= MAX_VIBRATION_STRENGTH_PERCENT
                && self.vibrations.round_end_vibration_strength_percent
                <= MAX_VIBRATION_STRENGTH_PERCENT && MIN_VIBRATION_DURATION_MS
                <= self.vibrations.kill_vibration_duration_ms <= MAX_VIBRATION_DURATION_MS
                && MIN_VIBRATION_DURATION_MS <= self.vibrations.round_end_vibration_duration_ms
                <= MAX_VIBRATION_DURATION_MS && MIN_REWARD_KILL_THRESHOLD
                <= self.vibrations.round_end_vibration_kill_threshold
                <= MAX_REWARD_KILL_THRESHOLD),
    {
        if !self.rewards.is_valid() {
            return false;
        }
        if !self.vibrations.is_valid() {
            return false;
        }
        true
    }
}

impl Default for Config {
    fn default() -> (r: Self)
        ensures
            !r.setup_dismissed,
            r.intiface_websocket_url@ == DEFAULT_INTIFACE_URL@,
            r.selected_toy_identifiers@.len() == 0,
            r.rewards == RewardConfig::spec_default(),
            r.vibrations == VibrationRewardConfig::spec_default(),
    {
        Config {
            setup_dismissed: false,
            intiface_websocket_url: String::from_str(DEFAULT_INTIFACE_URL),
            selected_toy_identifiers: Vec::new(),
            rewards: RewardConfig::default(),
            vibrations: VibrationRewardConfig::default(),
        }
    }
}

impl Clone for Config {
    fn clone(&self) -> (r: Self)
        ensures
            r.setup_dismissed == self.setup_dismissed,
            r.intiface_websocket_url@ == self.intiface_websocket_url@,
            r.selected_toy_identifiers@ == self.selected_toy_identifiers@,
            r.rewards.same_settings(&self.rewards),
            r.vibrations == self.vibrations,
    {
        Config {
            setup_dismissed: self.setup_dismissed,
            intiface_websocket_url: self.intiface_websocket_url.clone(),
            selected_toy_identifiers: self.selected_toy_identifiers.clone(),
            rewards: self.rewards.clone(),
            vibrations: self.vibrations,
        }
    }
}

/// Validation accepts exactly the documented ranges: volumes 0 to 200 percent,
/// strengths 0 to 100 percent, durations 100 to 10000 ms and thresholds 1 to 5.
pub proof fn validation_accepts_exactly_the_documented_ranges(
    rewards: RewardConfig,
    vibrations: VibrationRewardConfig,
)
    ensures
        rewards.spec_is_valid() <==> (rewards.kill_reward_volume_percent <= 200
            && rewards.round_end_reward_volume_percent <= 200 && 1
            <= rewards.round_end_reward_kill_threshold <= 5),
        vibrations.spec_is_valid() <==> (vibrations.kill_vibration_strength_percent <= 100
            && vibrations.round_end_vibration_strength_percent <= 100 && 100
            <= vibrations.kill_vibration_duration_ms <= 10_000 && 100
            <= vibrations.round_end_vibration_duration_ms <= 10_000 && 1
            <= vibrations.round_end_vibration_kill_threshold <= 5),
{
}

/// The default settings pass validation: the documented defaults lie inside
/// the documented ranges.
pub proof fn default_settings_are_valid()
    ensures
        RewardConfig::spec_default().spec_is_valid(),
        VibrationRewardConfig::spec_default().spec_is_valid(),
{
}

} // verus!
