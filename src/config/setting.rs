use vstd::prelude::*;

verus! {

/// Settings of a session.
#[derive(Debug, Clone, Copy, PartialEq, Eq, Structural)]
pub struct SettingConfig {
    /// Whether the launcher closes once a program has been launched.
    pub is_close_after_game_launch: bool,
    /// Interval between two timer ticks, in milliseconds.
    pub tick_rate_ms: u64,
}

/// Tick interval of a fresh configuration, in milliseconds.
pub const DEFAULT_TICK_RATE_MS: u64 = 250;

/// The settings of a fresh configuration.
pub open spec fn default_setting() -> SettingConfig {
    SettingConfig { is_close_after_game_launch: false, tick_rate_ms: DEFAULT_TICK_RATE_MS }
}

impl Default for SettingConfig {
    fn default() -> (r: SettingConfig)
        ensures
            r == default_setting(),
    {
        SettingConfig { is_close_after_game_launch: false, tick_rate_ms: DEFAULT_TICK_RATE_MS }
    }
}

} // verus!
