//! The user's settings.
use vstd::prelude::*;

verus! {

/// The settings that the quota display and the quota refreshes read.
#[derive(Debug, Clone)]
pub struct UserConfig {
    pub codex_app_ui_injection_enabled: bool,
    pub codex_auto_refresh_minutes: i32,
    pub language: String,
}

/// Whether the quota display is switched on.
pub fn enabled_for_app(config: &UserConfig) -> (enabled: bool)
    ensures
        enabled == config.codex_app_ui_injection_enabled,
{
    config.codex_app_ui_injection_enabled
}

} // verus!
