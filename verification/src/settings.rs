//! The settings that the core reads, and their defaults.
//!
//! What only the user interface reads (the look of the window, which
//! sidebar entries are open) is kept by the application beside these.

use vstd::prelude::*;

verus! {

/// The version that a session store is written with.
pub fn default_session_store_version() -> (version: u32)
    ensures
        version == 1,
{
    1
}

/// The width of the sidebar, in pixels, until the user changes it.
pub fn default_sidebar_width() -> (width: i64)
    ensures
        width == 280,
{
    280
}

/// Usage is polled unless the user switches it off.
pub fn default_usage_polling_enabled() -> (enabled: bool)
    ensures
        enabled,
{
    true
}

/// The interval between two polls of the usage, in minutes, until the user
/// changes it.
pub fn default_usage_polling_interval_minutes() -> (minutes: i64)
    ensures
        minutes == 5,
{
    5
}

/// The colour scheme that the user prefers.
#[derive(Clone, Copy, Debug, PartialEq, Eq)]
pub enum ThemePreference {
    System,
    Light,
    Dark,
}

/// How much an agent may touch.
#[derive(Clone, Copy, Debug, PartialEq, Eq)]
pub enum AccessMode {
    ReadOnly,
    Current,
    FullAccess,
}

/// The settings of the application, as far as the core reads them.
#[derive(Clone, Debug)]
pub struct AppSettings {
    pub theme_preference: ThemePreference,
    pub access_mode: AccessMode,
    pub bypass_approvals_and_sandbox: bool,
    pub enable_web_search_request: bool,
    pub confirm_before_quit: bool,
    pub enable_completion_notifications: bool,
    pub usage_polling_enabled: bool,
    pub usage_polling_interval_minutes: i64,
    pub sidebar_width: i64,
    pub codex_bin_path: Option<String>,
    pub node_bin_path: Option<String>,
}

impl AppSettings {
    /// The settings of a first start: the system's theme, access to the
    /// current workspace, every switch off but the usage polling, which runs
    /// every five minutes, and no binary configured.
    pub fn new() -> (settings: AppSettings)
        ensures
            settings.theme_preference == ThemePreference::System,
            settings.access_mode == AccessMode::Current,
            !settings.bypass_approvals_and_sandbox,
            !settings.enable_web_search_request,
            !settings.confirm_before_quit,
            !settings.enable_completion_notifications,
            settings.usage_polling_enabled,
            settings.usage_polling_interval_minutes == 5,
            settings.sidebar_width == 280,
            settings.codex_bin_path is None,
            settings.node_bin_path is None,
    {
        AppSettings {
            theme_preference: ThemePreference::System,
            access_mode: AccessMode::Current,
            bypass_approvals_and_sandbox: false,
            enable_web_search_request: false,
            confirm_before_quit: false,
            enable_completion_notifications: false,
            usage_polling_enabled: default_usage_polling_enabled(),
            usage_polling_interval_minutes: default_usage_polling_interval_minutes(),
            sidebar_width: default_sidebar_width(),
            codex_bin_path: None,
            node_bin_path: None,
        }
    }
}

impl Default for AppSettings {
    /// The settings of a first start.
    fn default() -> (settings: AppSettings)
        ensures
            settings.theme_preference == ThemePreference::System,
            settings.access_mode == AccessMode::Current,
            !settings.bypass_approvals_and_sandbox,
            !settings.enable_web_search_request,
            !settings.confirm_before_quit,
            !settings.enable_completion_notifications,
            settings.usage_polling_enabled,
            settings.usage_polling_interval_minutes == 5,
            settings.sidebar_width == 280,
            settings.codex_bin_path is None,
            settings.node_bin_path is None,
    {
        AppSettings::new()
    }
}

/// Whether the user is to be asked before the application quits: when the
/// setting says so, unless the user has confirmed already.
pub fn should_confirm_quit(allow_quit: bool, confirm_before_quit: bool) -> (ask: bool)
    ensures
        ask == (!allow_quit && confirm_before_quit),
{
    if allow_quit {
        return false;
    }
    confirm_before_quit
}

/// The version under which a session store is saved: the one it carries,
/// and the current one where it carries none.
pub fn store_version_to_save(version: u32) -> (saved: u32)
    ensures
        saved == if version == 0 {
            1u32
        } else {
            version
        },
{
    if version == 0 {
        default_session_store_version()
    } else {
        version
    }
}

} // verus!
