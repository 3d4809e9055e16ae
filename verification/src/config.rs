//! The user's interface settings and the application themes.
use vstd::prelude::*;

use crate::commands::{owned, same_text};

verus! {

/// The smallest font size the settings allow.
pub const MIN_FONT_SIZE: u16 = 10;

/// The largest font size the settings allow.
pub const MAX_FONT_SIZE: u16 = 24;

/// The interface settings, saved between runs.
#[derive(Debug)]
pub struct UIConfig {
    // Basic Settings
    /// Font size, within `MIN_FONT_SIZE..=MAX_FONT_SIZE`.
    pub font_size: u16,
    /// "system", "light" or "dark".
    pub theme: String,
    pub window_width: u32,
    pub window_height: u32,
    /// Master notifications toggle.
    pub enable_notifications: bool,
    /// Master sounds toggle.
    pub enable_sounds: bool,
    // Tailscale related toggles
    /// `tailscale up --ssh=true/false`
    pub ssh_enabled: bool,
    /// `tailscale up --accept-routes=true/false`
    pub accept_routes: bool,
    /// `tailscale up --advertise-exit-node=true/false`
    pub is_exit_node: bool,
    /// `tailscale up --exit-node=exit-node-name`
    pub use_exit_node: bool,
    /// `tailscale up --exit-node-allow-lan-access=true/false`
    pub connect_to_lan: bool,
    /// Automatically receive files from other devices.
    pub auto_receive_files: bool,
    /// Whether to disable notifications for received files; this cannot be
    /// set while files are not received automatically.
    pub disable_received_file_notifications: bool,
}

impl UIConfig {
    /// The settings keep their rules: the font size lies in its range, and
    /// received-file notifications are only disabled while files are
    /// received automatically.
    pub open spec fn well_formed(&self) -> bool {
        &&& MIN_FONT_SIZE <= self.font_size <= MAX_FONT_SIZE
        &&& self.disable_received_file_notifications ==> self.auto_receive_files
    }
}

impl Default for UIConfig {
    fn default() -> (res: Self)
        ensures
            res.font_size == 14,
            res.theme@ == "system"@,
            res.window_width == 1024,
            res.window_height == 768,
            res.enable_notifications,
            res.enable_sounds,
            !res.ssh_enabled,
            !res.accept_routes,
            !res.is_exit_node,
            !res.use_exit_node,
            !res.connect_to_lan,
            res.auto_receive_files,
            !res.disable_received_file_notifications,
            res.well_formed(),
    {
        UIConfig {
            font_size: 14,
            theme: owned("system"),
            window_width: 1024,
            window_height: 768,
            enable_notifications: true,
            enable_sounds: true,
            ssh_enabled: false,
            accept_routes: false,
            is_exit_node: false,
            use_exit_node: false,
            connect_to_lan: false,
            auto_receive_files: true,
            disable_received_file_notifications: false,
        }
    }
}

/// `size` brought into the allowed font-size range.
pub open spec fn clamp_font_spec(size: u16) -> u16 {
    if size < MIN_FONT_SIZE {
        MIN_FONT_SIZE
    } else if size > MAX_FONT_SIZE {
        MAX_FONT_SIZE
    } else {
        size
    }
}

/// Brings a requested font size into the allowed range.
pub fn clamp_font_size(size: u16) -> (res: u16)
    ensures
        res == clamp_font_spec(size),
        MIN_FONT_SIZE <= res <= MAX_FONT_SIZE,
{
    let at_least = if size < MIN_FONT_SIZE {
        MIN_FONT_SIZE
    } else {
        size
    };
    if at_least > MAX_FONT_SIZE {
        MAX_FONT_SIZE
    } else {
        at_least
    }
}

/// Possible Application Themes
#[derive(Debug, Clone, Copy, PartialEq, Eq, Structural)]
pub enum AppTheme {
    /// The default theme.
    System,
    Light,
    Dark,
}

/// The name a theme is shown under.
pub open spec fn theme_label(t: AppTheme) -> Seq<char> {
    match t {
        AppTheme::System => "System"@,
        AppTheme::Light => "Light"@,
        AppTheme::Dark => "Dark"@,
    }
}

/// The name a theme is saved under in the settings.
pub open spec fn theme_config_name_spec(t: AppTheme) -> Seq<char> {
    match t {
        AppTheme::System => "system"@,
        AppTheme::Light => "light"@,
        AppTheme::Dark => "dark"@,
    }
}

/// The theme a saved name stands for; an unknown name stands for the system theme.
pub open spec fn theme_from_config_spec(name: Seq<char>) -> AppTheme {
    if name == "light"@ {
        AppTheme::Light
    } else if name == "dark"@ {
        AppTheme::Dark
    } else {
        AppTheme::System
    }
}

/// The position of a theme in the list of all themes.
pub open spec fn theme_position_spec(t: AppTheme) -> usize {
    match t {
        AppTheme::System => 0,
        AppTheme::Light => 1,
        AppTheme::Dark => 2,
    }
}

impl AppTheme {
    /// The number of themes.
    pub const COUNT: usize = 3;

    /// The name this theme is shown under.
    pub fn as_str(&self) -> (res: &'static str)
        ensures
            res@ == theme_label(*self),
    {
        match self {
            AppTheme::System => "System",
            AppTheme::Light => "Light",
            AppTheme::Dark => "Dark",
        }
    }

    /// The name this theme is shown under, as an owned string.
    pub fn to_string(&self) -> (res: String)
        ensures
            res@ == theme_label(*self),
    {
        owned(self.as_str())
    }

    /// The position of this theme in the list System, Light, Dark.
    pub fn position(&self) -> (res: usize)
        ensures
            res == theme_position_spec(*self),
            res < AppTheme::COUNT,
    {
        match self {
            AppTheme::System => 0,
            AppTheme::Light => 1,
            AppTheme::Dark => 2,
        }
    }

    /// The theme at position `index` of the list System, Light, Dark.
    pub fn from_position(index: usize) -> (res: AppTheme)
        requires
            index < AppTheme::COUNT,
        ensures
            theme_position_spec(res) == index,
    {
        if index == 0 {
            AppTheme::System
        } else if index == 1 {
            AppTheme::Light
        } else {
            AppTheme::Dark
        }
    }

    /// The name this theme is saved under in the settings.
    pub fn config_name(&self) -> (res: String)
        ensures
            res@ == theme_config_name_spec(*self),
    {
        match self {
            AppTheme::System => owned("system"),
            AppTheme::Light => owned("light"),
            AppTheme::Dark => owned("dark"),
        }
    }

    /// The theme a saved name stands for (the system theme for an unknown name).
    pub fn from_config_name(name: &str) -> (res: AppTheme)
        ensures
            res == theme_from_config_spec(name@),
    {
        proof {
            lemma_theme_name_round_trip(AppTheme::System);
        }
        if same_text(name, "system") {
            AppTheme::System
        } else if same_text(name, "light") {
            AppTheme::Light
        } else if same_text(name, "dark") {
            AppTheme::Dark
        } else {
            AppTheme::System
        }
    }
}

/// Reading back the name a theme is saved under gives that theme.
pub proof fn lemma_theme_name_round_trip(t: AppTheme)
    ensures
        theme_from_config_spec(theme_config_name_spec(t)) == t,
{
    reveal_strlit("system");
    reveal_strlit("light");
    reveal_strlit("dark");
    assert("system"@.len() == 6 && "light"@.len() == 5 && "dark"@.len() == 4);
}

/// The theme at a theme's position is that theme.
pub proof fn lemma_theme_position_round_trip(t: AppTheme, u: AppTheme)
    ensures
        theme_position_spec(t) == theme_position_spec(u) <==> t == u,
{
}

} // verus!
