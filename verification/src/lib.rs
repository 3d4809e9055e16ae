//! The logic of a desktop front-end for the Tailscale CLI: reading Tailscale's
//! status and device list from the CLI's output, building the CLI commands,
//! the settings, and the window's state machine.

pub mod commands;
pub mod config;
pub mod devices;
pub mod gui;
pub mod ssh;
pub mod status;
pub mod tabs;
pub mod text;
pub mod window;

pub use config::{AppTheme, UIConfig};
pub use devices::parse_tailscale_devices;
pub use gui::{GuiScale, TailscaleActions};
pub use ssh::{terminate_ssh_session, DeviceMap, SshTerminal};
pub use status::TailscaleStatus;
pub use tabs::{Tab, TabBar, TabBarMessage};
pub use window::{Effect, Message, SSHSession, Window};
