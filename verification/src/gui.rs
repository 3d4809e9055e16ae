//! The compact front-end: three settings (connected, SSH, accepted routes)
//! switched by `TailscaleActions`.
use vstd::prelude::*;

use crate::commands::owned;

verus! {

/// Messages for the GUI to send to perform the actions by Tailscale CLI.
#[derive(Debug, Clone, Copy, PartialEq, Eq, Structural)]
pub enum TailscaleActions {
    Up,
    Down,
    UseSSH(bool),
    AcceptRoutes(bool),
}

/// The Tailscale CLI command an action calls for.
#[derive(Debug, Clone, Copy, PartialEq, Eq, Structural)]
pub enum GuiCommand {
    /// Bring the connection up (with these SSH and route options) or down.
    Switch { up_down: bool, allow_ssh: bool, accept_routes: bool },
    /// Turn Tailscale SSH on or off.
    SetSsh(bool),
    /// Turn route acceptance on or off.
    SetRoutes(bool),
}

/// The state of the application.
pub struct GuiScale {
    pub up_down: bool,
    pub use_ssh: bool,
    pub allow_routes: bool,
}

impl GuiScale {
    /// The application in the given state (read from Tailscale at start).
    pub fn new(up_down: bool, use_ssh: bool, allow_routes: bool) -> (res: Self)
        ensures
            res.up_down == up_down,
            res.use_ssh == use_ssh,
            res.allow_routes == allow_routes,
    {
        GuiScale { up_down, use_ssh, allow_routes }
    }

    /// The application's title.
    pub fn title(&self) -> (res: String)
        ensures
            res@ == "GUI-Scale"@,
    {
        owned("GUI-Scale")
    }

    /// Runs the logic of an action: updates the state and returns the command to run.
    pub fn update(&mut self, message: TailscaleActions) -> (res: GuiCommand)
        ensures
            match message {
                TailscaleActions::Up => final(self).up_down && final(self).use_ssh == old(
                    self,
                ).use_ssh && final(self).allow_routes == old(self).allow_routes && res
                    == GuiCommand::Switch {
                    up_down: true,
                    allow_ssh: old(self).use_ssh,
                    accept_routes: old(self).allow_routes,
                },
                TailscaleActions::Down => *final(self) == *old(self) && res == GuiCommand::Switch {
                    up_down: false,
                    allow_ssh: false,
                    accept_routes: false,
                },
                TailscaleActions::UseSSH(ssh) => final(self).use_ssh == ssh && final(self).up_down
                    == old(self).up_down && final(self).allow_routes == old(self).allow_routes
                    && res == GuiCommand::SetSsh(ssh),
                TailscaleActions::AcceptRoutes(accept) => final(self).allow_routes == accept
                    && final(self).up_down == old(self).up_down && final(self).use_ssh == old(
                    self,
                ).use_ssh && res == GuiCommand::SetRoutes(accept),
            },
    {
        match message {
            TailscaleActions::Up => {
                self.up_down = true;
                GuiCommand::Switch {
                    up_down: self.up_down,
                    allow_ssh: self.use_ssh,
                    accept_routes: self.allow_routes,
                }
            },
            TailscaleActions::Down => GuiCommand::Switch {
                up_down: false,
                allow_ssh: false,
                accept_routes: false,
            },
            TailscaleActions::UseSSH(ssh) => {
                self.use_ssh = ssh;
                GuiCommand::SetSsh(ssh)
            },
            TailscaleActions::AcceptRoutes(accept_routes) => {
                self.allow_routes = accept_routes;
                GuiCommand::SetRoutes(accept_routes)
            },
        }
    }
}

/// The connection status line.
pub fn connection_text(connected: bool) -> (res: String)
    ensures
        res@ == if connected {
            "Tailscale Connected"@
        } else {
            "Tailscale Not Connected"@
        },
{
    if connected {
        owned("Tailscale Connected")
    } else {
        owned("Tailscale Not Connected")
    }
}

/// The SSH status line.
pub fn ssh_text(enabled: bool) -> (res: String)
    ensures
        res@ == if enabled {
            "SSH is enabled"@
        } else {
            "SSH is disabled"@
        },
{
    if enabled {
        owned("SSH is enabled")
    } else {
        owned("SSH is disabled")
    }
}

/// The routes status line.
pub fn routes_text(allowed: bool) -> (res: String)
    ensures
        res@ == if allowed {
            "Routes are allowed"@
        } else {
            "Routes are disabled"@
        },
{
    if allowed {
        owned("Routes are allowed")
    } else {
        owned("Routes are disabled")
    }
}

/// What the connect button sends: nothing (it is disabled) while connected.
pub fn connect_button(connected: bool) -> (res: Option<TailscaleActions>)
    ensures
        res == if connected {
            None
        } else {
            Some(TailscaleActions::Up)
        },
{
    if connected {
        None
    } else {
        Some(TailscaleActions::Up)
    }
}

/// What the disconnect button sends: nothing (it is disabled) while not connected.
pub fn disconnect_button(connected: bool) -> (res: Option<TailscaleActions>)
    ensures
        res == if connected {
            Some(TailscaleActions::Down)
        } else {
            None
        },
{
    if connected {
        Some(TailscaleActions::Down)
    } else {
        None
    }
}

} // verus!
