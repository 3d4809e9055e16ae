//! The main window's state and how each user action changes it: the state
//! machine of the application. Each action yields the outside work to do
//! (Tailscale commands, notifications, dialogs, saving the settings) as a
//! list of effects, which the caller performs in order.
use vstd::prelude::*;

use crate::commands::{
    owned, same_text, strings_view, tailscale_down_args, tailscale_up_args, up_args_spec,
};
use crate::config::{
    clamp_font_size, clamp_font_spec, lemma_theme_name_round_trip, theme_config_name_spec,
    theme_from_config_spec, AppTheme, UIConfig,
};
use crate::ssh::DeviceMap;
use crate::status::TailscaleStatus;

verus! {

/// Each active SSH session is represented by a tab at the bottom of the UI.
#[derive(Debug, Clone)]
pub struct SSHSession {
    pub device_name: String,
    /// The lines shown as the session's output.
    pub output_lines: Vec<String>,
    /// Whether this session is currently active
    pub active: bool,
}

/// The messages that can be sent around in the UI
#[derive(Debug, Clone)]
pub enum Message {
    // Home Tab
    ToggleTailscaleConnectivity(bool),
    ToggleSSHConnectivity(bool),
    ToggleAcceptRoutes(bool),
    TailscaleReceiveFiles,
    /// Device name.
    OpenFileDialogToSend(String),
    /// Files, device name.
    FilesSelectedToSend(Vec<String>, String),
    /// Manual "Refresh" of the device list.
    RefreshDevices,
    // Exit Node Tab
    ToggleIsExitNode(bool),
    /// Connect to the selected exit node.
    UseExitNode(String),
    DisconnectExitNode,
    ToggleConnectToLan(bool),
    // Settings Tab
    FontSizeChanged(u16),
    ThemeSelected(AppTheme),
    ToggleNotifications(bool),
    ToggleSounds(bool),
    ToggleAutoReceive(bool),
    ToggleDisableRecievedFileNotifications(bool),
    CheckForUpdates,
    // SSH Sessions
    /// Device, IP.
    OpenSSHSession(String, String),
    /// Device, typed command.
    UpdateSSHInput(String, String),
    /// Device.
    SendSSHCommand(String),
    /// Device.
    CloseSSHSession(String),
    // Switching Tabs
    SwitchTab(String),
    // For continuing local logic
    Tick,
}

/// Outside work that an action asks for, in the order it is to be done.
#[derive(Debug, Clone)]
pub enum Effect {
    /// Run `tailscale` with these arguments.
    RunTailscale(Vec<String>),
    /// Read Tailscale's status again and store it in the window.
    RefreshStatus,
    /// Run `tailscale file receive` and pass its output to `Window::files_received`.
    ReceiveFiles,
    /// Ask the user for files to send to this device, then send them with
    /// `Message::FilesSelectedToSend`.
    OpenFileDialog(String),
    /// Send these files to this device, reporting the files that failed.
    SendFiles(Vec<String>, String),
    /// Read the device list again.
    RefreshDevices,
    /// Show a desktop notification with this title and body.
    Notify(String, String),
    /// Look for a newer release and install it.
    CheckForUpdates,
    /// Switch the interface to this theme.
    ApplyTheme(AppTheme),
    /// Start an SSH session with this device at this address.
    StartSsh(String, String),
    /// Send this command line to this device's SSH session.
    SendSsh(String, String),
    /// Save the Tailscale settings and the interface settings.
    Persist,
}

/// Primary application window state.
pub struct Window {
    /// Tailscale status, initialized and updated from the Tailscale CLI.
    pub tailscale_status: TailscaleStatus,
    /// The interface settings.
    pub ui_config: UIConfig,
    /// The name of the shown tab.
    pub active_tab: String,
    /// The SSH sessions, each shown as a tab at the bottom of the UI.
    pub ssh_sessions: Vec<SSHSession>,
    /// The command typed into each device's SSH session.
    pub ssh_input: DeviceMap<String>,
}

/// `e` runs `tailscale` with the arguments `args`.
pub open spec fn runs_tailscale(e: Effect, args: Seq<Seq<char>>) -> bool {
    e matches Effect::RunTailscale(a) && strings_view(a@) == args
}

/// The `tailscale up` arguments that apply the status's settings.
pub open spec fn reconnect_args(st: TailscaleStatus) -> Seq<Seq<char>> {
    up_args_spec(st.ssh_enabled, st.routes, st.is_exit_node, None, st.allow_lan)
}

/// `st2` is `st` with its connection settings unchanged but for the given ones.
pub open spec fn status_with(
    st: TailscaleStatus,
    st2: TailscaleStatus,
    ssh_enabled: bool,
    routes: bool,
    is_exit_node: bool,
    allow_lan: bool,
) -> bool {
    st2 == TailscaleStatus { ssh_enabled, routes, is_exit_node, allow_lan, ..st }
}

/// A setting of the connection changed to `st2`: when connected, `tailscale up`
/// runs again with the new settings; then the settings are saved.
pub open spec fn reconnect_effects(st2: TailscaleStatus, eff: Seq<Effect>) -> bool {
    if st2.connected {
        eff.len() == 2 && runs_tailscale(eff[0], reconnect_args(st2)) && eff[1] == Effect::Persist
    } else {
        eff == seq![Effect::Persist]
    }
}

/// `m2` is `m` with the command typed for device `d` set to `text`.
pub open spec fn sets_input(
    m: Map<Seq<char>, String>,
    m2: Map<Seq<char>, String>,
    d: Seq<char>,
    text: Seq<char>,
) -> bool {
    &&& m2.dom() == m.dom().insert(d)
    &&& m2[d]@ == text
    &&& forall|k: Seq<char>| #[trigger] m.dom().contains(k) && k != d ==> m2[k] == m[k]
}

/// Only the settings are saved.
pub open spec fn only_persist(eff: Seq<Effect>) -> bool {
    eff == seq![Effect::Persist]
}

/// The position of the first session of device `d`, if there is one.
pub open spec fn first_session(sessions: Seq<SSHSession>, d: Seq<char>) -> Option<int> {
    if exists|i: int| 0 <= i < sessions.len() && #[trigger] sessions[i].device_name@ == d {
        Some(
            choose|i: int|
                0 <= i < sessions.len() && #[trigger] sessions[i].device_name@ == d && forall|j: int|
                    0 <= j < i ==> sessions[j].device_name@ != d,
        )
    } else {
        None
    }
}

proof fn lemma_minimal_witness(sessions: Seq<SSHSession>, d: Seq<char>, k: int)
    requires
        0 <= k < sessions.len(),
        sessions[k].device_name@ == d,
    ensures
        exists|i: int|
            0 <= i < sessions.len() && #[trigger] sessions[i].device_name@ == d && forall|j: int|
                0 <= j < i ==> sessions[j].device_name@ != d,
    decreases k,
{
    if exists|j: int| 0 <= j < k && #[trigger] sessions[j].device_name@ == d {
        let j = choose|j: int| 0 <= j < k && #[trigger] sessions[j].device_name@ == d;
        lemma_minimal_witness(sessions, d, j);
    } else {
        assert(forall|j: int| 0 <= j < k ==> sessions[j].device_name@ != d);
    }
}

/// The first session of a device is a session of that device, and no
/// session before it is.
pub proof fn lemma_first_session(sessions: Seq<SSHSession>, d: Seq<char>)
    ensures
        first_session(sessions, d) matches Some(i) ==> 0 <= i < sessions.len()
            && sessions[i].device_name@ == d && forall|j: int|
            0 <= j < i ==> sessions[j].device_name@ != d,
        first_session(sessions, d) is None ==> forall|j: int|
            0 <= j < sessions.len() ==> sessions[j].device_name@ != d,
{
    if exists|i: int| 0 <= i < sessions.len() && #[trigger] sessions[i].device_name@ == d {
        let k = choose|i: int| 0 <= i < sessions.len() && #[trigger] sessions[i].device_name@ == d;
        lemma_minimal_witness(sessions, d, k);
    }
}

/// `w2` holds the same as `w` but for the interface settings.
pub open spec fn same_but_settings(w: Window, w2: Window) -> bool {
    &&& w2.tailscale_status == w.tailscale_status
    &&& w2.active_tab == w.active_tab
    &&& w2.ssh_sessions@ == w.ssh_sessions@
    &&& w2.ssh_input.as_map() == w.ssh_input.as_map()
}

/// `w2` holds the same as `w` but for the Tailscale status.
pub open spec fn same_but_status(w: Window, w2: Window) -> bool {
    &&& w2.ui_config == w.ui_config
    &&& w2.active_tab == w.active_tab
    &&& w2.ssh_sessions@ == w.ssh_sessions@
    &&& w2.ssh_input.as_map() == w.ssh_input.as_map()
}

/// `w2` holds the same as `w` but for the SSH sessions and their typed commands.
pub open spec fn same_but_ssh(w: Window, w2: Window) -> bool {
    &&& w2.tailscale_status == w.tailscale_status
    &&& w2.ui_config == w.ui_config
    &&& w2.active_tab == w.active_tab
}

/// `w2` holds the same as `w`.
pub open spec fn unchanged(w: Window, w2: Window) -> bool {
    same_but_settings(w, w2) && w2.ui_config == w.ui_config
}

/// `c2` is `c` with the given notification, sound and file-receiving toggles
/// and font size and theme unchanged otherwise.
pub open spec fn settings_with(
    c: UIConfig,
    c2: UIConfig,
    font_size: u16,
    enable_notifications: bool,
    enable_sounds: bool,
    auto_receive_files: bool,
    disable_received_file_notifications: bool,
) -> bool {
    &&& c2.font_size == font_size
    &&& c2.theme == c.theme
    &&& c2.window_width == c.window_width
    &&& c2.window_height == c.window_height
    &&& c2.enable_notifications == enable_notifications
    &&& c2.enable_sounds == enable_sounds
    &&& c2.ssh_enabled == c.ssh_enabled
    &&& c2.accept_routes == c.accept_routes
    &&& c2.is_exit_node == c.is_exit_node
    &&& c2.use_exit_node == c.use_exit_node
    &&& c2.connect_to_lan == c.connect_to_lan
    &&& c2.auto_receive_files == auto_receive_files
    &&& c2.disable_received_file_notifications == disable_received_file_notifications
}

/// `e` notifies with this title and body.
pub open spec fn notifies(e: Effect, title: Seq<char>, body: Seq<char>) -> bool {
    e matches Effect::Notify(t, b) && t@ == title && b@ == body
}

/// Turning Tailscale on runs `tailscale up` with the current settings, turning
/// it off runs `tailscale down`; then the status is read again and saved.
pub open spec fn connectivity_spec(st: TailscaleStatus, connect: bool, eff: Seq<Effect>) -> bool {
    &&& eff.len() == 3
    &&& runs_tailscale(
        eff[0],
        if connect {
            reconnect_args(st)
        } else {
            seq!["down"@]
        },
    )
    &&& eff[1] == Effect::RefreshStatus
    &&& eff[2] == Effect::Persist
}

/// Choosing exit node `node` connects through it, keeping the other settings
/// and no longer advertising this host as exit node, when connected and not an
/// exit node itself.
pub open spec fn use_exit_node_spec(st: TailscaleStatus, node: String, eff: Seq<Effect>) -> bool {
    if !st.is_exit_node && st.connected {
        &&& eff.len() == 2
        &&& runs_tailscale(
            eff[0],
            up_args_spec(st.ssh_enabled, st.routes, false, Some(node@), st.allow_lan),
        )
        &&& eff[1] == Effect::Persist
    } else {
        only_persist(eff)
    }
}

/// Selecting a theme saves its name in the settings and switches to it.
pub open spec fn theme_spec(w: Window, theme: AppTheme, w2: Window, eff: Seq<Effect>) -> bool {
    let c = w.ui_config;
    let c2 = w2.ui_config;
    &&& same_but_settings(w, w2)
    &&& c2.theme@ == theme_config_name_spec(theme)
    &&& settings_with(
        c,
        UIConfig { theme: c.theme, ..c2 },
        c.font_size,
        c.enable_notifications,
        c.enable_sounds,
        c.auto_receive_files,
        c.disable_received_file_notifications,
    )
    &&& eff == seq![Effect::ApplyTheme(theme), Effect::Persist]
}

/// Turning automatic receiving off also re-enables disabled received-file
/// notifications, with a notice.
pub open spec fn auto_receive_spec(w: Window, auto: bool, w2: Window, eff: Seq<Effect>) -> bool {
    let c = w.ui_config;
    let forced = !auto && c.disable_received_file_notifications;
    &&& same_but_settings(w, w2)
    &&& settings_with(
        c,
        w2.ui_config,
        c.font_size,
        c.enable_notifications,
        c.enable_sounds,
        auto,
        c.disable_received_file_notifications && !forced,
    )
    &&& if forced {
        &&& eff.len() == 2
        &&& notifies(eff[0], "Auto-Recieve Disabled"@, auto_receive_notice())
        &&& eff[1] == Effect::Persist
    } else {
        only_persist(eff)
    }
}

/// Received-file notifications can only be disabled or re-enabled while files
/// are received automatically; otherwise a notice says so.
pub open spec fn file_notifications_spec(w: Window, disable: bool, w2: Window, eff: Seq<Effect>) -> bool {
    let c = w.ui_config;
    &&& same_but_settings(w, w2)
    &&& settings_with(
        c,
        w2.ui_config,
        c.font_size,
        c.enable_notifications,
        c.enable_sounds,
        c.auto_receive_files,
        if c.auto_receive_files {
            disable
        } else {
            c.disable_received_file_notifications
        },
    )
    &&& if c.auto_receive_files {
        only_persist(eff)
    } else {
        &&& eff.len() == 2
        &&& notifies(eff[0], "Action Restricted"@, restricted_notice())
        &&& eff[1] == Effect::Persist
    }
}

/// A connection setting changes to give `st2`; the other state stays.
pub open spec fn option_spec(
    w: Window,
    w2: Window,
    eff: Seq<Effect>,
    ssh_enabled: bool,
    routes: bool,
    is_exit_node: bool,
    allow_lan: bool,
) -> bool {
    &&& same_but_status(w, w2)
    &&& status_with(w.tailscale_status, w2.tailscale_status, ssh_enabled, routes, is_exit_node, allow_lan)
    &&& reconnect_effects(w2.tailscale_status, eff)
}

/// An interface setting changes; the other state stays and the settings are saved.
pub open spec fn setting_spec(
    w: Window,
    w2: Window,
    eff: Seq<Effect>,
    font_size: u16,
    enable_notifications: bool,
    enable_sounds: bool,
) -> bool {
    let c = w.ui_config;
    &&& same_but_settings(w, w2)
    &&& settings_with(
        c,
        w2.ui_config,
        font_size,
        enable_notifications,
        enable_sounds,
        c.auto_receive_files,
        c.disable_received_file_notifications,
    )
    &&& only_persist(eff)
}

/// What handling `msg` does: `w2` is the window afterwards and `eff` the
/// outside work asked for, in order.
pub open spec fn update_spec(w: Window, msg: Message, w2: Window, eff: Seq<Effect>) -> bool {
    let st = w.tailscale_status;
    let c = w.ui_config;
    match msg {
        Message::ToggleTailscaleConnectivity(connect) => unchanged(w, w2) && connectivity_spec(
            st,
            connect,
            eff,
        ),
        Message::ToggleSSHConnectivity(enable) => option_spec(
            w,
            w2,
            eff,
            enable,
            st.routes,
            st.is_exit_node,
            st.allow_lan,
        ),
        Message::ToggleAcceptRoutes(accept) => option_spec(
            w,
            w2,
            eff,
            st.ssh_enabled,
            accept,
            st.is_exit_node,
            st.allow_lan,
        ),
        Message::TailscaleReceiveFiles => unchanged(w, w2) && eff == seq![
            Effect::ReceiveFiles,
            Effect::Persist,
        ],
        Message::OpenFileDialogToSend(device) => unchanged(w, w2) && eff == seq![
            Effect::OpenFileDialog(device),
            Effect::Persist,
        ],
        Message::FilesSelectedToSend(files, device) => unchanged(w, w2) && eff == seq![
            Effect::SendFiles(files, device),
            Effect::Persist,
        ],
        Message::RefreshDevices => unchanged(w, w2) && eff == seq![
            Effect::RefreshDevices,
            Effect::Persist,
        ],
        Message::ToggleIsExitNode(advertise) => option_spec(
            w,
            w2,
            eff,
            st.ssh_enabled,
            st.routes,
            advertise,
            st.allow_lan,
        ),
        Message::UseExitNode(node) => unchanged(w, w2) && use_exit_node_spec(st, node, eff),
        Message::DisconnectExitNode => unchanged(w, w2) && reconnect_effects(st, eff),
        Message::ToggleConnectToLan(allow) => option_spec(
            w,
            w2,
            eff,
            st.ssh_enabled,
            st.routes,
            st.is_exit_node,
            allow,
        ),
        Message::FontSizeChanged(size) => setting_spec(
            w,
            w2,
            eff,
            clamp_font_spec(size),
            c.enable_notifications,
            c.enable_sounds,
        ),
        Message::ThemeSelected(theme) => theme_spec(w, theme, w2, eff),
        Message::ToggleNotifications(enabled) => setting_spec(
            w,
            w2,
            eff,
            c.font_size,
            enabled,
            c.enable_sounds,
        ),
        Message::ToggleSounds(enabled) => setting_spec(
            w,
            w2,
            eff,
            c.font_size,
            c.enable_notifications,
            enabled,
        ),
        Message::ToggleAutoReceive(auto) => auto_receive_spec(w, auto, w2, eff),
        Message::ToggleDisableRecievedFileNotifications(disable) => file_notifications_spec(
            w,
            disable,
            w2,
            eff,
        ),
        Message::CheckForUpdates => unchanged(w, w2) && eff == seq![
            Effect::CheckForUpdates,
            Effect::Persist,
        ],
        Message::OpenSSHSession(device, ip) => open_session_spec(w, device, ip, w2, eff),
        Message::UpdateSSHInput(device, typed) => {
            &&& same_but_ssh(w, w2)
            &&& w2.ssh_sessions@ == w.ssh_sessions@
            &&& w2.ssh_input.as_map() == w.ssh_input.as_map().insert(device@, typed)
            &&& only_persist(eff)
        },
        Message::SendSSHCommand(device) => send_command_spec(w, device, w2, eff),
        Message::CloseSSHSession(device) => close_session_spec(w, device, w2, eff),
        Message::SwitchTab(tab) => {
            &&& w2.tailscale_status == w.tailscale_status
            &&& w2.ui_config == w.ui_config
            &&& w2.ssh_sessions@ == w.ssh_sessions@
            &&& w2.ssh_input.as_map() == w.ssh_input.as_map()
            &&& w2.active_tab == tab
            &&& only_persist(eff)
        },
        Message::Tick => unchanged(w, w2) && only_persist(eff),
    }
}

/// Opening an SSH session with `device` at `ip`: a session showing that it
/// connected is added, the command typed for the device is cleared, and the
/// session is started.
pub open spec fn open_session_spec(
    w: Window,
    device: String,
    ip: String,
    w2: Window,
    eff: Seq<Effect>,
) -> bool {
    let s = w2.ssh_sessions@.last();
    &&& same_but_ssh(w, w2)
    &&& w2.ssh_sessions@.len() == w.ssh_sessions@.len() + 1
    &&& w2.ssh_sessions@.drop_last() == w.ssh_sessions@
    &&& s.device_name@ == device@
    &&& s.active
    &&& strings_view(s.output_lines@) == seq![
        "Connected to "@ + device@ + " at "@ + ip@,
    ]
    &&& sets_input(w.ssh_input.as_map(), w2.ssh_input.as_map(), device@, Seq::<char>::empty())
    &&& eff == seq![Effect::StartSsh(device, ip), Effect::Persist]
}

/// Sending the command typed for `device`: when one is typed, it goes to the
/// device's session, the first session of the device shows it, and the typed
/// command is cleared.
pub open spec fn send_command_spec(
    w: Window,
    device: String,
    w2: Window,
    eff: Seq<Effect>,
) -> bool {
    &&& same_but_ssh(w, w2)
    &&& if w.ssh_input.as_map().dom().contains(device@) {
        let cmd = w.ssh_input.as_map()[device@];
        &&& eff.len() == 2
        &&& eff[0] matches Effect::SendSsh(d, line) && d@ == device@ && line@ == cmd@
        &&& eff[1] == Effect::Persist
        &&& sets_input(w.ssh_input.as_map(), w2.ssh_input.as_map(), device@, Seq::<char>::empty())
        &&& match first_session(w.ssh_sessions@, device@) {
            None => w2.ssh_sessions@ == w.ssh_sessions@,
            Some(i) => {
                let s = w.ssh_sessions@[i];
                let s2 = w2.ssh_sessions@[i];
                &&& w2.ssh_sessions@.len() == w.ssh_sessions@.len()
                &&& forall|j: int|
                    0 <= j < w.ssh_sessions@.len() && j != i ==> w2.ssh_sessions@[j]
                        == #[trigger] w.ssh_sessions@[j]
                &&& s2.device_name == s.device_name
                &&& s2.active == s.active
                &&& s2.output_lines@.drop_last() == s.output_lines@
                &&& s2.output_lines@.last()@ == "> "@ + cmd@
                &&& s2.output_lines@.len() == s.output_lines@.len() + 1
            },
        }
    } else {
        &&& w2.ssh_sessions@ == w.ssh_sessions@
        &&& w2.ssh_input.as_map() == w.ssh_input.as_map()
        &&& only_persist(eff)
    }
}

/// Closing the session of `device`: its first session goes, and so does its
/// typed command.
pub open spec fn close_session_spec(
    w: Window,
    device: String,
    w2: Window,
    eff: Seq<Effect>,
) -> bool {
    &&& same_but_ssh(w, w2)
    &&& w2.ssh_input.as_map() == w.ssh_input.as_map().remove(device@)
    &&& match first_session(w.ssh_sessions@, device@) {
        None => w2.ssh_sessions@ == w.ssh_sessions@,
        Some(i) => w2.ssh_sessions@ == w.ssh_sessions@.remove(i),
    }
    &&& only_persist(eff)
}

/// The body of the notice shown when turning off auto-receive re-enables
/// received-file notifications.
pub open spec fn auto_receive_notice() -> Seq<char> {
    "You have disabled auto-receive. Disabling notification for received files is no longer possible, so it has been re-enabled."@
}

/// The body of the notice shown when received-file notifications cannot be
/// disabled.
pub open spec fn restricted_notice() -> Seq<char> {
    "You cannot disable file notifications while auto-receive is disabled."@
}


/// Where the first session of `device` stands, if there is one.
pub fn first_session_index(sessions: &Vec<SSHSession>, device: &str) -> (res: Option<usize>)
    ensures
        res matches Some(i) ==> i < sessions@.len() && first_session(sessions@, device@) == Some(
            i as int,
        ),
        res is None ==> first_session(sessions@, device@) is None,
{
    let mut i: usize = 0;
    while i < sessions.len()
        invariant
            i <= sessions@.len(),
            forall|j: int| 0 <= j < i ==> #[trigger] sessions@[j].device_name@ != device@,
        decreases sessions@.len() - i,
    {
        if same_text(sessions[i].device_name.as_str(), device) {
            proof {
                let ss = sessions@;
                let d = device@;
                assert(0 <= i < ss.len() && ss[i as int].device_name@ == d);
                let c = choose|k: int|
                    0 <= k < ss.len() && #[trigger] ss[k].device_name@ == d && forall|j: int|
                        0 <= j < k ==> ss[j].device_name@ != d;
                assert(exists|k: int|
                    0 <= k < ss.len() && #[trigger] ss[k].device_name@ == d && forall|j: int|
                        0 <= j < k ==> ss[j].device_name@ != d) by {
                    assert(forall|j: int| 0 <= j < i ==> ss[j].device_name@ != d);
                }
                if c < i {
                    assert(ss[c].device_name@ != d);
                } else if c > i {
                    assert(ss[i as int].device_name@ != d);
                }
            }
            return Some(i);
        }
        i = i + 1;
    }
    None
}

/// Adds `line` to the output of session `i`.
pub fn push_output_line(sessions: &mut Vec<SSHSession>, i: usize, line: String)
    requires
        i < old(sessions)@.len(),
    ensures
        final(sessions)@.len() == old(sessions)@.len(),
        forall|j: int|
            0 <= j < old(sessions)@.len() && j != i ==> final(sessions)@[j]
                == #[trigger] old(sessions)@[j],
        final(sessions)@[i as int].device_name == old(sessions)@[i as int].device_name,
        final(sessions)@[i as int].active == old(sessions)@[i as int].active,
        final(sessions)@[i as int].output_lines@ == old(sessions)@[i as int].output_lines@.push(line),
{
    let mut session = sessions.remove(i);
    session.output_lines.push(line);
    sessions.insert(i, session);
    proof {
        assert forall|j: int|
            0 <= j < old(sessions)@.len() && j != i implies sessions@[j]
            == #[trigger] old(sessions)@[j] by {
            if j < i {
            } else {
            }
        }
    }
}

impl Window {
    /// A window showing the Home tab with no SSH session, for the given
    /// Tailscale status and interface settings.
    pub fn new(tailscale_status: TailscaleStatus, ui_config: UIConfig) -> (res: Window)
        ensures
            res.tailscale_status == tailscale_status,
            res.ui_config == ui_config,
            res.active_tab@ == "Home"@,
            res.ssh_sessions@.len() == 0,
            res.ssh_input.as_map() == Map::<Seq<char>, String>::empty(),
    {
        Window {
            tailscale_status,
            ui_config,
            active_tab: owned("Home"),
            ssh_sessions: Vec::new(),
            ssh_input: DeviceMap::new(),
        }
    }

    /// Runs `tailscale up` again with the current settings when connected,
    /// then saves.
    fn reconnect(&self) -> (res: Vec<Effect>)
        ensures
            reconnect_effects(self.tailscale_status, res@),
    {
        let mut eff: Vec<Effect> = Vec::new();
        if self.tailscale_status.connected {
            let st = &self.tailscale_status;
            let args = tailscale_up_args(st.ssh_enabled, st.routes, st.is_exit_node, None, st.allow_lan);
            eff.push(Effect::RunTailscale(args));
        }
        eff.push(Effect::Persist);
        proof {
            if !self.tailscale_status.connected {
                assert(eff@ =~= seq![Effect::Persist]);
            }
        }
        eff
    }

    /// Opens an SSH session with `device` at `ip`.
    fn open_session(&mut self, device: String, ip: String) -> (res: Vec<Effect>)
        ensures
            open_session_spec(*old(self), device, ip, *final(self), res@),
    {
        let ghost w = *self;
        let mut line = owned("Connected to ");
        line.append(device.as_str());
        line.append(" at ");
        line.append(ip.as_str());
        let mut output_lines: Vec<String> = Vec::new();
        output_lines.push(line);
        proof {
            assert(strings_view(output_lines@) =~= seq![
                "Connected to "@ + device@ + " at "@ + ip@,
            ]);
        }
        let session = SSHSession { device_name: device.clone(), output_lines, active: true };
        self.ssh_sessions.push(session);
        let _ = self.ssh_input.insert(device.clone(), String::new());
        proof {
            assert(self.ssh_sessions@.drop_last() =~= w.ssh_sessions@);
            assert(self.ssh_input.as_map().dom() =~= w.ssh_input.as_map().dom().insert(device@));
        }
        let mut eff: Vec<Effect> = Vec::new();
        eff.push(Effect::StartSsh(device, ip));
        eff.push(Effect::Persist);
        assert(eff@ =~= seq![Effect::StartSsh(device, ip), Effect::Persist]);
        eff
    }

    /// Sends the command typed for `device` to its session.
    #[verifier::rlimit(50)]
    fn send_command(&mut self, device: String) -> (res: Vec<Effect>)
        ensures
            send_command_spec(*old(self), device, *final(self), res@),
    {
        let ghost w = *self;
        let mut eff: Vec<Effect> = Vec::new();
        let typed = self.ssh_input.get(device.as_str());
        match typed {
            Some(cmd_ref) => {
                let cmd = cmd_ref.clone();
                match first_session_index(&self.ssh_sessions, device.as_str()) {
                    Some(i) => {
                        let mut shown = owned("> ");
                        shown.append(cmd.as_str());
                        push_output_line(&mut self.ssh_sessions, i, shown);
                        proof {
                            assert(self.ssh_sessions@[i as int].output_lines@.drop_last()
                                =~= w.ssh_sessions@[i as int].output_lines@);
                        }
                    },
                    None => {},
                }
                let _ = self.ssh_input.insert(device.clone(), String::new());
                proof {
                    assert(self.ssh_input.as_map().dom() =~= w.ssh_input.as_map().dom().insert(device@));
                }
                eff.push(Effect::SendSsh(device, cmd));
                eff.push(Effect::Persist);
                proof {
                    assert(same_but_ssh(w, *self));
                    assert(eff@.len() == 2);
                    assert(sets_input(
                        w.ssh_input.as_map(),
                        self.ssh_input.as_map(),
                        device@,
                        Seq::<char>::empty(),
                    ));
                }
            },
            None => {
                eff.push(Effect::Persist);
                assert(eff@ =~= seq![Effect::Persist]);
            },
        }
        eff
    }

    /// Closes the first session of `device`.
    fn close_session(&mut self, device: String) -> (res: Vec<Effect>)
        ensures
            close_session_spec(*old(self), device, *final(self), res@),
    {
        let ghost w = *self;
        match first_session_index(&self.ssh_sessions, device.as_str()) {
            Some(i) => {
                let _ = self.ssh_sessions.remove(i);
                assert(first_session(w.ssh_sessions@, device@) == Some(i as int));
                assert(self.ssh_sessions@ == w.ssh_sessions@.remove(i as int));
            },
            None => {},
        }
        let _ = self.ssh_input.remove(device.as_str());
        assert(same_but_ssh(w, *self));
        assert(self.ssh_input.as_map() == w.ssh_input.as_map().remove(device@));
        let mut eff: Vec<Effect> = Vec::new();
        eff.push(Effect::Persist);
        assert(eff@ =~= seq![Effect::Persist]);
        eff
    }

    /// Changes the connection settings and applies them when connected.
    fn change_options(
        &mut self,
        ssh_enabled: bool,
        routes: bool,
        is_exit_node: bool,
        allow_lan: bool,
    ) -> (res: Vec<Effect>)
        ensures
            same_but_status(*old(self), *final(self)),
            status_with(
                old(self).tailscale_status,
                final(self).tailscale_status,
                ssh_enabled,
                routes,
                is_exit_node,
                allow_lan,
            ),
            reconnect_effects(final(self).tailscale_status, res@),
    {
        self.tailscale_status.ssh_enabled = ssh_enabled;
        self.tailscale_status.routes = routes;
        self.tailscale_status.is_exit_node = is_exit_node;
        self.tailscale_status.allow_lan = allow_lan;
        self.reconnect()
    }

    /// Asks for the outside work `e`, then saves.
    fn forward(&self, e: Effect) -> (res: Vec<Effect>)
        ensures
            res@ == seq![e, Effect::Persist],
    {
        let mut eff: Vec<Effect> = Vec::new();
        eff.push(e);
        eff.push(Effect::Persist);
        assert(eff@ =~= seq![e, Effect::Persist]);
        eff
    }

    /// Only saves.
    fn persist_only(&self) -> (res: Vec<Effect>)
        ensures
            only_persist(res@),
    {
        let mut eff: Vec<Effect> = Vec::new();
        eff.push(Effect::Persist);
        assert(eff@ =~= seq![Effect::Persist]);
        eff
    }

    /// Turns Tailscale on (with the current settings) or off, then reads its
    /// status again.
    fn toggle_connectivity(&self, connect: bool) -> (res: Vec<Effect>)
        ensures
            connectivity_spec(self.tailscale_status, connect, res@),
    {
        let args = if connect {
            let st = &self.tailscale_status;
            tailscale_up_args(st.ssh_enabled, st.routes, st.is_exit_node, None, st.allow_lan)
        } else {
            tailscale_down_args()
        };
        let mut eff: Vec<Effect> = Vec::new();
        eff.push(Effect::RunTailscale(args));
        eff.push(Effect::RefreshStatus);
        eff.push(Effect::Persist);
        eff
    }

    /// Connects through exit node `node` when connected and not an exit node itself.
    fn use_exit_node(&self, node: String) -> (res: Vec<Effect>)
        ensures
            use_exit_node_spec(self.tailscale_status, node, res@),
    {
        let mut eff: Vec<Effect> = Vec::new();
        if !self.tailscale_status.is_exit_node && self.tailscale_status.connected {
            let st = &self.tailscale_status;
            let args = tailscale_up_args(st.ssh_enabled, st.routes, false, Some(node), st.allow_lan);
            eff.push(Effect::RunTailscale(args));
        }
        eff.push(Effect::Persist);
        proof {
            if eff@.len() == 1 {
                assert(eff@ =~= seq![Effect::Persist]);
            }
        }
        eff
    }

    /// Changes the interface settings other than the theme.
    fn change_settings(
        &mut self,
        font_size: u16,
        enable_notifications: bool,
        enable_sounds: bool,
        auto_receive_files: bool,
        disable_received_file_notifications: bool,
    )
        ensures
            same_but_settings(*old(self), *final(self)),
            settings_with(
                old(self).ui_config,
                final(self).ui_config,
                font_size,
                enable_notifications,
                enable_sounds,
                auto_receive_files,
                disable_received_file_notifications,
            ),
    {
        self.ui_config.font_size = font_size;
        self.ui_config.enable_notifications = enable_notifications;
        self.ui_config.enable_sounds = enable_sounds;
        self.ui_config.auto_receive_files = auto_receive_files;
        self.ui_config.disable_received_file_notifications = disable_received_file_notifications;
    }

    /// Switches the theme.
    fn select_theme(&mut self, theme: AppTheme) -> (res: Vec<Effect>)
        ensures
            theme_spec(*old(self), theme, *final(self), res@),
    {
        self.ui_config.theme = theme.config_name();
        let shown = AppTheme::from_config_name(self.ui_config.theme.as_str());
        proof {
            lemma_theme_name_round_trip(theme);
        }
        self.forward(Effect::ApplyTheme(shown))
    }

    /// Turns automatic receiving of files on or off; turning it off
    /// re-enables received-file notifications, with a notice.
    fn toggle_auto_receive(&mut self, auto: bool) -> (res: Vec<Effect>)
        ensures
            auto_receive_spec(*old(self), auto, *final(self), res@),
    {
        let c = &self.ui_config;
        let forced = !auto && c.disable_received_file_notifications;
        let (font, notif, sounds, disable) = (
            c.font_size,
            c.enable_notifications,
            c.enable_sounds,
            c.disable_received_file_notifications && !forced,
        );
        self.change_settings(font, notif, sounds, auto, disable);
        if forced {
            let mut eff: Vec<Effect> = Vec::new();
            eff.push(
                Effect::Notify(
                    owned("Auto-Recieve Disabled"),
                    owned(
                        "You have disabled auto-receive. Disabling notification for received files is no longer possible, so it has been re-enabled.",
                    ),
                ),
            );
            eff.push(Effect::Persist);
            eff
        } else {
            self.persist_only()
        }
    }

    /// Disables or re-enables received-file notifications, which is refused,
    /// with a notice, while files are not received automatically.
    fn toggle_file_notifications(&mut self, disable: bool) -> (res: Vec<Effect>)
        ensures
            file_notifications_spec(*old(self), disable, *final(self), res@),
    {
        let c = &self.ui_config;
        let (font, notif, sounds, auto) = (
            c.font_size,
            c.enable_notifications,
            c.enable_sounds,
            c.auto_receive_files,
        );
        if auto {
            self.change_settings(font, notif, sounds, auto, disable);
            self.persist_only()
        } else {
            let mut eff: Vec<Effect> = Vec::new();
            eff.push(
                Effect::Notify(
                    owned("Action Restricted"),
                    owned("You cannot disable file notifications while auto-receive is disabled."),
                ),
            );
            eff.push(Effect::Persist);
            eff
        }
    }

    /// Handles a user action: updates the window and returns the outside work
    /// to do, in order.
    pub fn update(&mut self, message: Message) -> (res: Vec<Effect>)
        ensures
            update_spec(*old(self), message, *final(self), res@),
    {
        let st = &self.tailscale_status;
        let (ssh, routes, exit, lan) = (st.ssh_enabled, st.routes, st.is_exit_node, st.allow_lan);
        let c = &self.ui_config;
        let (font, notif, sounds, auto, disable) = (
            c.font_size,
            c.enable_notifications,
            c.enable_sounds,
            c.auto_receive_files,
            c.disable_received_file_notifications,
        );
        match message {
            Message::ToggleTailscaleConnectivity(connect) => self.toggle_connectivity(connect),
            Message::ToggleSSHConnectivity(enable) => self.change_options(enable, routes, exit, lan),
            Message::ToggleAcceptRoutes(accept) => self.change_options(ssh, accept, exit, lan),
            Message::TailscaleReceiveFiles => self.forward(Effect::ReceiveFiles),
            Message::OpenFileDialogToSend(device) => self.forward(Effect::OpenFileDialog(device)),
            Message::FilesSelectedToSend(files, device) => self.forward(
                Effect::SendFiles(files, device),
            ),
            Message::RefreshDevices => self.forward(Effect::RefreshDevices),
            Message::ToggleIsExitNode(advertise) => self.change_options(ssh, routes, advertise, lan),
            Message::UseExitNode(node) => self.use_exit_node(node),
            Message::DisconnectExitNode => self.reconnect(),
            Message::ToggleConnectToLan(allow) => self.change_options(ssh, routes, exit, allow),
            Message::FontSizeChanged(size) => {
                let clamped = clamp_font_size(size);
                self.change_settings(clamped, notif, sounds, auto, disable);
                self.persist_only()
            },
            Message::ThemeSelected(theme) => self.select_theme(theme),
            Message::ToggleNotifications(enabled) => {
                self.change_settings(font, enabled, sounds, auto, disable);
                self.persist_only()
            },
            Message::ToggleSounds(enabled) => {
                self.change_settings(font, notif, enabled, auto, disable);
                self.persist_only()
            },
            Message::ToggleAutoReceive(auto) => self.toggle_auto_receive(auto),
            Message::ToggleDisableRecievedFileNotifications(disable) => self.toggle_file_notifications(
                disable,
            ),
            Message::CheckForUpdates => self.forward(Effect::CheckForUpdates),
            Message::OpenSSHSession(device, ip) => self.open_session(device, ip),
            Message::UpdateSSHInput(device, typed) => {
                let _ = self.ssh_input.insert(device, typed);
                self.persist_only()
            },
            Message::SendSSHCommand(device) => self.send_command(device),
            Message::CloseSSHSession(device) => self.close_session(device),
            Message::SwitchTab(tab) => {
                self.active_tab = tab;
                self.persist_only()
            },
            Message::Tick => self.persist_only(),
        }
    }
}


/// What the content area of the window shows.
#[derive(Debug, Clone, Copy, PartialEq, Eq, Structural)]
pub enum TabContent {
    Home,
    ExitNodes,
    Settings,
    ActiveSessions,
    /// A prompt to select a tab.
    Placeholder,
}

/// The content shown for the tab named `name`.
pub open spec fn tab_content_spec(name: Seq<char>) -> TabContent {
    if name == "Home"@ {
        TabContent::Home
    } else if name == "Exit Nodes"@ {
        TabContent::ExitNodes
    } else if name == "Settings"@ {
        TabContent::Settings
    } else if name == "Active Sessions"@ {
        TabContent::ActiveSessions
    } else {
        TabContent::Placeholder
    }
}

/// The button shown beside an exit node: its label, the message it sends, and
/// whether it is disabled.
pub open spec fn exit_node_button_spec(st: TailscaleStatus, node: Seq<char>) -> (Seq<char>, bool) {
    if st.is_exit_node {
        (exit_node_unavailable_label(), true)
    } else if st.use_exit_node && node == "dell-webserver"@ {
        ("Disconnect"@, false)
    } else if st.use_exit_node {
        (exit_node_unavailable_label(), true)
    } else {
        (exit_node_label(), false)
    }
}

/// The label of a button that connects to an exit node.
pub open spec fn exit_node_label() -> Seq<char> {
    "\u{1F4BB}"@
}

/// The label of an exit-node button that cannot be used.
pub open spec fn exit_node_unavailable_label() -> Seq<char> {
    "\u{1F4BB}\u{274C}"@
}

impl Window {
    /// The content shown for the active tab.
    pub fn tab_content(&self) -> (res: TabContent)
        ensures
            res == tab_content_spec(self.active_tab@),
    {
        let name = self.active_tab.as_str();
        if same_text(name, "Home") {
            TabContent::Home
        } else if same_text(name, "Exit Nodes") {
            TabContent::ExitNodes
        } else if same_text(name, "Settings") {
            TabContent::Settings
        } else if same_text(name, "Active Sessions") {
            TabContent::ActiveSessions
        } else {
            TabContent::Placeholder
        }
    }

    /// The theme the settings tab shows as selected.
    pub fn current_theme(&self) -> (res: AppTheme)
        ensures
            res == theme_from_config_spec(self.ui_config.theme@),
    {
        AppTheme::from_config_name(self.ui_config.theme.as_str())
    }

    /// The Tailscale address shown on the Home tab.
    pub fn ip_display(&self) -> (res: String)
        ensures
            match self.tailscale_status.tailscale_ip {
                Some(ip) => res@ == ip@,
                None => res@ == "Not connected"@,
            },
    {
        match &self.tailscale_status.tailscale_ip {
            Some(ip) => ip.clone(),
            None => owned("Not connected"),
        }
    }

    /// Whether the "Receive Files" button can be pressed: only when files are
    /// not received automatically.
    pub fn receive_button_enabled(&self) -> (res: bool)
        ensures
            res == !self.ui_config.auto_receive_files,
    {
        !self.ui_config.auto_receive_files
    }

    /// Whether the "Connect to LAN" toggle can be used: only while this host
    /// is an exit node.
    pub fn lan_toggle_enabled(&self) -> (res: bool)
        ensures
            res == self.tailscale_status.is_exit_node,
    {
        self.tailscale_status.is_exit_node
    }

    /// The button shown beside exit node `node`: label, message, and whether
    /// it is disabled.
    pub fn exit_node_button(&self, node: &str) -> (res: (String, Message, bool))
        ensures
            (res.0@, res.2) == exit_node_button_spec(self.tailscale_status, node@),
            !res.2 && self.tailscale_status.use_exit_node ==> res.1 == Message::DisconnectExitNode,
            !res.2 && !self.tailscale_status.use_exit_node ==> (res.1 matches Message::UseExitNode(n)
                && n@ == node@),
            res.2 ==> res.1 == Message::Tick,
    {
        let st = &self.tailscale_status;
        if st.is_exit_node {
            (owned("\u{1F4BB}\u{274C}"), Message::Tick, true)
        } else if st.use_exit_node && same_text(node, "dell-webserver") {
            (owned("Disconnect"), Message::DisconnectExitNode, false)
        } else if st.use_exit_node {
            (owned("\u{1F4BB}\u{274C}"), Message::Tick, true)
        } else {
            (owned("\u{1F4BB}"), Message::UseExitNode(owned(node)), false)
        }
    }

    /// The session whose output is shown: the first active one.
    pub fn active_session(&self) -> (res: Option<usize>)
        ensures
            res matches Some(i) ==> i < self.ssh_sessions@.len() && self.ssh_sessions@[i as int].active
                && forall|j: int| 0 <= j < i ==> !#[trigger] self.ssh_sessions@[j].active,
            res is None ==> forall|j: int|
                0 <= j < self.ssh_sessions@.len() ==> !#[trigger] self.ssh_sessions@[j].active,
    {
        let mut i: usize = 0;
        while i < self.ssh_sessions.len()
            invariant
                i <= self.ssh_sessions@.len(),
                forall|j: int| 0 <= j < i ==> !#[trigger] self.ssh_sessions@[j].active,
            decreases self.ssh_sessions@.len() - i,
        {
            if self.ssh_sessions[i].active {
                return Some(i);
            }
            i = i + 1;
        }
        None
    }

    /// The notification owed for files received with output `output`: one when
    /// something was received, notifications are on, and received-file
    /// notifications are not disabled.
    pub fn files_received(&self, output: &str) -> (res: Option<Effect>)
        ensures
            output@.len() > 0 && self.ui_config.enable_notifications
                && !self.ui_config.disable_received_file_notifications ==> (res matches Some(e)
                && notifies(e, "Received files"@, output@ + "\n"@)),
            !(output@.len() > 0 && self.ui_config.enable_notifications
                && !self.ui_config.disable_received_file_notifications) ==> res is None,
    {
        if output.unicode_len() > 0 && self.ui_config.enable_notifications
            && !self.ui_config.disable_received_file_notifications {
            let mut body = owned(output);
            body.append("\n");
            Some(Effect::Notify(owned("Received files"), body))
        } else {
            None
        }
    }
}

/// Handling an action keeps the settings' rules: the font size stays in its
/// range, and received-file notifications stay enabled while files are not
/// received automatically.
pub proof fn lemma_update_keeps_settings_valid(w: Window, msg: Message, w2: Window, eff: Seq<Effect>)
    requires
        update_spec(w, msg, w2, eff),
        w.ui_config.well_formed(),
    ensures
        w2.ui_config.well_formed(),
{
}

/// Every action ends by saving the settings.
pub proof fn lemma_update_ends_with_save(w: Window, msg: Message, w2: Window, eff: Seq<Effect>)
    requires
        update_spec(w, msg, w2, eff),
    ensures
        eff.len() > 0,
        eff.last() == Effect::Persist,
{
}

/// After a theme is selected, the settings tab shows that theme as selected.
pub proof fn lemma_selected_theme_is_shown(w: Window, theme: AppTheme, w2: Window, eff: Seq<Effect>)
    requires
        update_spec(w, Message::ThemeSelected(theme), w2, eff),
    ensures
        theme_from_config_spec(w2.ui_config.theme@) == theme,
{
    lemma_theme_name_round_trip(theme);
}

/// A command typed for a device is what is then sent to its session.
pub proof fn lemma_typed_command_is_sent(
    w: Window,
    device: String,
    typed: String,
    w2: Window,
    eff2: Seq<Effect>,
    w3: Window,
    eff3: Seq<Effect>,
)
    requires
        update_spec(w, Message::UpdateSSHInput(device, typed), w2, eff2),
        update_spec(w2, Message::SendSSHCommand(device), w3, eff3),
    ensures
        eff3[0] matches Effect::SendSsh(d, line) && d@ == device@ && line@ == typed@,
        w3.ssh_input.as_map()[device@]@ == Seq::<char>::empty(),
{
    assert(w2.ssh_input.as_map().dom().contains(device@));
}

/// While this host advertises itself as exit node, choosing another exit node
/// runs nothing.
pub proof fn lemma_exit_node_does_not_use_another(
    w: Window,
    w2: Window,
    eff2: Seq<Effect>,
    node: String,
    w3: Window,
    eff3: Seq<Effect>,
)
    requires
        update_spec(w, Message::ToggleIsExitNode(true), w2, eff2),
        update_spec(w2, Message::UseExitNode(node), w3, eff3),
    ensures
        eff3 == seq![Effect::Persist],
        w3.tailscale_status == w2.tailscale_status,
{
}

/// Closing a device's session forgets the command typed for it.
pub proof fn lemma_close_forgets_input(w: Window, device: String, w2: Window, eff: Seq<Effect>)
    requires
        update_spec(w, Message::CloseSSHSession(device), w2, eff),
    ensures
        !w2.ssh_input.as_map().dom().contains(device@),
        w2.ssh_sessions@.len() <= w.ssh_sessions@.len(),
{
    lemma_first_session(w.ssh_sessions@, device@);
}



/// While Tailscale is not connected, no action but switching the connection
/// itself runs a `tailscale` command: changing a setting, choosing or leaving
/// an exit node only saves the settings.
pub proof fn lemma_disconnected_runs_no_tailscale(
    w: Window,
    msg: Message,
    w2: Window,
    eff: Seq<Effect>,
)
    requires
        update_spec(w, msg, w2, eff),
        !w.tailscale_status.connected,
        !(msg is ToggleTailscaleConnectivity),
    ensures
        forall|i: int| 0 <= i < eff.len() ==> !(#[trigger] eff[i] is RunTailscale),
{
}

/// While Tailscale is not connected, choosing an exit node runs nothing: the
/// settings are only saved, and the window stays as it was.
pub proof fn lemma_disconnected_exit_node_only_saves(
    w: Window,
    node: String,
    w2: Window,
    eff: Seq<Effect>,
)
    requires
        update_spec(w, Message::UseExitNode(node), w2, eff),
        !w.tailscale_status.connected,
    ensures
        eff == seq![Effect::Persist],
        w2.tailscale_status == w.tailscale_status,
        w2.ssh_sessions@ == w.ssh_sessions@,
{
}

/// Closing the session of a device removes the first session of that device
/// and keeps every other session, in order; with no session of the device the
/// sessions stay as they were.
pub proof fn lemma_close_removes_first_session_of_device(
    w: Window,
    device: String,
    w2: Window,
    eff: Seq<Effect>,
)
    requires
        update_spec(w, Message::CloseSSHSession(device), w2, eff),
    ensures
        (exists|k: int| 0 <= k < w.ssh_sessions@.len() && #[trigger] w.ssh_sessions@[k].device_name@
            == device@) ==> exists|i: int|
            0 <= i < w.ssh_sessions@.len() && #[trigger] w.ssh_sessions@[i].device_name@ == device@
                && (forall|j: int| 0 <= j < i ==> w.ssh_sessions@[j].device_name@ != device@)
                && w2.ssh_sessions@.len() + 1 == w.ssh_sessions@.len() && (forall|j: int|
                0 <= j < i ==> #[trigger] w2.ssh_sessions@[j] == w.ssh_sessions@[j]) && (forall|
                j: int,
            |
                i < j < w.ssh_sessions@.len() ==> #[trigger] w2.ssh_sessions@[j - 1]
                    == w.ssh_sessions@[j]),
        (forall|k: int| 0 <= k < w.ssh_sessions@.len() ==> #[trigger] w.ssh_sessions@[k].device_name@
            != device@) ==> w2.ssh_sessions@ == w.ssh_sessions@,
{
    let ss = w.ssh_sessions@;
    lemma_first_session(ss, device@);
    if let Some(i) = first_session(ss, device@) {
        let rest = ss.remove(i);
        assert(w2.ssh_sessions@ == rest);
        assert forall|j: int| 0 <= j < i implies #[trigger] rest[j] == ss[j] by {}
        assert forall|j: int| i < j < ss.len() implies #[trigger] rest[j - 1] == ss[j] by {}
        assert(ss[i].device_name@ == device@);
    }
}

/// The exit nodes offered on the Exit Nodes tab.
pub fn known_exit_nodes() -> (res: Vec<String>)
    ensures
        strings_view(res@) == seq!["dell-webserver"@],
{
    let mut nodes: Vec<String> = Vec::new();
    nodes.push(owned("dell-webserver"));
    assert(strings_view(nodes@) =~= seq!["dell-webserver"@]);
    nodes
}


/// The messages of a device row's buttons: send files to the device, and open
/// an SSH session with it at `ip`.
pub fn device_actions(device: &str, ip: &str) -> (res: (Message, Message))
    ensures
        res.0 matches Message::OpenFileDialogToSend(d) && d@ == device@,
        res.1 matches Message::OpenSSHSession(d, i) && d@ == device@ && i@ == ip@,
{
    (Message::OpenFileDialogToSend(owned(device)), Message::OpenSSHSession(owned(device), owned(ip)))
}

impl Window {
    /// The device whose session the bottom "Close" button closes: that of the
    /// first session, if there is one.
    pub fn close_target(&self) -> (res: Option<String>)
        ensures
            self.ssh_sessions@.len() == 0 ==> res is None,
            self.ssh_sessions@.len() > 0 ==> (res matches Some(d) && d@
                == self.ssh_sessions@[0].device_name@),
    {
        if self.ssh_sessions.len() == 0 {
            None
        } else {
            Some(self.ssh_sessions[0].device_name.clone())
        }
    }

    /// The command shown as typed for `device`: the typed one, or nothing.
    pub fn typed_command(&self, device: &str) -> (res: String)
        ensures
            self.ssh_input.as_map().dom().contains(device@) ==> res@ == self.ssh_input.as_map()[device@]@,
            !self.ssh_input.as_map().dom().contains(device@) ==> res@ == Seq::<char>::empty(),
    {
        match self.ssh_input.get(device) {
            Some(typed) => typed.clone(),
            None => String::new(),
        }
    }

    /// The address saved under "ipv4" at start: the Tailscale address, or
    /// nothing when there is none.
    pub fn ipv4_setting(&self) -> (res: String)
        ensures
            match self.tailscale_status.tailscale_ip {
                Some(ip) => res@ == ip@,
                None => res@ == Seq::<char>::empty(),
            },
    {
        match &self.tailscale_status.tailscale_ip {
            Some(ip) => ip.clone(),
            None => String::new(),
        }
    }

    /// The Tailscale settings saved with each change, as (key, value).
    pub fn saved_settings(&self) -> (res: Vec<(String, bool)>)
        ensures
            res@.len() == 5,
            res@[0].0@ == "connected"@ && res@[0].1 == self.tailscale_status.connected,
            res@[1].0@ == "ssh_enabled"@ && res@[1].1 == self.tailscale_status.ssh_enabled,
            res@[2].0@ == "routes"@ && res@[2].1 == self.tailscale_status.routes,
            res@[3].0@ == "allow_lan"@ && res@[3].1 == self.tailscale_status.allow_lan,
            res@[4].0@ == "is_exit_node"@ && res@[4].1 == self.tailscale_status.is_exit_node,
    {
        let st = &self.tailscale_status;
        let mut res: Vec<(String, bool)> = Vec::new();
        res.push((owned("connected"), st.connected));
        res.push((owned("ssh_enabled"), st.ssh_enabled));
        res.push((owned("routes"), st.routes));
        res.push((owned("allow_lan"), st.allow_lan));
        res.push((owned("is_exit_node"), st.is_exit_node));
        res
    }
}

} // verus!
