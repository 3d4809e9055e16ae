use gui_scale::config::{clamp_font_size, AppTheme, UIConfig};
use gui_scale::status::TailscaleStatus;
use gui_scale::window::{Effect, Message, TabContent, Window};

fn status(connected: bool) -> TailscaleStatus {
    TailscaleStatus {
        connected,
        tailscale_ip: Some("100.64.0.1".to_string()),
        ssh_enabled: false,
        routes: true,
        allow_lan: false,
        is_exit_node: false,
        use_exit_node: false,
    }
}

fn window(connected: bool) -> Window {
    Window::new(status(connected), UIConfig::default())
}

fn run_args(e: &Effect) -> Vec<String> {
    match e {
        Effect::RunTailscale(a) => a.clone(),
        other => panic!("expected a tailscale run, got {:?}", other),
    }
}

fn is_persist(e: &Effect) -> bool {
    matches!(e, Effect::Persist)
}

#[test]
fn new_window_shows_home() {
    let w = window(true);
    assert_eq!(w.active_tab, "Home");
    assert!(w.ssh_sessions.is_empty());
    assert_eq!(w.ssh_input.len(), 0);
    assert_eq!(w.tab_content(), TabContent::Home);
}

#[test]
fn connecting_runs_up_then_refreshes() {
    let mut w = window(false);
    let eff = w.update(Message::ToggleTailscaleConnectivity(true));
    assert_eq!(eff.len(), 3);
    assert_eq!(run_args(&eff[0]), vec!["up", "--ssh=false", "--accept-routes=true", "--advertise-exit-node=false"]);
    assert!(matches!(eff[1], Effect::RefreshStatus));
    assert!(is_persist(&eff[2]));
    let eff = w.update(Message::ToggleTailscaleConnectivity(false));
    assert_eq!(run_args(&eff[0]), vec!["down"]);
}

#[test]
fn toggling_ssh_reconnects_only_when_connected() {
    let mut w = window(true);
    let eff = w.update(Message::ToggleSSHConnectivity(true));
    assert!(w.tailscale_status.ssh_enabled);
    assert_eq!(eff.len(), 2);
    assert_eq!(run_args(&eff[0]), vec!["up", "--ssh=true", "--accept-routes=true", "--advertise-exit-node=false"]);
    let mut w = window(false);
    let eff = w.update(Message::ToggleAcceptRoutes(false));
    assert!(!w.tailscale_status.routes);
    assert_eq!(eff.len(), 1);
    assert!(is_persist(&eff[0]));
}

#[test]
fn exit_node_messages() {
    let mut w = window(true);
    let eff = w.update(Message::UseExitNode("gw".to_string()));
    assert_eq!(
        run_args(&eff[0]),
        vec!["up", "--ssh=false", "--accept-routes=true", "--advertise-exit-node=false", "--exit-node", "gw"]
    );
    let eff = w.update(Message::ToggleConnectToLan(true));
    assert!(w.tailscale_status.allow_lan);
    assert_eq!(eff.len(), 2);
    let eff = w.update(Message::ToggleIsExitNode(true));
    assert_eq!(run_args(&eff[0])[3], "--advertise-exit-node=true");
    // An exit node does not connect through another.
    let eff = w.update(Message::UseExitNode("gw".to_string()));
    assert_eq!(eff.len(), 1);
    let eff = w.update(Message::DisconnectExitNode);
    assert_eq!(run_args(&eff[0]).len(), 4);
}

#[test]
fn font_size_is_clamped() {
    let mut w = window(true);
    w.update(Message::FontSizeChanged(40));
    assert_eq!(w.ui_config.font_size, 24);
    w.update(Message::FontSizeChanged(2));
    assert_eq!(w.ui_config.font_size, 10);
    w.update(Message::FontSizeChanged(16));
    assert_eq!(w.ui_config.font_size, 16);
    assert_eq!(clamp_font_size(0), 10);
    assert_eq!(clamp_font_size(u16::MAX), 24);
}

#[test]
fn theme_selection_is_saved_and_shown() {
    let mut w = window(true);
    let eff = w.update(Message::ThemeSelected(AppTheme::Dark));
    assert_eq!(w.ui_config.theme, "dark");
    assert!(matches!(eff[0], Effect::ApplyTheme(AppTheme::Dark)));
    assert_eq!(w.current_theme(), AppTheme::Dark);
    w.update(Message::ThemeSelected(AppTheme::Light));
    assert_eq!(w.current_theme(), AppTheme::Light);
}

#[test]
fn auto_receive_rules() {
    let mut w = window(true);
    w.update(Message::ToggleDisableRecievedFileNotifications(true));
    assert!(w.ui_config.disable_received_file_notifications);
    // Turning auto-receive off re-enables the notifications, with a notice.
    let eff = w.update(Message::ToggleAutoReceive(false));
    assert!(!w.ui_config.auto_receive_files);
    assert!(!w.ui_config.disable_received_file_notifications);
    match &eff[0] {
        Effect::Notify(t, _) => assert_eq!(t, "Auto-Recieve Disabled"),
        other => panic!("expected a notice, got {:?}", other),
    }
    // While auto-receive is off, the notifications cannot be disabled.
    let eff = w.update(Message::ToggleDisableRecievedFileNotifications(true));
    assert!(!w.ui_config.disable_received_file_notifications);
    match &eff[0] {
        Effect::Notify(t, b) => {
            assert_eq!(t, "Action Restricted");
            assert_eq!(b, "You cannot disable file notifications while auto-receive is disabled.");
        }
        other => panic!("expected a notice, got {:?}", other),
    }
    assert!(w.receive_button_enabled());
}

#[test]
fn received_files_notification() {
    let mut w = window(true);
    match w.files_received("a.txt") {
        Some(Effect::Notify(t, b)) => {
            assert_eq!(t, "Received files");
            assert_eq!(b, "a.txt\n");
        }
        other => panic!("expected a notification, got {:?}", other),
    }
    assert!(w.files_received("").is_none());
    w.update(Message::ToggleNotifications(false));
    assert!(w.files_received("a.txt").is_none());
}

#[test]
fn ssh_session_lifecycle() {
    let mut w = window(true);
    let eff = w.update(Message::OpenSSHSession("laptop".to_string(), "100.64.0.2".to_string()));
    match &eff[0] {
        Effect::StartSsh(d, ip) => {
            assert_eq!(d, "laptop");
            assert_eq!(ip, "100.64.0.2");
        }
        other => panic!("expected an ssh start, got {:?}", other),
    }
    assert_eq!(w.ssh_sessions.len(), 1);
    assert_eq!(w.ssh_sessions[0].output_lines, vec!["Connected to laptop at 100.64.0.2"]);
    assert_eq!(w.ssh_input.get("laptop"), Some(&String::new()));
    w.update(Message::UpdateSSHInput("laptop".to_string(), "uptime".to_string()));
    assert_eq!(w.ssh_input.get("laptop"), Some(&"uptime".to_string()));
    let eff = w.update(Message::SendSSHCommand("laptop".to_string()));
    match &eff[0] {
        Effect::SendSsh(d, c) => {
            assert_eq!(d, "laptop");
            assert_eq!(c, "uptime");
        }
        other => panic!("expected an ssh command, got {:?}", other),
    }
    assert_eq!(w.ssh_sessions[0].output_lines.last().unwrap(), "> uptime");
    assert_eq!(w.ssh_input.get("laptop"), Some(&String::new()));
    assert_eq!(w.active_session(), Some(0));
    w.update(Message::CloseSSHSession("laptop".to_string()));
    assert!(w.ssh_sessions.is_empty());
    assert!(!w.ssh_input.contains("laptop"));
    // Without a typed command nothing is sent.
    let eff = w.update(Message::SendSSHCommand("laptop".to_string()));
    assert_eq!(eff.len(), 1);
}

#[test]
fn tabs_and_displays() {
    let mut w = window(true);
    w.update(Message::SwitchTab("Settings".to_string()));
    assert_eq!(w.tab_content(), TabContent::Settings);
    w.update(Message::SwitchTab("Exit Nodes".to_string()));
    assert_eq!(w.tab_content(), TabContent::ExitNodes);
    w.update(Message::SwitchTab("Active Sessions".to_string()));
    assert_eq!(w.tab_content(), TabContent::ActiveSessions);
    w.update(Message::SwitchTab("Elsewhere".to_string()));
    assert_eq!(w.tab_content(), TabContent::Placeholder);
    assert_eq!(w.ip_display(), "100.64.0.1");
    w.tailscale_status.tailscale_ip = None;
    assert_eq!(w.ip_display(), "Not connected");
}

#[test]
fn exit_node_buttons() {
    let mut w = window(true);
    let (label, msg, disabled) = w.exit_node_button("gw");
    assert_eq!(label, "\u{1F4BB}");
    assert!(!disabled);
    assert!(matches!(msg, Message::UseExitNode(ref n) if n == "gw"));
    w.tailscale_status.use_exit_node = true;
    let (label, msg, disabled) = w.exit_node_button("dell-webserver");
    assert_eq!(label, "Disconnect");
    assert!(!disabled);
    assert!(matches!(msg, Message::DisconnectExitNode));
    let (_, msg, disabled) = w.exit_node_button("gw");
    assert!(disabled);
    assert!(matches!(msg, Message::Tick));
    w.tailscale_status.is_exit_node = true;
    let (label, _, disabled) = w.exit_node_button("dell-webserver");
    assert_eq!(label, "\u{1F4BB}\u{274C}");
    assert!(disabled);
    assert!(w.lan_toggle_enabled());
}

#[test]
fn every_message_ends_with_saving() {
    let mut w = window(true);
    let msgs = vec![
        Message::TailscaleReceiveFiles,
        Message::OpenFileDialogToSend("d".to_string()),
        Message::FilesSelectedToSend(vec!["f".to_string()], "d".to_string()),
        Message::RefreshDevices,
        Message::CheckForUpdates,
        Message::ToggleSounds(false),
        Message::Tick,
    ];
    for m in msgs {
        let eff = w.update(m);
        assert!(is_persist(eff.last().unwrap()));
    }
    assert!(!w.ui_config.enable_sounds);
}

#[test]
fn view_decisions_and_saved_settings() {
    let mut w = window(true);
    assert_eq!(w.close_target(), None);
    assert_eq!(w.typed_command("laptop"), "");
    w.update(Message::OpenSSHSession("laptop".to_string(), "100.64.0.2".to_string()));
    w.update(Message::OpenSSHSession("nas".to_string(), "100.64.0.3".to_string()));
    assert_eq!(w.close_target(), Some("laptop".to_string()));
    w.update(Message::UpdateSSHInput("nas".to_string(), "df -h".to_string()));
    assert_eq!(w.typed_command("nas"), "df -h");
    assert_eq!(w.ipv4_setting(), "100.64.0.1");
    let saved = w.saved_settings();
    let keys: Vec<&str> = saved.iter().map(|(k, _)| k.as_str()).collect();
    assert_eq!(keys, vec!["connected", "ssh_enabled", "routes", "allow_lan", "is_exit_node"]);
    let values: Vec<bool> = saved.iter().map(|(_, v)| *v).collect();
    assert_eq!(values, vec![true, false, true, false, false]);
    w.tailscale_status.tailscale_ip = None;
    assert_eq!(w.ipv4_setting(), "");
    match gui_scale::window::device_actions("tv", "100.1.1.9") {
        (Message::OpenFileDialogToSend(d), Message::OpenSSHSession(d2, ip)) => {
            assert_eq!((d.as_str(), d2.as_str(), ip.as_str()), ("tv", "tv", "100.1.1.9"));
        }
        other => panic!("unexpected actions {:?}", other),
    }
}
