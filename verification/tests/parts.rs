use gui_scale::config::{AppTheme, UIConfig};
use gui_scale::gui::{
    connect_button, connection_text, disconnect_button, routes_text, ssh_text, GuiCommand, GuiScale,
    TailscaleActions,
};
use gui_scale::ssh::{terminate_ssh_session, DeviceMap, SshTerminal};
use gui_scale::status::TailscaleStatus;
use gui_scale::tabs::{Tab, TabBar, TabBarMessage};

#[test]
fn device_map_insert_get_remove() {
    let mut m: DeviceMap<u32> = DeviceMap::new();
    assert_eq!(m.insert("a".to_string(), 1), None);
    assert_eq!(m.insert("b".to_string(), 2), None);
    assert_eq!(m.insert("a".to_string(), 3), Some(1));
    assert_eq!(m.len(), 2);
    assert_eq!(m.get("a"), Some(&3));
    assert!(m.contains("b"));
    assert_eq!(terminate_ssh_session(&mut m, "b"), Some(2));
    assert_eq!(terminate_ssh_session(&mut m, "b"), None);
    assert!(!m.contains("b"));
    assert_eq!(m.remove("a"), Some(3));
    assert_eq!(m.len(), 0);
}

#[test]
fn terminal_starts_empty() {
    let t = SshTerminal::new("laptop".to_string());
    assert_eq!(t.device_name, "laptop");
    assert!(t.content.is_empty());
}

#[test]
fn tabs() {
    let mut home = Tab::new("Home");
    assert_eq!(home.title(), "Home");
    assert!(!home.is_active());
    home.active(true);
    assert!(home.is_active());
    let mut bar = TabBar::new(Tab::new("Exit Nodes"), 1u8);
    assert_eq!(bar.active_index(), None);
    bar.push(home, 2u8);
    bar.push(Tab::new("Settings"), 3u8);
    assert_eq!(bar.titles(), vec!["Exit Nodes", "Home", "Settings"]);
    assert_eq!(bar.active_index(), Some(1));
    let TabBarMessage::TabSelected(t) = TabBarMessage::TabSelected("Home".to_string());
    assert_eq!(t, "Home");
}

#[test]
fn themes() {
    assert_eq!(AppTheme::System.as_str(), "System");
    assert_eq!(AppTheme::Light.to_string(), "Light");
    assert_eq!(AppTheme::Dark.config_name(), "dark");
    assert_eq!(AppTheme::from_config_name("light"), AppTheme::Light);
    assert_eq!(AppTheme::from_config_name("neon"), AppTheme::System);
    for t in [AppTheme::System, AppTheme::Light, AppTheme::Dark] {
        assert_eq!(AppTheme::from_position(t.position()), t);
        assert_eq!(AppTheme::from_config_name(&t.config_name()), t);
    }
}

#[test]
fn default_settings() {
    let c = UIConfig::default();
    assert_eq!(c.font_size, 14);
    assert_eq!(c.theme, "system");
    assert_eq!((c.window_width, c.window_height), (1024, 768));
    assert!(c.enable_notifications && c.enable_sounds && c.auto_receive_files);
    assert!(!c.disable_received_file_notifications && !c.ssh_enabled && !c.connect_to_lan);
    let s = TailscaleStatus::default();
    assert!(!s.connected && s.tailscale_ip.is_none());
}

#[test]
fn compact_front_end() {
    let mut g = GuiScale::new(false, true, false);
    assert_eq!(g.title(), "GUI-Scale");
    assert_eq!(
        g.update(TailscaleActions::Up),
        GuiCommand::Switch { up_down: true, allow_ssh: true, accept_routes: false }
    );
    assert!(g.up_down);
    assert_eq!(
        g.update(TailscaleActions::Down),
        GuiCommand::Switch { up_down: false, allow_ssh: false, accept_routes: false }
    );
    assert!(g.up_down);
    assert_eq!(g.update(TailscaleActions::UseSSH(false)), GuiCommand::SetSsh(false));
    assert!(!g.use_ssh);
    assert_eq!(g.update(TailscaleActions::AcceptRoutes(true)), GuiCommand::SetRoutes(true));
    assert!(g.allow_routes);
    assert_eq!(connection_text(true), "Tailscale Connected");
    assert_eq!(connection_text(false), "Tailscale Not Connected");
    assert_eq!(ssh_text(false), "SSH is disabled");
    assert_eq!(routes_text(true), "Routes are allowed");
    assert_eq!(connect_button(true), None);
    assert_eq!(connect_button(false), Some(TailscaleActions::Up));
    assert_eq!(disconnect_button(true), Some(TailscaleActions::Down));
    assert_eq!(disconnect_button(false), None);
}

#[test]
fn initial_tabs_and_exit_nodes() {
    let tabs = gui_scale::tabs::main_tabs();
    let titles: Vec<&str> = tabs.iter().map(|t| t.title.as_str()).collect();
    assert_eq!(titles, vec!["Home", "Exit Nodes", "Settings"]);
    assert!(tabs[0].active && !tabs[1].active && !tabs[2].active);
    assert_eq!(gui_scale::window::known_exit_nodes(), vec!["dell-webserver".to_string()]);
}

#[test]
fn no_process_after_termination() {
    let mut m: DeviceMap<u32> = DeviceMap::new();
    m.insert("laptop".to_string(), 7);
    assert_eq!(terminate_ssh_session(&mut m, "laptop"), Some(7));
    m.insert("nas".to_string(), 8);
    m.remove("nas");
    m.insert("tv".to_string(), 9);
    assert_eq!(m.get("laptop"), None);
}
