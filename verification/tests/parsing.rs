use gui_scale::devices::parse_tailscale_devices;
use gui_scale::status::{pref_enabled, tailscale_status_from};

fn devices(stdout: &str) -> Vec<(String, String, String)> {
    parse_tailscale_devices(stdout)
}

fn triple(a: &str, b: &str, c: &str) -> (String, String, String) {
    (a.to_string(), b.to_string(), c.to_string())
}

#[test]
fn devices_are_read_as_name_user_ip() {
    let out = "100.64.0.1   laptop   alice@   linux   -\n100.64.0.2  phone  bob@ android active; direct\n";
    assert_eq!(
        devices(out),
        vec![triple("laptop", "alice@", "100.64.0.1"), triple("phone", "bob@", "100.64.0.2")]
    );
}

#[test]
fn lines_mentioning_tailscale_and_empty_lines_are_skipped() {
    let out = "\n100.64.0.1 laptop alice@ linux -\n\n# Tailscale is stopped on this device\n";
    assert_eq!(devices(out), vec![triple("laptop", "alice@", "100.64.0.1")]);
}

#[test]
fn short_lines_are_skipped_and_other_lines_kept() {
    // A line with fewer than three words lists no device; any other line does,
    // whatever it holds.
    let out = "only two\n# Health check:\n";
    assert_eq!(devices(out), vec![triple("Health", "check:", "#")]);
}

#[test]
fn crlf_line_ends_and_missing_final_newline() {
    let out = "100.1.1.1\tbox\tcarol@\r\n100.1.1.2 tv dave@";
    assert_eq!(
        devices(out),
        vec![triple("box", "carol@", "100.1.1.1"), triple("tv", "dave@", "100.1.1.2")]
    );
}

#[test]
fn unicode_whitespace_separates_words() {
    let out = "100.1.1.1\u{3000}box\u{a0}erin@ linux";
    assert_eq!(devices(out), vec![triple("box", "erin@", "100.1.1.1")]);
}

#[test]
fn empty_output_lists_no_device() {
    assert!(devices("").is_empty());
}

const PREFS_TWO: &str = "{\n  \"ControlURL\": \"https://controlplane.tailscale.com\",\n  \"RouteAll\": false,\n  \"WantRunning\": true,\n  \"RunSSH\": true,\n  \"AdvertiseRoutes\": null,\n}\n";

const PREFS_FOUR: &str = "{\n  \"RouteAll\": true,\n  \"WantRunning\": true,\n  \"RunSSH\": true,\n  \"AdvertiseRoutes\": [\"0.0.0.0/0\"],\n}\n";

#[test]
fn status_reads_set_flags() {
    let st = tailscale_status_from(Some(" 100.64.0.7\n"), PREFS_TWO);
    assert!(st.connected);
    assert!(st.ssh_enabled);
    assert!(!st.routes);
    assert!(!st.is_exit_node);
    assert!(!st.allow_lan);
    assert!(!st.use_exit_node);
    assert_eq!(st.tailscale_ip, Some("100.64.0.7".to_string()));
}

#[test]
fn status_with_four_counted_lines_sets_everything() {
    let st = tailscale_status_from(None, PREFS_FOUR);
    assert!(st.connected && st.ssh_enabled && st.routes && st.is_exit_node);
    assert_eq!(st.tailscale_ip, None);
}

#[test]
fn four_counted_lines_set_all_flags_even_when_repeated() {
    let prefs = "\"WantRunning\": true\n\"WantRunning\": true\n\"WantRunning\": true\n\"WantRunning\": true\n";
    let st = tailscale_status_from(Some(""), prefs);
    assert!(st.connected && st.ssh_enabled && st.routes && st.is_exit_node);
    assert_eq!(st.tailscale_ip, Some(String::new()));
}

#[test]
fn a_line_sets_only_the_first_unset_flag_it_names() {
    // The second line names WantRunning (already set) and RunSSH: it sets SSH.
    let prefs = "WantRunning true\nWantRunning RunSSH true\nRouteAll true RunSSH\n";
    let st = tailscale_status_from(None, prefs);
    assert!(st.connected);
    assert!(st.ssh_enabled);
    assert!(st.routes);
    assert!(!st.is_exit_node);
}

#[test]
fn nothing_set_when_output_is_empty() {
    let st = tailscale_status_from(Some("\n"), "");
    assert!(!st.connected && !st.ssh_enabled && !st.routes && !st.is_exit_node);
    assert_eq!(st.tailscale_ip, Some(String::new()));
}

#[test]
fn grep_style_flags() {
    assert!(pref_enabled(PREFS_TWO, "WantRunning"));
    assert!(pref_enabled(PREFS_TWO, "RunSSH"));
    assert!(!pref_enabled(PREFS_TWO, "RouteAll"));
    assert!(pref_enabled(PREFS_FOUR, "RouteAll"));
    assert!(!pref_enabled("", "WantRunning"));
}

#[test]
fn device_fields_are_non_empty_words() {
    let out = "100.64.0.1 a b\n  100.64.0.2\t\tc   d  extra\n";
    for (name, user, ip) in devices(out) {
        for f in [&name, &user, &ip] {
            assert!(!f.is_empty());
            assert!(!f.chars().any(char::is_whitespace));
        }
    }
    assert_eq!(devices(out).len(), 2);
}

#[test]
fn trimmed_address_has_no_outer_whitespace() {
    let st = tailscale_status_from(Some("\u{2003} 100.64.0.3 \t\r\n"), "");
    assert_eq!(st.tailscale_ip, Some("100.64.0.3".to_string()));
}
