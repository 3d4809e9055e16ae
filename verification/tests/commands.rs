use gui_scale::commands::{
    command_outcome, file_send_args, file_send_status, int_up_command, int_up_outcome,
    routes_setting_args, same_text, ssh_error_line, ssh_input_line, ssh_session_args,
    ssh_setting_args, switch_args, tailscale_down_args, tailscale_up_args, update_decision,
    UpdateDecision,
};

fn strs(v: &[&str]) -> Vec<String> {
    v.iter().map(|s| s.to_string()).collect()
}

#[test]
fn up_args_without_exit_node() {
    assert_eq!(
        tailscale_up_args(true, false, true, None, true),
        strs(&["up", "--ssh=true", "--accept-routes=false", "--advertise-exit-node=true"])
    );
}

#[test]
fn up_args_with_exit_node_and_lan() {
    assert_eq!(
        tailscale_up_args(false, true, false, Some("exit-box".to_string()), true),
        strs(&[
            "up",
            "--ssh=false",
            "--accept-routes=true",
            "--advertise-exit-node=false",
            "--exit-node",
            "exit-box",
            "--exit-node-allow-lan-access",
        ])
    );
    assert_eq!(
        tailscale_up_args(false, false, false, Some("n".to_string()), false),
        strs(&["up", "--ssh=false", "--accept-routes=false", "--advertise-exit-node=false", "--exit-node", "n"])
    );
}

#[test]
fn down_and_file_send_args() {
    assert_eq!(tailscale_down_args(), strs(&["down"]));
    assert_eq!(file_send_args("/tmp/a.txt", "laptop"), strs(&["file", "send", "/tmp/a.txt", "laptop:"]));
}

#[test]
fn file_send_status_reports_errors_only() {
    assert_eq!(file_send_status(true, "ignored".to_string()), None);
    assert_eq!(file_send_status(false, "no such peer".to_string()), Some("no such peer".to_string()));
}

#[test]
fn int_up_commands() {
    let (p, a) = int_up_command(true, true, true);
    assert_eq!((p.as_str(), a), ("tailscale", strs(&["up", "--ssh", "--accept-routes"])));
    let (p, a) = int_up_command(true, true, false);
    assert_eq!((p.as_str(), a), ("tailscale", strs(&["up", "--ssh"])));
    let (p, a) = int_up_command(true, false, true);
    assert_eq!((p.as_str(), a), ("tailscale", strs(&["up", "--accept-routes"])));
    let (p, a) = int_up_command(true, false, false);
    assert_eq!((p.as_str(), a), ("nmcli", strs(&["up"])));
    let (p, a) = int_up_command(false, true, true);
    assert_eq!((p.as_str(), a), ("tailscale", strs(&["down"])));
}

#[test]
fn int_up_outcomes() {
    assert!(int_up_outcome(true, true));
    assert!(!int_up_outcome(true, false));
    assert!(!int_up_outcome(false, true));
    assert!(int_up_outcome(false, false));
}

#[test]
fn switch_and_setting_args() {
    assert_eq!(switch_args(true), (strs(&["up"]), true));
    assert_eq!(switch_args(false), (strs(&["down"]), false));
    assert_eq!(ssh_setting_args(true), strs(&["set", "--ssh"]));
    assert_eq!(ssh_setting_args(false), strs(&["set", "--ssh=false"]));
    assert_eq!(routes_setting_args(true), strs(&["set", "--accept-routes"]));
    assert_eq!(routes_setting_args(false), strs(&["set", "--accept-routes=false"]));
}

#[test]
fn ssh_lines_and_args() {
    assert_eq!(
        ssh_session_args("100.64.0.9"),
        strs(&[
            "-tt",
            "-o",
            "StrictHostKeyChecking=no",
            "-o",
            "UserKnownHostsFile=/dev/null",
            "-o",
            "ServerAliveInterval=60",
            "-o",
            "ServerAliveCountMax=5",
            "100.64.0.9",
        ])
    );
    assert_eq!(ssh_error_line("denied"), "Error: denied");
    assert_eq!(ssh_input_line("ls -la"), "ls -la\n");
}

#[test]
fn command_outcomes() {
    assert_eq!(command_outcome(true, "out".to_string(), "err".to_string()), Ok("out".to_string()));
    assert_eq!(command_outcome(false, "out".to_string(), "err".to_string()), Err("err".to_string()));
}

#[test]
fn update_decisions() {
    assert_eq!(update_decision(None, "0.2.0"), UpdateDecision::NoRelease);
    assert_eq!(update_decision(Some("0.2.0"), "0.2.0"), UpdateDecision::UpToDate);
    assert_eq!(update_decision(Some("0.3.0"), "0.2.0"), UpdateDecision::Update("0.3.0".to_string()));
}

#[test]
fn text_comparison() {
    assert!(same_text("abc", "abc"));
    assert!(!same_text("abc", "abd"));
    assert!(!same_text("abc", "ab"));
}
