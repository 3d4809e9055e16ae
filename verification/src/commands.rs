//! The argument lists of the Tailscale CLI commands that the application runs,
//! and what it makes of their outcomes.
use vstd::prelude::*;

use crate::text::chars_of;

verus! {

/// The characters of each string in `v`.
pub open spec fn strings_view(v: Seq<String>) -> Seq<Seq<char>> {
    v.map_values(|s: String| s@)
}

/// An owned copy of `s`.
pub fn owned(s: &str) -> (res: String)
    ensures
        res@ == s@,
{
    let res = s.to_string();
    proof {
        vstd::string::to_string_from_display_ensures_for_str(s, res);
    }
    res
}

/// Whether `a` and `b` hold the same characters.
pub fn same_text(a: &str, b: &str) -> (res: bool)
    ensures
        res == (a@ == b@),
{
    let x = chars_of(a);
    let y = chars_of(b);
    if x.len() != y.len() {
        return false;
    }
    let mut i: usize = 0;
    while i < x.len()
        invariant
            x@ == a@,
            y@ == b@,
            x@.len() == y@.len(),
            i <= x@.len(),
            forall|k: int| 0 <= k < i ==> x@[k] == y@[k],
        decreases x@.len() - i,
    {
        if x[i] != y[i] {
            return false;
        }
        i = i + 1;
    }
    assert(x@ =~= y@);
    true
}

/// The arguments of `tailscale up` that apply the given settings.
pub open spec fn up_args_spec(
    ssh_enabled: bool,
    accept_routes: bool,
    advertise_exit_node: bool,
    exit_node: Option<Seq<char>>,
    allow_lan: bool,
) -> Seq<Seq<char>> {
    let base = seq![
        "up"@,
        if ssh_enabled { "--ssh=true"@ } else { "--ssh=false"@ },
        if accept_routes { "--accept-routes=true"@ } else { "--accept-routes=false"@ },
        if advertise_exit_node { "--advertise-exit-node=true"@ } else { "--advertise-exit-node=false"@ },
    ];
    match exit_node {
        None => base,
        Some(node) => if allow_lan {
            base + seq!["--exit-node"@, node, "--exit-node-allow-lan-access"@]
        } else {
            base + seq!["--exit-node"@, node]
        },
    }
}

/// The characters of an optional string.
pub open spec fn opt_string_view(o: Option<String>) -> Option<Seq<char>> {
    match o {
        Some(s) => Some(s@),
        None => None,
    }
}

/// Arguments of `tailscale up` that connect, or reconfigure a connection,
/// with SSH, route acceptance and exit-node advertising set as given, and,
/// where `exit_node` names a node, that use it as exit node (with LAN access
/// when `allow_lan`).
pub fn tailscale_up_args(
    ssh_enabled: bool,
    accept_routes: bool,
    advertise_exit_node: bool,
    exit_node: Option<String>,
    allow_lan: bool,
) -> (res: Vec<String>)
    ensures
        strings_view(res@) == up_args_spec(
            ssh_enabled,
            accept_routes,
            advertise_exit_node,
            opt_string_view(exit_node),
            allow_lan,
        ),
{
    let mut args: Vec<String> = Vec::new();
    args.push(owned("up"));
    args.push(
        if ssh_enabled {
            owned("--ssh=true")
        } else {
            owned("--ssh=false")
        },
    );
    args.push(
        if accept_routes {
            owned("--accept-routes=true")
        } else {
            owned("--accept-routes=false")
        },
    );
    args.push(
        if advertise_exit_node {
            owned("--advertise-exit-node=true")
        } else {
            owned("--advertise-exit-node=false")
        },
    );
    match exit_node {
        Some(node) => {
            args.push(owned("--exit-node"));
            args.push(node);
            if allow_lan {
                args.push(owned("--exit-node-allow-lan-access"));
            }
        },
        None => {},
    }
    assert(strings_view(args@) =~= up_args_spec(
        ssh_enabled,
        accept_routes,
        advertise_exit_node,
        opt_string_view(exit_node),
        allow_lan,
    ));
    args
}

/// Arguments of `tailscale down`.
pub fn tailscale_down_args() -> (res: Vec<String>)
    ensures
        strings_view(res@) == seq!["down"@],
{
    let mut args: Vec<String> = Vec::new();
    args.push(owned("down"));
    assert(strings_view(args@) =~= seq!["down"@]);
    args
}

/// Arguments of `tailscale file send` that send `file` to `device`.
pub fn file_send_args(file: &str, device: &str) -> (res: Vec<String>)
    ensures
        strings_view(res@) == seq!["file"@, "send"@, file@, device@ + ":"@],
{
    let mut target = owned(device);
    target.append(":");
    let mut args: Vec<String> = Vec::new();
    args.push(owned("file"));
    args.push(owned("send"));
    args.push(owned(file));
    args.push(target);
    assert(strings_view(args@) =~= seq!["file"@, "send"@, file@, device@ + ":"@]);
    args
}

/// What sending one file reports: nothing when the command succeeded, else
/// its error output.
pub fn file_send_status(success: bool, stderr: String) -> (res: Option<String>)
    ensures
        success ==> res is None,
        !success ==> res == Some(stderr),
{
    if success {
        None
    } else {
        Some(stderr)
    }
}

/// The program and arguments that bring the connection up with the given
/// options, or take it down. With neither SSH nor route acceptance asked for,
/// the connection is brought up with `nmcli up`.
pub open spec fn int_up_command_spec(up_down: bool, allow_ssh: bool, accept_routes: bool) -> (
    Seq<char>,
    Seq<Seq<char>>,
) {
    if up_down {
        if allow_ssh && accept_routes {
            ("tailscale"@, seq!["up"@, "--ssh"@, "--accept-routes"@])
        } else if allow_ssh {
            ("tailscale"@, seq!["up"@, "--ssh"@])
        } else if accept_routes {
            ("tailscale"@, seq!["up"@, "--accept-routes"@])
        } else {
            ("nmcli"@, seq!["up"@])
        }
    } else {
        ("tailscale"@, seq!["down"@])
    }
}

/// The command (program and arguments) that brings the connection up with SSH
/// and route acceptance as requested, or takes it down.
pub fn int_up_command(up_down: bool, allow_ssh: bool, accept_routes: bool) -> (res: (
    String,
    Vec<String>,
))
    ensures
        (res.0@, strings_view(res.1@)) == int_up_command_spec(up_down, allow_ssh, accept_routes),
        !up_down ==> res.0@ == "tailscale"@ && strings_view(res.1@) == seq!["down"@],
        up_down && (allow_ssh || accept_routes) ==> res.0@ == "tailscale"@ && strings_view(
            res.1@,
        )[0] == "up"@,
{
    let mut args: Vec<String> = Vec::new();
    let program;
    if up_down {
        args.push(owned("up"));
        if allow_ssh && accept_routes {
            program = owned("tailscale");
            args.push(owned("--ssh"));
            args.push(owned("--accept-routes"));
        } else if allow_ssh {
            program = owned("tailscale");
            args.push(owned("--ssh"));
        } else if accept_routes {
            program = owned("tailscale");
            args.push(owned("--accept-routes"));
        } else {
            program = owned("nmcli");
        }
    } else {
        program = owned("tailscale");
        args.push(owned("down"));
    }
    assert(strings_view(args@) =~= int_up_command_spec(up_down, allow_ssh, accept_routes).1);
    (program, args)
}

/// Taking the connection down is always `tailscale down`, whatever SSH and
/// route acceptance are set to; bringing it up with either of them asked for
/// runs `tailscale up` with exactly the flags asked for.
pub proof fn lemma_int_up_command(allow_ssh: bool, accept_routes: bool)
    ensures
        int_up_command_spec(false, allow_ssh, accept_routes) == ("tailscale"@, seq!["down"@]),
        allow_ssh || accept_routes ==> {
            let (program, args) = int_up_command_spec(true, allow_ssh, accept_routes);
            &&& program == "tailscale"@
            &&& args[0] == "up"@
            &&& args.contains("--ssh"@) == allow_ssh
            &&& args.contains("--accept-routes"@) == accept_routes
        },
{
    reveal_strlit("up");
    reveal_strlit("--ssh");
    reveal_strlit("--accept-routes");
    let args = int_up_command_spec(true, allow_ssh, accept_routes).1;
    if allow_ssh && accept_routes {
        assert(args[1] == "--ssh"@);
        assert(args[2] == "--accept-routes"@);
    } else if allow_ssh {
        assert(args[1] == "--ssh"@);
        assert(!args.contains("--accept-routes"@)) by {
            if args.contains("--accept-routes"@) {
                let k = choose|k: int| 0 <= k < args.len() && args[k] == "--accept-routes"@;
                assert(args[k].len() != "--accept-routes"@.len() || args[k][2] != "--accept-routes"@[2]);
            }
        }
    } else if accept_routes {
        assert(args[1] == "--accept-routes"@);
        assert(!args.contains("--ssh"@)) by {
            if args.contains("--ssh"@) {
                let k = choose|k: int| 0 <= k < args.len() && args[k] == "--ssh"@;
                assert(args[k].len() != "--ssh"@.len());
            }
        }
    }
}

/// What bringing the connection up or down reports: when bringing it up,
/// whether the command could be run; when taking it down, whether it could not.
pub fn int_up_outcome(up_down: bool, ran: bool) -> (res: bool)
    ensures
        res == (up_down == ran),
{
    if up_down {
        ran
    } else {
        !ran
    }
}

/// Arguments of the `tailscale` command that switches the connection on or off,
/// and what the switch then reports (whether it was switched on).
pub fn switch_args(up_down: bool) -> (res: (Vec<String>, bool))
    ensures
        strings_view(res.0@) == if up_down {
            seq!["up"@]
        } else {
            seq!["down"@]
        },
        res.1 == up_down,
{
    let mut args: Vec<String> = Vec::new();
    if up_down {
        args.push(owned("up"));
        assert(strings_view(args@) =~= seq!["up"@]);
    } else {
        args.push(owned("down"));
        assert(strings_view(args@) =~= seq!["down"@]);
    }
    (args, up_down)
}

/// Arguments of `tailscale set` that turn Tailscale SSH on or off.
pub fn ssh_setting_args(ssh: bool) -> (res: Vec<String>)
    ensures
        strings_view(res@) == if ssh {
            seq!["set"@, "--ssh"@]
        } else {
            seq!["set"@, "--ssh=false"@]
        },
{
    let mut args: Vec<String> = Vec::new();
    args.push(owned("set"));
    if ssh {
        args.push(owned("--ssh"));
        assert(strings_view(args@) =~= seq!["set"@, "--ssh"@]);
    } else {
        args.push(owned("--ssh=false"));
        assert(strings_view(args@) =~= seq!["set"@, "--ssh=false"@]);
    }
    args
}

/// Arguments of `tailscale set` that turn route acceptance on or off.
pub fn routes_setting_args(accept_routes: bool) -> (res: Vec<String>)
    ensures
        strings_view(res@) == if accept_routes {
            seq!["set"@, "--accept-routes"@]
        } else {
            seq!["set"@, "--accept-routes=false"@]
        },
{
    let mut args: Vec<String> = Vec::new();
    args.push(owned("set"));
    if accept_routes {
        args.push(owned("--accept-routes"));
        assert(strings_view(args@) =~= seq!["set"@, "--accept-routes"@]);
    } else {
        args.push(owned("--accept-routes=false"));
        assert(strings_view(args@) =~= seq!["set"@, "--accept-routes=false"@]);
    }
    args
}

/// The outcome of a shell command: its output when it succeeded, else its
/// error output.
pub fn command_outcome(success: bool, stdout: String, stderr: String) -> (res: Result<
    String,
    String,
>)
    ensures
        success ==> res == Ok::<String, String>(stdout),
        !success ==> res == Err::<String, String>(stderr),
{
    if success {
        Ok(stdout)
    } else {
        Err(stderr)
    }
}

/// What a check for updates decides.
#[derive(Debug, Clone, PartialEq, Eq)]
pub enum UpdateDecision {
    /// No release is published.
    NoRelease,
    /// The newest release is the running version.
    UpToDate,
    /// The newest release, with this version, differs from the running one.
    Update(String),
}

/// Decides on an update from the newest published release's version (if any)
/// and the running version.
pub fn update_decision(latest: Option<&str>, current: &str) -> (res: UpdateDecision)
    ensures
        latest is None ==> res == UpdateDecision::NoRelease,
        latest matches Some(v) ==> (v@ == current@ ==> res == UpdateDecision::UpToDate),
        latest matches Some(v) ==> (v@ != current@ ==> (res matches UpdateDecision::Update(n)
            && n@ == v@)),
{
    match latest {
        None => UpdateDecision::NoRelease,
        Some(v) => if same_text(v, current) {
            UpdateDecision::UpToDate
        } else {
            UpdateDecision::Update(owned(v))
        },
    }
}


/// The arguments of `ssh` that open an interactive session with `ip`: a forced
/// terminal, no host-key checking or recording, and keep-alive probes.
pub open spec fn ssh_args_spec(ip: Seq<char>) -> Seq<Seq<char>> {
    seq![
        "-tt"@,
        "-o"@,
        "StrictHostKeyChecking=no"@,
        "-o"@,
        "UserKnownHostsFile=/dev/null"@,
        "-o"@,
        "ServerAliveInterval=60"@,
        "-o"@,
        "ServerAliveCountMax=5"@,
        ip,
    ]
}

/// Arguments of `ssh` that open an interactive session with `ip`.
pub fn ssh_session_args(ip: &str) -> (res: Vec<String>)
    ensures
        strings_view(res@) == ssh_args_spec(ip@),
{
    let mut args: Vec<String> = Vec::new();
    args.push(owned("-tt"));
    args.push(owned("-o"));
    args.push(owned("StrictHostKeyChecking=no"));
    args.push(owned("-o"));
    args.push(owned("UserKnownHostsFile=/dev/null"));
    args.push(owned("-o"));
    args.push(owned("ServerAliveInterval=60"));
    args.push(owned("-o"));
    args.push(owned("ServerAliveCountMax=5"));
    args.push(owned(ip));
    assert(strings_view(args@) =~= ssh_args_spec(ip@));
    args
}

/// How a line of an SSH session's error output is shown.
pub fn ssh_error_line(line: &str) -> (res: String)
    ensures
        res@ == "Error: "@ + line@,
{
    let mut res = owned("Error: ");
    res.append(line);
    res
}

/// What is written to an SSH session for `command`: the command and a newline.
pub fn ssh_input_line(command: &str) -> (res: String)
    ensures
        res@ == command@ + "\n"@,
{
    let mut res = owned(command);
    res.append("\n");
    res
}

} // verus!
