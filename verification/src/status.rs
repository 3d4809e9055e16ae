//! Tailscale's state as this application reads it from the CLI's output.
use vstd::prelude::*;

use crate::text::{chars_of, contains, contains_in, line_bounds, lines, string_of_range, trim, trim_bounds};

verus! {

/// Store Tailscale status information
#[derive(Debug, Clone)]
pub struct TailscaleStatus {
    pub connected: bool,
    pub tailscale_ip: Option<String>,
    pub ssh_enabled: bool,
    pub routes: bool,
    pub allow_lan: bool,
    pub is_exit_node: bool,
    pub use_exit_node: bool,
}

impl Default for TailscaleStatus {
    fn default() -> (res: Self)
        ensures
            !res.connected,
            res.tailscale_ip is None,
            !res.ssh_enabled,
            !res.routes,
            !res.allow_lan,
            !res.is_exit_node,
            !res.use_exit_node,
    {
        TailscaleStatus {
            connected: false,
            tailscale_ip: None,
            ssh_enabled: false,
            routes: false,
            allow_lan: false,
            is_exit_node: false,
            use_exit_node: false,
        }
    }
}

/// The flags read from `tailscale debug prefs`:
/// (connected, ssh enabled, routes accepted, advertised as exit node).
pub type PrefFlags = (bool, bool, bool, bool);

/// A line of `tailscale debug prefs` that bears on the flags: one of the
/// `WantRunning`, `RunSSH` and `RouteAll` settings set to true, or an
/// `AdvertiseRoutes` setting that is not null.
pub open spec fn pref_line_counts(line: Seq<char>) -> bool {
    ((contains(line, "WantRunning"@) || contains(line, "RunSSH"@) || contains(line, "RouteAll"@))
        && contains(line, "true"@)) || (contains(line, "AdvertiseRoutes"@) && !contains(
        line,
        "null"@,
    ))
}

/// The lines of `ls` that bear on the flags, in order.
pub open spec fn counted_pref_lines(ls: Seq<Seq<char>>) -> Seq<Seq<char>>
    decreases ls.len(),
{
    if ls.len() == 0 {
        Seq::<Seq<char>>::empty()
    } else {
        let r = counted_pref_lines(ls.drop_last());
        if pref_line_counts(ls.last()) {
            r.push(ls.last())
        } else {
            r
        }
    }
}

pub proof fn lemma_counted_len(ls: Seq<Seq<char>>)
    ensures
        counted_pref_lines(ls).len() <= ls.len(),
    decreases ls.len(),
{
    if ls.len() > 0 {
        lemma_counted_len(ls.drop_last());
    }
}

/// One counted line sets the first flag, in the order connected, SSH,
/// routes, exit node, whose keyword it mentions and which is not yet set.
pub open spec fn apply_pref_line(f: PrefFlags, line: Seq<char>) -> PrefFlags {
    if contains(line, "WantRunning"@) && !f.0 {
        (true, f.1, f.2, f.3)
    } else if contains(line, "RunSSH"@) && !f.1 {
        (f.0, true, f.2, f.3)
    } else if contains(line, "RouteAll"@) && !f.2 {
        (f.0, f.1, true, f.3)
    } else if contains(line, "AdvertiseRoutes"@) && !f.3 {
        (f.0, f.1, f.2, true)
    } else {
        f
    }
}

/// The flags after reading the lines `ls` in order, starting from all false.
pub open spec fn fold_pref_lines(ls: Seq<Seq<char>>) -> PrefFlags
    decreases ls.len(),
{
    if ls.len() == 0 {
        (false, false, false, false)
    } else {
        apply_pref_line(fold_pref_lines(ls.drop_last()), ls.last())
    }
}

/// The flags that the output `prefs` of `tailscale debug prefs` shows: all of
/// them when exactly four lines bear on them, else the lines read in order.
pub open spec fn pref_flags(prefs: Seq<char>) -> PrefFlags {
    let c = counted_pref_lines(lines(prefs));
    if c.len() == 4 {
        (true, true, true, true)
    } else {
        fold_pref_lines(c)
    }
}

/// Some line of `prefs` mentions `key` and "true": what
/// `tailscale debug prefs | grep key` then a test for "true" finds.
pub open spec fn pref_enabled_spec(prefs: Seq<char>, key: Seq<char>) -> bool {
    exists|i: int|
        0 <= i < lines(prefs).len() && contains(#[trigger] lines(prefs)[i], key) && contains(
            lines(prefs)[i],
            "true"@,
        )
}

/// The status that the outputs of `tailscale ip -4` (where it was valid
/// UTF-8) and `tailscale debug prefs` describe.
pub open spec fn status_matches(
    st: TailscaleStatus,
    ip_stdout: Option<Seq<char>>,
    prefs: Seq<char>,
) -> bool {
    let f = pref_flags(prefs);
    &&& st.connected == f.0
    &&& st.ssh_enabled == f.1
    &&& st.routes == f.2
    &&& st.is_exit_node == f.3
    &&& !st.allow_lan
    &&& !st.use_exit_node
    &&& match ip_stdout {
        None => st.tailscale_ip is None,
        Some(s) => st.tailscale_ip matches Some(ip) && ip@ == trim(s),
    }
}

/// The characters of an optional text.
pub open spec fn str_view(o: Option<&str>) -> Option<Seq<char>> {
    match o {
        Some(s) => Some(s@),
        None => None,
    }
}

/// Builds the status from the outputs of `tailscale ip -4` (`None` where it
/// was not valid UTF-8) and `tailscale debug prefs`.
pub fn tailscale_status_from(ip_stdout: Option<&str>, prefs: &str) -> (res: TailscaleStatus)
    ensures
        status_matches(res, str_view(ip_stdout), prefs@),
{
    let tailscale_ip = match ip_stdout {
        Some(s) => {
            let cs = chars_of(s);
            let (a, b) = trim_bounds(&cs, 0, cs.len());
            proof {
                assert(cs@.subrange(0, cs@.len() as int) =~= s@);
            }
            Some(string_of_range(s, a, b))
        },
        None => None,
    };
    let chars = chars_of(prefs);
    let bounds = line_bounds(&chars);
    let want_running = chars_of("WantRunning");
    let run_ssh = chars_of("RunSSH");
    let route_all = chars_of("RouteAll");
    let advertise = chars_of("AdvertiseRoutes");
    let truth = chars_of("true");
    let null = chars_of("null");
    let ghost ls = lines(chars@);
    let mut count: usize = 0;
    let mut connected = false;
    let mut ssh = false;
    let mut routes = false;
    let mut exit = false;
    let mut k: usize = 0;
    proof {
        assert(ls.take(0) =~= Seq::<Seq<char>>::empty());
    }
    while k < bounds.len()
        invariant
            chars@ == prefs@,
            want_running@ == "WantRunning"@,
            run_ssh@ == "RunSSH"@,
            route_all@ == "RouteAll"@,
            advertise@ == "AdvertiseRoutes"@,
            truth@ == "true"@,
            null@ == "null"@,
            ls == lines(chars@),
            bounds@.len() == ls.len(),
            forall|j: int|
                0 <= j < bounds@.len() ==> bounds@[j].0 <= bounds@[j].1 <= chars@.len()
                    && chars@.subrange(#[trigger] bounds@[j].0 as int, bounds@[j].1 as int)
                    == ls[j],
            0 <= k <= bounds@.len(),
            count == counted_pref_lines(ls.take(k as int)).len(),
            (connected, ssh, routes, exit) == fold_pref_lines(counted_pref_lines(ls.take(k as int))),
        decreases bounds@.len() - k,
    {
        let (s, e) = bounds[k];
        let ghost line = chars@.subrange(s as int, e as int);
        proof {
            assert(ls.take(k + 1).drop_last() =~= ls.take(k as int));
            assert(ls.take(k + 1).last() == line);
        }
        let has_want = contains_in(&chars, s, e, &want_running);
        let has_ssh = contains_in(&chars, s, e, &run_ssh);
        let has_routes = contains_in(&chars, s, e, &route_all);
        let has_adv = contains_in(&chars, s, e, &advertise);
        let has_true = contains_in(&chars, s, e, &truth);
        let has_null = contains_in(&chars, s, e, &null);
        if ((has_want || has_ssh || has_routes) && has_true) || (has_adv && !has_null) {
            let ghost c = counted_pref_lines(ls.take(k as int));
            proof {
                assert(counted_pref_lines(ls.take(k + 1)) == c.push(line));
                assert(c.push(line).drop_last() =~= c);
            }
            proof {
                lemma_counted_len(ls.take(k as int));
            }
            count = count + 1;
            if has_want && !connected {
                connected = true;
            } else if has_ssh && !ssh {
                ssh = true;
            } else if has_routes && !routes {
                routes = true;
            } else if has_adv && !exit {
                exit = true;
            }
        }
        k = k + 1;
    }
    proof {
        assert(ls.take(bounds@.len() as int) =~= ls);
    }
    if count == 4 {
        connected = true;
        ssh = true;
        routes = true;
        exit = true;
    }
    TailscaleStatus {
        connected,
        tailscale_ip,
        ssh_enabled: ssh,
        routes,
        allow_lan: false,
        is_exit_node: exit,
        use_exit_node: false,
    }
}

/// Whether some line of the output `prefs` of `tailscale debug prefs`
/// mentions `key` and "true".
pub fn pref_enabled(prefs: &str, key: &str) -> (res: bool)
    ensures
        res == pref_enabled_spec(prefs@, key@),
{
    let chars = chars_of(prefs);
    let bounds = line_bounds(&chars);
    let pat = chars_of(key);
    let truth = chars_of("true");
    let ghost ls = lines(chars@);
    let mut k: usize = 0;
    while k < bounds.len()
        invariant
            chars@ == prefs@,
            pat@ == key@,
            truth@ == "true"@,
            ls == lines(chars@),
            bounds@.len() == ls.len(),
            forall|j: int|
                0 <= j < bounds@.len() ==> bounds@[j].0 <= bounds@[j].1 <= chars@.len()
                    && chars@.subrange(#[trigger] bounds@[j].0 as int, bounds@[j].1 as int)
                    == ls[j],
            0 <= k <= bounds@.len(),
            forall|j: int|
                0 <= j < k ==> !(contains(#[trigger] ls[j], key@) && contains(ls[j], "true"@)),
        decreases bounds@.len() - k,
    {
        let (s, e) = bounds[k];
        if contains_in(&chars, s, e, &pat) && contains_in(&chars, s, e, &truth) {
            assert(contains(ls[k as int], key@) && contains(ls[k as int], "true"@));
            return true;
        }
        k = k + 1;
    }
    false
}


/// A counted line never clears a flag.
proof fn lemma_apply_keeps_flags(f: PrefFlags, line: Seq<char>)
    ensures
        f.0 ==> apply_pref_line(f, line).0,
        f.1 ==> apply_pref_line(f, line).1,
        f.2 ==> apply_pref_line(f, line).2,
        f.3 ==> apply_pref_line(f, line).3,
{
}

/// Which setting a prefs line is about, when it names exactly one of
/// `WantRunning` (0), `RunSSH` (1), `RouteAll` (2) and `AdvertiseRoutes` (3),
/// and whether it turns that setting on ("true", or for `AdvertiseRoutes` not
/// "null").
pub open spec fn line_turns_on(line: Seq<char>, k: int) -> bool {
    let want = contains(line, "WantRunning"@);
    let ssh = contains(line, "RunSSH"@);
    let routes = contains(line, "RouteAll"@);
    let adv = contains(line, "AdvertiseRoutes"@);
    let on = contains(line, "true"@);
    if k == 0 {
        want && !ssh && !routes && !adv && on
    } else if k == 1 {
        ssh && !want && !routes && !adv && on
    } else if k == 2 {
        routes && !want && !ssh && !adv && on
    } else {
        k == 3 && adv && !want && !ssh && !routes && !contains(line, "null"@)
    }
}

/// Flag `k` of the flags.
pub open spec fn flag(f: PrefFlags, k: int) -> bool {
    if k == 0 {
        f.0
    } else if k == 1 {
        f.1
    } else if k == 2 {
        f.2
    } else {
        f.3
    }
}

proof fn lemma_fold_sets_flag(ls: Seq<Seq<char>>, i: int, k: int)
    requires
        0 <= i < ls.len(),
        line_turns_on(ls[i], k),
    ensures
        flag(fold_pref_lines(counted_pref_lines(ls)), k),
    decreases ls.len(),
{
    let prev = counted_pref_lines(ls.drop_last());
    if i == ls.len() - 1 {
        assert(pref_line_counts(ls.last()));
        assert(counted_pref_lines(ls) == prev.push(ls.last()));
        assert(prev.push(ls.last()).drop_last() =~= prev);
    } else {
        assert(ls.drop_last()[i] == ls[i]);
        lemma_fold_sets_flag(ls.drop_last(), i, k);
        if pref_line_counts(ls.last()) {
            assert(counted_pref_lines(ls) == prev.push(ls.last()));
            assert(prev.push(ls.last()).drop_last() =~= prev);
            lemma_apply_keeps_flags(fold_pref_lines(prev), ls.last());
        }
    }
}

/// A prefs line that names one setting and turns it on leaves that setting on
/// in the status read: `WantRunning ... true` gives connected, `RunSSH ... true`
/// SSH, `RouteAll ... true` routes, and a non-null `AdvertiseRoutes` an exit node.
pub proof fn lemma_turned_on_setting_is_read(
    st: TailscaleStatus,
    ip_stdout: Option<Seq<char>>,
    prefs: Seq<char>,
    i: int,
    k: int,
)
    requires
        status_matches(st, ip_stdout, prefs),
        0 <= i < lines(prefs).len(),
        line_turns_on(lines(prefs)[i], k),
    ensures
        k == 0 ==> st.connected,
        k == 1 ==> st.ssh_enabled,
        k == 2 ==> st.routes,
        k == 3 ==> st.is_exit_node,
{
    lemma_fold_sets_flag(lines(prefs), i, k);
}

/// When exactly four lines of the prefs output bear on the settings (one of
/// `WantRunning`, `RunSSH`, `RouteAll` with "true", or a non-null
/// `AdvertiseRoutes`), the status has all four settings on.
pub proof fn lemma_four_setting_lines_turn_all_on(
    st: TailscaleStatus,
    ip_stdout: Option<Seq<char>>,
    prefs: Seq<char>,
)
    requires
        status_matches(st, ip_stdout, prefs),
        lines(prefs).filter(
            |l: Seq<char>|
                ((contains(l, "WantRunning"@) || contains(l, "RunSSH"@) || contains(l, "RouteAll"@))
                    && contains(l, "true"@)) || (contains(l, "AdvertiseRoutes"@) && !contains(
                    l,
                    "null"@,
                )),
        ).len() == 4,
    ensures
        st.connected && st.ssh_enabled && st.routes && st.is_exit_node,
{
    lemma_counted_is_filter(lines(prefs));
}

proof fn lemma_counted_is_filter(ls: Seq<Seq<char>>)
    ensures
        counted_pref_lines(ls) == ls.filter(
            |l: Seq<char>|
                ((contains(l, "WantRunning"@) || contains(l, "RunSSH"@) || contains(l, "RouteAll"@))
                    && contains(l, "true"@)) || (contains(l, "AdvertiseRoutes"@) && !contains(
                    l,
                    "null"@,
                )),
        ),
    decreases ls.len(),
{
    reveal(Seq::filter);
    if ls.len() > 0 {
        lemma_counted_is_filter(ls.drop_last());
    }
}

/// A prefs output with no line that bears on the settings leaves them all off.
pub proof fn lemma_no_counted_line_all_off(
    st: TailscaleStatus,
    ip_stdout: Option<Seq<char>>,
    prefs: Seq<char>,
)
    requires
        status_matches(st, ip_stdout, prefs),
        forall|i: int| 0 <= i < lines(prefs).len() ==> !pref_line_counts(#[trigger] lines(prefs)[i]),
    ensures
        !st.connected && !st.ssh_enabled && !st.routes && !st.is_exit_node,
{
    lemma_none_counted(lines(prefs));
}

proof fn lemma_none_counted(ls: Seq<Seq<char>>)
    requires
        forall|i: int| 0 <= i < ls.len() ==> !pref_line_counts(#[trigger] ls[i]),
    ensures
        counted_pref_lines(ls).len() == 0,
    decreases ls.len(),
{
    if ls.len() > 0 {
        assert forall|i: int| 0 <= i < ls.drop_last().len() implies !pref_line_counts(
            #[trigger] ls.drop_last()[i],
        ) by {
            assert(ls.drop_last()[i] == ls[i]);
        }
        lemma_none_counted(ls.drop_last());
        assert(!pref_line_counts(ls[ls.len() - 1]));
    }
}

} // verus!
