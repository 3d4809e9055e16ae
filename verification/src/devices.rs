//! The device list that `tailscale status` prints.
use vstd::prelude::*;

use crate::text::{
    chars_of, contains, contains_in, is_white_space, lemma_words_are_runs, line_bounds, lines,
    string_of_range, word_bounds, words,
};

verus! {

/// A device as the device list shows it: (device name, user name, Tailscale IP).
pub type DeviceView = (Seq<char>, Seq<char>, Seq<char>);

/// What one line of `tailscale status` contributes to the device list: nothing
/// for an empty line or a line that mentions "Tailscale" (a header or a notice);
/// otherwise, when the line has at least three words `ip name user ...`,
/// the device `(name, user, ip)`.
pub open spec fn device_of_line(line: Seq<char>) -> Option<DeviceView> {
    if line.len() == 0 || contains(line, "Tailscale"@) {
        None
    } else {
        let w = words(line);
        if w.len() >= 3 {
            Some((w[1], w[2], w[0]))
        } else {
            None
        }
    }
}

/// The devices that the lines `ls` describe, in order.
pub open spec fn devices_of_lines(ls: Seq<Seq<char>>) -> Seq<DeviceView>
    decreases ls.len(),
{
    if ls.len() == 0 {
        Seq::<DeviceView>::empty()
    } else {
        let r = devices_of_lines(ls.drop_last());
        match device_of_line(ls.last()) {
            Some(d) => r.push(d),
            None => r,
        }
    }
}

/// The devices listed in the output `s` of `tailscale status`.
pub open spec fn device_list(s: Seq<char>) -> Seq<DeviceView> {
    devices_of_lines(lines(s))
}

pub open spec fn device_view(d: (String, String, String)) -> DeviceView {
    (d.0@, d.1@, d.2@)
}

/// Reads the device list from the output of `tailscale status`: one entry
/// `(device_name, username, tailscale_ip)` for each line that lists a device.
pub fn parse_tailscale_devices(stdout: &str) -> (res: Vec<(String, String, String)>)
    ensures
        res@.map_values(|d: (String, String, String)| device_view(d)) == device_list(stdout@),
{
    let chars = chars_of(stdout);
    let bounds = line_bounds(&chars);
    let header = chars_of("Tailscale");
    let ghost ls = lines(chars@);
    let mut res: Vec<(String, String, String)> = Vec::new();
    let mut k: usize = 0;
    proof {
        assert(ls.take(0) =~= Seq::<Seq<char>>::empty());
    }
    while k < bounds.len()
        invariant
            chars@ == stdout@,
            header@ == "Tailscale"@,
            ls == lines(chars@),
            bounds@.len() == ls.len(),
            forall|j: int|
                0 <= j < bounds@.len() ==> bounds@[j].0 <= bounds@[j].1 <= chars@.len()
                    && chars@.subrange(#[trigger] bounds@[j].0 as int, bounds@[j].1 as int)
                    == ls[j],
            0 <= k <= bounds@.len(),
            res@.map_values(|d: (String, String, String)| device_view(d)) == devices_of_lines(
                ls.take(k as int),
            ),
        decreases bounds@.len() - k,
    {
        let (s, e) = bounds[k];
        let ghost line = chars@.subrange(s as int, e as int);
        let ghost before = res@.map_values(|d: (String, String, String)| device_view(d));
        proof {
            assert(ls.take(k + 1).drop_last() =~= ls.take(k as int));
            assert(ls.take(k + 1).last() == line);
        }
        if s < e && !contains_in(&chars, s, e, &header) {
            let ws = word_bounds(&chars, s, e);
            if ws.len() >= 3 {
                let (a0, b0) = ws[0];
                let (a1, b1) = ws[1];
                let (a2, b2) = ws[2];
                let name = string_of_range(stdout, a1, b1);
                let user = string_of_range(stdout, a2, b2);
                let ip = string_of_range(stdout, a0, b0);
                res.push((name, user, ip));
                proof {
                    let w = words(line);
                    assert(device_of_line(line) == Some((w[1], w[2], w[0])));
                    assert(res@.map_values(|d: (String, String, String)| device_view(d))
                        =~= before.push((w[1], w[2], w[0])));
                }
            } else {
                proof {
                    assert(device_of_line(line) is None);
                }
            }
        } else {
            proof {
                assert(device_of_line(line) is None);
            }
        }
        k = k + 1;
    }
    proof {
        assert(ls.take(bounds@.len() as int) =~= ls);
    }
    res
}


/// A field of the device list: a non-empty run of non-whitespace characters.
pub open spec fn is_field(f: Seq<char>) -> bool {
    f.len() > 0 && forall|j: int| 0 <= j < f.len() ==> !is_white_space(#[trigger] f[j])
}

/// Every device in the list has a name, a user and an address, none of them
/// empty or holding whitespace.
pub proof fn lemma_device_fields(s: Seq<char>)
    ensures
        forall|i: int|
            0 <= i < device_list(s).len() ==> is_field(#[trigger] device_list(s)[i].0) && is_field(
                device_list(s)[i].1,
            ) && is_field(device_list(s)[i].2),
{
    lemma_rows_fields(lines(s));
}

proof fn lemma_rows_fields(ls: Seq<Seq<char>>)
    ensures
        forall|i: int|
            0 <= i < devices_of_lines(ls).len() ==> is_field(#[trigger] devices_of_lines(ls)[i].0)
                && is_field(devices_of_lines(ls)[i].1) && is_field(devices_of_lines(ls)[i].2),
    decreases ls.len(),
{
    if ls.len() > 0 {
        let r = devices_of_lines(ls.drop_last());
        lemma_rows_fields(ls.drop_last());
        let line = ls.last();
        lemma_words_are_runs(line);
        let w = words(line);
        let res = devices_of_lines(ls);
        assert forall|i: int| 0 <= i < res.len() implies is_field(#[trigger] res[i].0) && is_field(
            res[i].1,
        ) && is_field(res[i].2) by {
            if i < r.len() {
                assert(res[i] == r[i]);
            } else {
                assert(w[0].len() > 0);
                assert(w[1].len() > 0);
                assert(w[2].len() > 0);
            }
        }
    }
}

/// Every line of the `tailscale status` output that is not empty, does not
/// mention "Tailscale" and has at least three words lists a device, whatever
/// else the line holds: its second word is the device's name, its third the
/// user and its first the Tailscale IP.
pub proof fn lemma_listed_line_gives_device(s: Seq<char>, i: int)
    requires
        0 <= i < lines(s).len(),
        lines(s)[i].len() > 0,
        !contains(lines(s)[i], "Tailscale"@),
        words(lines(s)[i]).len() >= 3,
    ensures
        device_list(s).contains(
            (words(lines(s)[i])[1], words(lines(s)[i])[2], words(lines(s)[i])[0]),
        ),
{
    lemma_row_listed(lines(s), i);
}

proof fn lemma_row_listed(ls: Seq<Seq<char>>, i: int)
    requires
        0 <= i < ls.len(),
        ls[i].len() > 0,
        !contains(ls[i], "Tailscale"@),
        words(ls[i]).len() >= 3,
    ensures
        devices_of_lines(ls).contains((words(ls[i])[1], words(ls[i])[2], words(ls[i])[0])),
    decreases ls.len(),
{
    let d = (words(ls[i])[1], words(ls[i])[2], words(ls[i])[0]);
    let r = devices_of_lines(ls.drop_last());
    if i == ls.len() - 1 {
        assert(devices_of_lines(ls) == r.push(d));
        assert(r.push(d)[r.len() as int] == d);
    } else {
        assert(ls.drop_last()[i] == ls[i]);
        lemma_row_listed(ls.drop_last(), i);
        let k = choose|k: int| 0 <= k < r.len() && r[k] == d;
        match device_of_line(ls.last()) {
            Some(e) => {
                assert(r.push(e)[k] == d);
            },
            None => {},
        }
    }
}

/// Every device in the list comes from a line of the output that is not
/// empty, does not mention "Tailscale" and has at least three words: the
/// line's second, third and first words.
pub proof fn lemma_device_comes_from_line(s: Seq<char>, d: DeviceView)
    requires
        device_list(s).contains(d),
    ensures
        exists|i: int|
            0 <= i < lines(s).len() && #[trigger] lines(s)[i].len() > 0 && !contains(
                lines(s)[i],
                "Tailscale"@,
            ) && words(lines(s)[i]).len() >= 3 && d == (
                words(lines(s)[i])[1],
                words(lines(s)[i])[2],
                words(lines(s)[i])[0],
            ),
{
    lemma_device_from_row(lines(s), d);
}

proof fn lemma_device_from_row(ls: Seq<Seq<char>>, d: DeviceView)
    requires
        devices_of_lines(ls).contains(d),
    ensures
        exists|i: int|
            0 <= i < ls.len() && #[trigger] ls[i].len() > 0 && !contains(ls[i], "Tailscale"@)
                && words(ls[i]).len() >= 3 && d == (words(ls[i])[1], words(ls[i])[2], words(ls[i])[0]),
    decreases ls.len(),
{
    let r = devices_of_lines(ls.drop_last());
    let k = choose|k: int| 0 <= k < devices_of_lines(ls).len() && devices_of_lines(ls)[k] == d;
    if k < r.len() {
        match device_of_line(ls.last()) {
            Some(e) => {
                assert(r.push(e)[k] == r[k]);
            },
            None => {},
        }
        assert(r.contains(d));
        lemma_device_from_row(ls.drop_last(), d);
        let j = choose|j: int|
            0 <= j < ls.drop_last().len() && #[trigger] ls.drop_last()[j].len() > 0 && !contains(
                ls.drop_last()[j],
                "Tailscale"@,
            ) && words(ls.drop_last()[j]).len() >= 3 && d == (
                words(ls.drop_last()[j])[1],
                words(ls.drop_last()[j])[2],
                words(ls.drop_last()[j])[0],
            );
        assert(ls.drop_last()[j] == ls[j]);
        assert(ls[j].len() > 0);
    } else {
        let last = ls.len() - 1;
        assert(ls[last] == ls.last());
        assert(ls[last].len() > 0);
    }
}

/// A line of `tailscale status` that lists a device: not empty, not mentioning
/// "Tailscale", with at least three words.
pub open spec fn lists_device(line: Seq<char>) -> bool {
    line.len() > 0 && !contains(line, "Tailscale"@) && words(line).len() >= 3
}

/// The device that a listing line names: its second, third and first words.
pub open spec fn listed_device(line: Seq<char>) -> DeviceView {
    (words(line)[1], words(line)[2], words(line)[0])
}

/// The device list holds one device for each listing line of the output, in
/// the order of the lines, and nothing else.
pub proof fn lemma_device_list_follows_lines(s: Seq<char>)
    ensures
        device_list(s) == lines(s).filter(|l: Seq<char>| lists_device(l)).map_values(
            |l: Seq<char>| listed_device(l),
        ),
{
    lemma_rows_follow_lines(lines(s));
}

proof fn lemma_rows_follow_lines(ls: Seq<Seq<char>>)
    ensures
        devices_of_lines(ls) == ls.filter(|l: Seq<char>| lists_device(l)).map_values(
            |l: Seq<char>| listed_device(l),
        ),
    decreases ls.len(),
{
    let pred = |l: Seq<char>| lists_device(l);
    let f = |l: Seq<char>| listed_device(l);
    if ls.len() == 0 {
        assert(ls.filter(pred).map_values(f) =~= Seq::<DeviceView>::empty());
    } else {
        lemma_rows_follow_lines(ls.drop_last());
        let sub = ls.drop_last().filter(pred);
        reveal(Seq::filter);
        assert(ls.filter(pred) == if pred(ls.last()) {
            sub.push(ls.last())
        } else {
            sub
        });
        if pred(ls.last()) {
            assert(sub.push(ls.last()).map_values(f) =~= sub.map_values(f).push(f(ls.last())));
        }
    }
}

} // verus!
