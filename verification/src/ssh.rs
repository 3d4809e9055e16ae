//! Values kept per device name (the running SSH processes, the command typed
//! into each session) and the terminal that shows a session's output.
use vstd::prelude::*;

use crate::commands::same_text;

verus! {

/// One value per device name: the running SSH process of each device (`H` is
/// then whatever the caller reaches a process by) or the command typed for it.
pub struct DeviceMap<H> {
    entries: Vec<(String, H)>,
}

impl<H> DeviceMap<H> {
    /// No two entries share a device name.
    #[verifier::type_invariant]
    closed spec fn keys_distinct(self) -> bool {
        forall|i: int, j: int|
            0 <= i < j < self.entries@.len() ==> #[trigger] self.entries@[i].0@
                != #[trigger] self.entries@[j].0@
    }

    /// Some entry is for device `key`.
    pub closed spec fn has(self, key: Seq<char>) -> bool {
        exists|i: int| 0 <= i < self.entries@.len() && #[trigger] self.entries@[i].0@ == key
    }

    /// The position of the entry for device `key`.
    closed spec fn position_of(self, key: Seq<char>) -> int {
        choose|i: int| 0 <= i < self.entries@.len() && #[trigger] self.entries@[i].0@ == key
    }

    /// The processes by device name.
    pub closed spec fn as_map(self) -> Map<Seq<char>, H> {
        Map::new(|k: Seq<char>| self.has(k), |k: Seq<char>| self.entries@[self.position_of(k)].1)
    }

    proof fn lemma_entry(self, i: int)
        requires
            self.keys_distinct(),
            0 <= i < self.entries@.len(),
        ensures
            self.as_map().dom().contains(self.entries@[i].0@),
            self.as_map()[self.entries@[i].0@] == self.entries@[i].1,
    {
        let k = self.entries@[i].0@;
        assert(self.has(k));
        let p = self.position_of(k);
        assert(0 <= p < self.entries@.len() && self.entries@[p].0@ == k);
        if p < i {
            assert(self.entries@[p].0@ != self.entries@[i].0@);
        } else if p > i {
            assert(self.entries@[i].0@ != self.entries@[p].0@);
        }
    }

    /// An empty store.
    pub fn new() -> (res: Self)
        ensures
            res.as_map() == Map::<Seq<char>, H>::empty(),
    {
        let res = DeviceMap { entries: Vec::new() };
        assert(res.as_map() =~= Map::<Seq<char>, H>::empty());
        res
    }

    /// The number of running processes.
    pub fn len(&self) -> (res: usize)
        ensures
            res == self.as_map().dom().len(),
    {
        proof {
            use_type_invariant(self);
            self.lemma_dom_len();
        }
        self.entries.len()
    }

    proof fn lemma_dom_len(self)
        requires
            self.keys_distinct(),
        ensures
            self.as_map().dom().len() == self.entries@.len(),
            self.as_map().dom().finite(),
    {
        let keys = self.entries@.map_values(|e: (String, H)| e.0@);
        assert(keys.no_duplicates()) by {
            assert forall|i: int, j: int| 0 <= i < keys.len() && 0 <= j < keys.len() && i != j
                implies keys[i] != keys[j] by {
                if i < j {
                    assert(self.entries@[i].0@ != self.entries@[j].0@);
                } else {
                    assert(self.entries@[j].0@ != self.entries@[i].0@);
                }
            }
        }
        assert(self.as_map().dom() =~= keys.to_set()) by {
            assert forall|k: Seq<char>| self.as_map().dom().contains(k) implies keys.to_set().contains(k) by {
                let p = self.position_of(k);
                assert(keys[p] == k);
            }
            assert forall|k: Seq<char>| keys.to_set().contains(k) implies self.as_map().dom().contains(k) by {
                let i = choose|i: int| 0 <= i < keys.len() && keys[i] == k;
                assert(self.entries@[i].0@ == k);
            }
        }
        keys.unique_seq_to_set();
    }

    /// Where the entry for `key` stands, if there is one.
    fn find(&self, key: &str) -> (res: Option<usize>)
        ensures
            res matches Some(i) ==> i < self.entries@.len() && self.entries@[i as int].0@ == key@,
            res is None ==> !self.has(key@),
    {
        let mut i: usize = 0;
        while i < self.entries.len()
            invariant
                i <= self.entries@.len(),
                forall|j: int| 0 <= j < i ==> #[trigger] self.entries@[j].0@ != key@,
            decreases self.entries@.len() - i,
        {
            if same_text(self.entries[i].0.as_str(), key) {
                return Some(i);
            }
            i = i + 1;
        }
        None
    }

    /// Whether a process runs for device `key`.
    pub fn contains(&self, key: &str) -> (res: bool)
        ensures
            res == self.as_map().dom().contains(key@),
    {
        proof {
            use_type_invariant(self);
        }
        match self.find(key) {
            Some(i) => {
                proof {
                    self.lemma_entry(i as int);
                }
                true
            },
            None => false,
        }
    }

    /// The process of device `key`, if there is one.
    pub fn get(&self, key: &str) -> (res: Option<&H>)
        ensures
            self.as_map().dom().contains(key@) ==> (res matches Some(h) && *h == self.as_map()[key@]),
            !self.as_map().dom().contains(key@) ==> res is None,
    {
        proof {
            use_type_invariant(self);
        }
        match self.find(key) {
            Some(i) => {
                proof {
                    self.lemma_entry(i as int);
                }
                Some(&self.entries[i].1)
            },
            None => None,
        }
    }

    /// Takes out the process of device `key`, if there is one.
    pub fn remove(&mut self, key: &str) -> (res: Option<H>)
        ensures
            final(self).as_map() == old(self).as_map().remove(key@),
            old(self).as_map().dom().contains(key@) ==> res == Some(old(self).as_map()[key@]),
            !old(self).as_map().dom().contains(key@) ==> res is None,
    {
        proof {
            use_type_invariant(&*self);
        }
        match self.find(key) {
            Some(i) => {
                proof {
                    self.lemma_entry(i as int);
                }
                let ghost before = self.entries@;
                let ghost old_self = *self;
                let ghost old_view = self.as_map();
                let mut entries: Vec<(String, H)> = Vec::new();
                std::mem::swap(&mut entries, &mut self.entries);
                let entry = entries.remove(i);
                proof {
                    assert forall|a: int, b: int|
                        0 <= a < b < entries@.len() implies #[trigger] entries@[a].0@
                        != #[trigger] entries@[b].0@ by {
                        let a2 = if a < i { a } else { a + 1 };
                        let b2 = if b < i { b } else { b + 1 };
                        assert(entries@[a] == before[a2]);
                        assert(entries@[b] == before[b2]);
                    }
                }
                self.entries = entries;
                proof {
                    use_type_invariant(&*self);
                    let after = self.entries@;
                    assert(after == before.remove(i as int));
                    assert forall|k: Seq<char>|
                        #![trigger self.as_map().dom().contains(k)]
                        self.as_map().dom().contains(k) == old_view.remove(key@).dom().contains(k)
                            && (self.as_map().dom().contains(k) ==> self.as_map()[k]
                            == old_view.remove(key@)[k]) by {
                        if self.has(k) {
                            let p = self.position_of(k);
                            let q = if p < i { p } else { p + 1 };
                            assert(before[q] == after[p]);
                            self.lemma_entry(p);
                            old_self.lemma_entry(q);
                            assert(k != key@) by {
                                if q < i {
                                    assert(before[q].0@ != before[i as int].0@);
                                } else {
                                    assert(before[i as int].0@ != before[q].0@);
                                }
                            }
                        }
                        if old_view.remove(key@).dom().contains(k) {
                            let q = old_self.position_of(k);
                            assert(q != i);
                            let p = if q < i { q } else { q - 1 };
                            assert(before[q] == after[p]);
                            assert(self.has(k));
                        }
                    }
                    assert(self.as_map() =~= old_view.remove(key@));
                }
                Some(entry.1)
            },
            None => {
                assert(self.as_map() =~= self.as_map().remove(key@));
                None
            },
        }
    }
}

impl<H> DeviceMap<H> {
    /// Records the process of device `key`, replacing and handing back the
    /// one it had.
    pub fn insert(&mut self, key: String, handle: H) -> (res: Option<H>)
        ensures
            final(self).as_map() == old(self).as_map().insert(key@, handle),
            old(self).as_map().dom().contains(key@) ==> res == Some(old(self).as_map()[key@]),
            !old(self).as_map().dom().contains(key@) ==> res is None,
    {
        let previous = self.remove(key.as_str());
        proof {
            use_type_invariant(&*self);
        }
        let ghost before = self.entries@;
        let ghost mid_view = self.as_map();
        let ghost k0 = key@;
        proof {
            assert(!old(self).as_map().remove(key@).dom().contains(k0));
            assert(!self.as_map().dom().contains(k0));
            assert(!self.has(k0));
        }
        let mut entries: Vec<(String, H)> = Vec::new();
        std::mem::swap(&mut entries, &mut self.entries);
        entries.push((key, handle));
        proof {
            assert forall|a: int, b: int|
                0 <= a < b < entries@.len() implies #[trigger] entries@[a].0@
                != #[trigger] entries@[b].0@ by {
                if b == before.len() {
                    assert(entries@[a] == before[a]);
                }
            }
        }
        self.entries = entries;
        proof {
            use_type_invariant(&*self);
            let after = self.entries@;
            let n = before.len() as int;
            assert(after[n].0@ == k0);
            self.lemma_entry(n);
            assert forall|k: Seq<char>|
                #![trigger self.as_map().dom().contains(k)]
                self.as_map().dom().contains(k) == mid_view.insert(k0, handle).dom().contains(k)
                    && (self.as_map().dom().contains(k) ==> self.as_map()[k] == mid_view.insert(
                    k0,
                    handle,
                )[k]) by {
                if k != k0 {
                    if self.has(k) {
                        let p = self.position_of(k);
                        assert(p < n);
                        assert(after[p] == before[p]);
                        self.lemma_entry(p);
                        assert(mid_view.dom().contains(k));
                        let q = choose|i: int| 0 <= i < before.len() && #[trigger] before[i].0@ == k;
                        assert(q == p) by {
                            if q < p {
                                assert(after[q].0@ != after[p].0@);
                            } else if q > p {
                                assert(after[p].0@ != after[q].0@);
                            }
                        }
                    }
                    if mid_view.dom().contains(k) {
                        let q = choose|i: int| 0 <= i < before.len() && #[trigger] before[i].0@ == k;
                        assert(after[q] == before[q]);
                        assert(self.has(k));
                    }
                }
            }
            assert(self.as_map() =~= mid_view.insert(k0, handle));
            assert(mid_view.insert(k0, handle) =~= old(self).as_map().insert(k0, handle));
        }
        previous
    }
}

/// Terminates the session of `device`: takes its process out of the store and
/// hands it back so that the caller can stop it.
pub fn terminate_ssh_session<H>(sessions: &mut DeviceMap<H>, device: &str) -> (res: Option<H>)
    ensures
        final(sessions).as_map() == old(sessions).as_map().remove(device@),
        old(sessions).as_map().dom().contains(device@) ==> res == Some(old(sessions).as_map()[device@]),
        !old(sessions).as_map().dom().contains(device@) ==> res is None,
{
    sessions.remove(device)
}

/// The terminal that shows the output of a device's SSH session.
#[derive(Debug, Clone)]
pub struct SshTerminal {
    pub device_name: String,
    pub content: Vec<String>,
}

impl SshTerminal {
    /// A terminal for `device_name` with no output yet.
    pub fn new(device_name: String) -> (res: Self)
        ensures
            res.device_name == device_name,
            res.content@.len() == 0,
    {
        SshTerminal { device_name, content: Vec::new() }
    }
}


/// A change to a per-device store: record a value for a device, or take the
/// device's value out.
pub enum MapChange<H> {
    Insert(Seq<char>, H),
    Remove(Seq<char>),
}

/// The store `m` after the changes `changes`, in order.
pub open spec fn after_changes<H>(m: Map<Seq<char>, H>, changes: Seq<MapChange<H>>) -> Map<
    Seq<char>,
    H,
>
    decreases changes.len(),
{
    if changes.len() == 0 {
        m
    } else {
        let before = after_changes(m, changes.drop_last());
        match changes.last() {
            MapChange::Insert(k, h) => before.insert(k, h),
            MapChange::Remove(k) => before.remove(k),
        }
    }
}

/// Once a device's session is terminated, the store has no process for it
/// until one is recorded for it again, whatever else changes meanwhile.
pub proof fn lemma_terminated_stays_gone<H>(
    m: Map<Seq<char>, H>,
    device: Seq<char>,
    changes: Seq<MapChange<H>>,
)
    requires
        forall|i: int|
            0 <= i < changes.len() ==> !(#[trigger] changes[i] matches MapChange::Insert(k, _)
                && k == device),
    ensures
        !after_changes(m.remove(device), changes).dom().contains(device),
    decreases changes.len(),
{
    if changes.len() > 0 {
        lemma_terminated_stays_gone(m, device, changes.drop_last());
        assert(!(changes[changes.len() - 1] matches MapChange::Insert(k, _) && k == device));
    }
}

} // verus!
