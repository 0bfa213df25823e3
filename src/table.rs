//! Latest probe results, keyed by host name (liveness) or by host name and
//! port (port status). Each table keeps one entry per key.

use vstd::prelude::*;

use crate::host::{contains_name, host_names, host_views, HostConfig};
use crate::port::{Port, PortStatus};

verus! {

/// The map that an association list denotes: a later entry overrides an
/// earlier one with the same key.
pub open spec fn to_map<K, V>(s: Seq<(K, V)>) -> Map<K, V>
    decreases s.len(),
{
    if s.len() == 0 {
        Map::empty()
    } else {
        to_map(s.drop_last()).insert(s.last().0, s.last().1)
    }
}

/// No two entries share a key.
pub open spec fn unique_keys<K, V>(s: Seq<(K, V)>) -> bool {
    forall|i: int, j: int|
        0 <= i < s.len() && 0 <= j < s.len() && i != j ==> #[trigger] s[i].0 != #[trigger] s[j].0
}

/// The value stored under `k`, if any.
pub open spec fn lookup<K, V>(m: Map<K, V>, k: K) -> Option<V> {
    if m.contains_key(k) {
        Some(m[k])
    } else {
        None
    }
}

/// The entries of `m` whose key satisfies `keep`.
pub open spec fn filtered<K, V>(m: Map<K, V>, keep: spec_fn(K) -> bool) -> Map<K, V> {
    Map::new(|k: K| m.contains_key(k) && keep(k), |k: K| m[k])
}

proof fn lemma_to_map_dom<K, V>(s: Seq<(K, V)>, k: K)
    ensures
        to_map(s).contains_key(k) <==> exists|i: int| 0 <= i < s.len() && s[i].0 == k,
    decreases s.len(),
{
    if s.len() > 0 {
        let t = s.drop_last();
        lemma_to_map_dom(t, k);
        if to_map(s).contains_key(k) {
            if k == s.last().0 {
                assert(s[s.len() - 1].0 == k);
            } else {
                let i = choose|i: int| 0 <= i < t.len() && t[i].0 == k;
                assert(s[i].0 == k);
            }
        }
        if exists|i: int| 0 <= i < s.len() && s[i].0 == k {
            let i = choose|i: int| 0 <= i < s.len() && s[i].0 == k;
            if i < s.len() - 1 {
                assert(t[i].0 == k);
            }
        }
    }
}

proof fn lemma_to_map_at<K, V>(s: Seq<(K, V)>, i: int)
    requires
        unique_keys(s),
        0 <= i < s.len(),
    ensures
        to_map(s).contains_key(s[i].0),
        to_map(s)[s[i].0] == s[i].1,
    decreases s.len(),
{
    let t = s.drop_last();
    if i < s.len() - 1 {
        assert(unique_keys(t)) by {
            assert forall|a: int, b: int|
                0 <= a < t.len() && 0 <= b < t.len() && a != b implies #[trigger] t[a].0
                != #[trigger] t[b].0 by {
                assert(t[a] == s[a] && t[b] == s[b]);
            }
        }
        lemma_to_map_at(t, i);
        assert(t[i] == s[i]);
        assert(s[s.len() - 1].0 != s[i].0);
    }
}

proof fn lemma_to_map_push<K, V>(s: Seq<(K, V)>, e: (K, V))
    requires
        unique_keys(s),
        !to_map(s).contains_key(e.0),
    ensures
        to_map(s.push(e)) == to_map(s).insert(e.0, e.1),
        unique_keys(s.push(e)),
{
    assert(s.push(e).drop_last() =~= s);
    assert forall|a: int, b: int|
        0 <= a < s.push(e).len() && 0 <= b < s.push(e).len() && a != b implies #[trigger] s.push(
        e,
    )[a].0 != #[trigger] s.push(e)[b].0 by {
        if a == s.len() {
            lemma_to_map_dom(s, e.0);
            assert(s.push(e)[b] == s[b]);
        } else if b == s.len() {
            lemma_to_map_dom(s, e.0);
            assert(s.push(e)[a] == s[a]);
        } else {
            assert(s.push(e)[a] == s[a] && s.push(e)[b] == s[b]);
        }
    }
}

proof fn lemma_to_map_update<K, V>(s: Seq<(K, V)>, i: int, v: V)
    requires
        unique_keys(s),
        0 <= i < s.len(),
    ensures
        to_map(s.update(i, (s[i].0, v))) == to_map(s).insert(s[i].0, v),
        unique_keys(s.update(i, (s[i].0, v))),
{
    let u = s.update(i, (s[i].0, v));
    assert(unique_keys(u)) by {
        assert forall|a: int, b: int|
            0 <= a < u.len() && 0 <= b < u.len() && a != b implies #[trigger] u[a].0
            != #[trigger] u[b].0 by {
            assert(u[a].0 == s[a].0 && u[b].0 == s[b].0);
        }
    }
    let m = to_map(s).insert(s[i].0, v);
    assert forall|k: K| #[trigger] to_map(u).contains_key(k) <==> m.contains_key(k) by {
        lemma_to_map_dom(s, k);
        lemma_to_map_dom(u, k);
        if exists|j: int| 0 <= j < s.len() && s[j].0 == k {
            let j = choose|j: int| 0 <= j < s.len() && s[j].0 == k;
            assert(u[j].0 == k);
        }
        if exists|j: int| 0 <= j < u.len() && u[j].0 == k {
            let j = choose|j: int| 0 <= j < u.len() && u[j].0 == k;
            assert(s[j].0 == k);
        }
        lemma_to_map_at(s, i);
    }
    assert forall|k: K| #[trigger] to_map(u).contains_key(k) implies to_map(u)[k] == m[k] by {
        lemma_to_map_dom(u, k);
        let j = choose|j: int| 0 <= j < u.len() && u[j].0 == k;
        lemma_to_map_at(u, j);
        if j != i {
            lemma_to_map_at(s, j);
            assert(u[j] == s[j]);
        }
    }
    assert(to_map(u) =~= m);
}

/// One more entry of a prefix adds that entry to the prefix's map.
proof fn lemma_to_map_take<K, V>(s: Seq<(K, V)>, i: int)
    requires
        0 <= i < s.len(),
    ensures
        to_map(s.take(i + 1)) == to_map(s.take(i)).insert(s[i].0, s[i].1),
{
    assert(s.take(i + 1).drop_last() =~= s.take(i));
}

/// Where no key repeats, the key of entry `i` is not a key of the entries
/// before it.
proof fn lemma_fresh_key<K, V>(s: Seq<(K, V)>, i: int)
    requires
        unique_keys(s),
        0 <= i < s.len(),
    ensures
        !to_map(s.take(i)).contains_key(s[i].0),
{
    lemma_to_map_dom(s.take(i), s[i].0);
    if exists|j: int| 0 <= j < s.take(i).len() && s.take(i)[j].0 == s[i].0 {
        let j = choose|j: int| 0 <= j < s.take(i).len() && s.take(i)[j].0 == s[i].0;
        assert(s[j].0 == s[i].0);
    }
}

/// The keys of liveness entries as values.
pub open spec fn liveness_seq(e: Seq<(String, PortStatus)>) -> Seq<(Seq<char>, PortStatus)> {
    e.map_values(|x: (String, PortStatus)| (x.0@, x.1))
}

/// The liveness of each host, keyed by host name.
pub struct LivenessTable {
    entries: Vec<(String, PortStatus)>,
}

impl View for LivenessTable {
    type V = Map<Seq<char>, PortStatus>;

    closed spec fn view(&self) -> Map<Seq<char>, PortStatus> {
        to_map(liveness_seq(self.entries@))
    }
}

impl LivenessTable {
    /// No name has two entries.
    pub closed spec fn wf(&self) -> bool {
        unique_keys(liveness_seq(self.entries@))
    }

    /// An empty table.
    pub fn new() -> (r: Self)
        ensures
            r.wf(),
            r@ == Map::<Seq<char>, PortStatus>::empty(),
    {
        let r = LivenessTable { entries: Vec::new() };
        assert(liveness_seq(r.entries@) =~= Seq::empty());
        r
    }

    /// Index of the entry for `name`, if there is one.
    fn find(&self, name: &String) -> (r: Option<usize>)
        requires
            self.wf(),
        ensures
            match r {
                Some(i) => i < self.entries@.len() && self.entries@[i as int].0@ == name@,
                None => !self@.contains_key(name@),
            },
    {
        let mut i: usize = 0;
        while i < self.entries.len()
            invariant
                0 <= i <= self.entries@.len(),
                forall|j: int| 0 <= j < i ==> self.entries@[j].0@ != name@,
            decreases self.entries@.len() - i,
        {
            if self.entries[i].0 == *name {
                return Some(i);
            }
            i += 1;
        }
        proof {
            let s = liveness_seq(self.entries@);
            lemma_to_map_dom(s, name@);
            if exists|j: int| 0 <= j < s.len() && s[j].0 == name@ {
                let j = choose|j: int| 0 <= j < s.len() && s[j].0 == name@;
                assert(self.entries@[j].0@ == name@);
            }
        }
        None
    }

    /// The liveness recorded for `name`, if any.
    pub fn get(&self, name: &String) -> (r: Option<PortStatus>)
        requires
            self.wf(),
        ensures
            r == lookup(self@, name@),
    {
        match self.find(name) {
            Some(i) => {
                proof {
                    lemma_to_map_at(liveness_seq(self.entries@), i as int);
                }
                Some(self.entries[i].1)
            },
            None => None,
        }
    }

    /// Stores `status` for `name`; the result tells whether the stored
    /// value changed (it was absent or different).
    pub fn insert(&mut self, name: String, status: PortStatus) -> (changed: bool)
        requires
            old(self).wf(),
        ensures
            final(self).wf(),
            final(self)@ == old(self)@.insert(name@, status),
            changed == (lookup(old(self)@, name@) != Some(status)),
    {
        match self.find(&name) {
            Some(i) => {
                let ghost s = liveness_seq(self.entries@);
                proof {
                    lemma_to_map_at(s, i as int);
                    lemma_to_map_update(s, i as int, status);
                }
                if self.entries[i].1 != status {
                    self.entries.set(i, (name, status));
                    assert(liveness_seq(self.entries@) =~= s.update(i as int, (s[i as int].0, status)));
                    true
                } else {
                    assert(old(self)@.insert(name@, status) =~= old(self)@);
                    false
                }
            },
            None => {
                let ghost s = liveness_seq(self.entries@);
                let ghost key = name@;
                self.entries.push((name, status));
                proof {
                    lemma_to_map_push(s, (key, status));
                    assert(liveness_seq(self.entries@) =~= s.push((key, status)));
                }
                true
            },
        }
    }

    /// Drops every entry whose host name is not among `hosts`.
    pub fn retain_hosts(&mut self, hosts: &Vec<HostConfig>)
        requires
            old(self).wf(),
        ensures
            final(self).wf(),
            final(self)@ == filtered(
                old(self)@,
                |n: Seq<char>| host_names(host_views(hosts@)).contains(n),
            ),
    {
        let ghost names = host_names(host_views(hosts@));
        let ghost keep = |n: Seq<char>| names.contains(n);
        let ghost s = liveness_seq(self.entries@);
        let mut kept: Vec<(String, PortStatus)> = Vec::new();
        let mut i: usize = 0;
        while i < self.entries.len()
            invariant
                0 <= i <= self.entries@.len(),
                s == liveness_seq(self.entries@),
                names == host_names(host_views(hosts@)),
                keep == (|n: Seq<char>| names.contains(n)),
                unique_keys(s),
                unique_keys(liveness_seq(kept@)),
                to_map(liveness_seq(kept@)) == filtered(to_map(s.take(i as int)), keep),
            decreases self.entries@.len() - i,
        {
            proof {
                lemma_to_map_take(s, i as int);
                lemma_fresh_key(s, i as int);
                assert(s[i as int] == (self.entries@[i as int].0@, self.entries@[i as int].1));
            }
            if contains_name(hosts, &self.entries[i].0) {
                let ghost k = kept@;
                let e = (self.entries[i].0.clone(), self.entries[i].1);
                kept.push(e);
                proof {
                    assert(keep(s[i as int].0));
                    assert(kept@ == k.push(e));
                    assert(liveness_seq(kept@) =~= liveness_seq(k).push(s[i as int]));
                    assert(!to_map(liveness_seq(k)).contains_key(s[i as int].0));
                    lemma_to_map_push(liveness_seq(k), s[i as int]);
                    assert(liveness_seq(kept@) =~= liveness_seq(k).push(s[i as int]));
                    assert(to_map(liveness_seq(kept@)) =~= filtered(to_map(s.take(i + 1)), keep));
                }
            } else {
                assert(!keep(s[i as int].0));
                assert(to_map(liveness_seq(kept@)) =~= filtered(to_map(s.take(i + 1)), keep));
            }
            i += 1;
        }
        assert(s.take(i as int) =~= s);
        self.entries = kept;
    }

    /// Drops every entry.
    pub fn clear(&mut self)
        ensures
            final(self).wf(),
            final(self)@ == Map::<Seq<char>, PortStatus>::empty(),
    {
        self.entries = Vec::new();
        assert(liveness_seq(self.entries@) =~= Seq::empty());
    }
}

impl Clone for LivenessTable {
    fn clone(&self) -> (r: Self)
        ensures
            self.wf() ==> r.wf(),
            r@ == self@,
    {
        let mut entries: Vec<(String, PortStatus)> = Vec::new();
        let mut i: usize = 0;
        while i < self.entries.len()
            invariant
                0 <= i <= self.entries@.len(),
                entries@.len() == i,
                liveness_seq(entries@) == liveness_seq(self.entries@).take(i as int),
            decreases self.entries@.len() - i,
        {
            let ghost before = entries@;
            let name = self.entries[i].0.clone();
            assert(name@ == self.entries@[i as int].0@);
            entries.push((name, self.entries[i].1));
            assert(entries@ == before.push(entries@[i as int]));
            assert(liveness_seq(entries@)[i as int] == liveness_seq(self.entries@)[i as int]);
            assert(liveness_seq(entries@) =~= liveness_seq(self.entries@).take(i + 1));
            i += 1;
        }
        assert(liveness_seq(self.entries@).take(i as int) =~= liveness_seq(self.entries@));
        LivenessTable { entries }
    }
}

/// The keys of port-status entries as values.
pub open spec fn status_seq(e: Seq<(String, Port, PortStatus)>) -> Seq<((Seq<char>, Port), PortStatus)> {
    e.map_values(|x: (String, Port, PortStatus)| ((x.0@, x.1), x.2))
}

/// The status of each probed port, keyed by host name and port.
pub struct StatusTable {
    entries: Vec<(String, Port, PortStatus)>,
}

impl View for StatusTable {
    type V = Map<(Seq<char>, Port), PortStatus>;

    closed spec fn view(&self) -> Map<(Seq<char>, Port), PortStatus> {
        to_map(status_seq(self.entries@))
    }
}

impl StatusTable {
    /// No host name and port have two entries.
    pub closed spec fn wf(&self) -> bool {
        unique_keys(status_seq(self.entries@))
    }

    /// An empty table.
    pub fn new() -> (r: Self)
        ensures
            r.wf(),
            r@ == Map::<(Seq<char>, Port), PortStatus>::empty(),
    {
        let r = StatusTable { entries: Vec::new() };
        assert(status_seq(r.entries@) =~= Seq::empty());
        r
    }

    /// Index of the entry for `name` and `port`, if there is one.
    fn find(&self, name: &String, port: Port) -> (r: Option<usize>)
        requires
            self.wf(),
        ensures
            match r {
                Some(i) => i < self.entries@.len() && self.entries@[i as int].0@ == name@
                    && self.entries@[i as int].1 == port,
                None => !self@.contains_key((name@, port)),
            },
    {
        let mut i: usize = 0;
        while i < self.entries.len()
            invariant
                0 <= i <= self.entries@.len(),
                forall|j: int|
                    0 <= j < i ==> (self.entries@[j].0@, self.entries@[j].1) != (name@, port),
            decreases self.entries@.len() - i,
        {
            if self.entries[i].1 == port && self.entries[i].0 == *name {
                return Some(i);
            }
            i += 1;
        }
        proof {
            let s = status_seq(self.entries@);
            lemma_to_map_dom(s, (name@, port));
            if exists|j: int| 0 <= j < s.len() && s[j].0 == (name@, port) {
                let j = choose|j: int| 0 <= j < s.len() && s[j].0 == (name@, port);
                assert(s[j] == ((self.entries@[j].0@, self.entries@[j].1), self.entries@[j].2));
            }
        }
        None
    }

    /// The status recorded for `port` of host `name`, if any.
    pub fn get(&self, name: &String, port: Port) -> (r: Option<PortStatus>)
        requires
            self.wf(),
        ensures
            r == lookup(self@, (name@, port)),
    {
        match self.find(name, port) {
            Some(i) => {
                proof {
                    lemma_to_map_at(status_seq(self.entries@), i as int);
                }
                Some(self.entries[i].2)
            },
            None => None,
        }
    }

    /// Stores `status` for `port` of host `name`; the result tells whether
    /// the stored value changed (it was absent or different).
    pub fn insert(&mut self, name: String, port: Port, status: PortStatus) -> (changed: bool)
        requires
            old(self).wf(),
        ensures
            final(self).wf(),
            final(self)@ == old(self)@.insert((name@, port), status),
            changed == (lookup(old(self)@, (name@, port)) != Some(status)),
    {
        match self.find(&name, port) {
            Some(i) => {
                let ghost s = status_seq(self.entries@);
                proof {
                    lemma_to_map_at(s, i as int);
                    lemma_to_map_update(s, i as int, status);
                }
                if self.entries[i].2 != status {
                    self.entries.set(i, (name, port, status));
                    assert(status_seq(self.entries@) =~= s.update(i as int, (s[i as int].0, status)));
                    true
                } else {
                    assert(old(self)@.insert((name@, port), status) =~= old(self)@);
                    false
                }
            },
            None => {
                let ghost s = status_seq(self.entries@);
                let ghost key = (name@, port);
                self.entries.push((name, port, status));
                proof {
                    lemma_to_map_push(s, (key, status));
                    assert(status_seq(self.entries@) =~= s.push((key, status)));
                }
                true
            },
        }
    }

    /// Drops every entry whose host name is not among `hosts`.
    pub fn retain_hosts(&mut self, hosts: &Vec<HostConfig>)
        requires
            old(self).wf(),
        ensures
            final(self).wf(),
            final(self)@ == filtered(
                old(self)@,
                |k: (Seq<char>, Port)| host_names(host_views(hosts@)).contains(k.0),
            ),
    {
        let ghost names = host_names(host_views(hosts@));
        let ghost keep = |k: (Seq<char>, Port)| names.contains(k.0);
        let ghost s = status_seq(self.entries@);
        let mut kept: Vec<(String, Port, PortStatus)> = Vec::new();
        let mut i: usize = 0;
        while i < self.entries.len()
            invariant
                0 <= i <= self.entries@.len(),
                s == status_seq(self.entries@),
                names == host_names(host_views(hosts@)),
                keep == (|k: (Seq<char>, Port)| names.contains(k.0)),
                unique_keys(s),
                unique_keys(status_seq(kept@)),
                to_map(status_seq(kept@)) == filtered(to_map(s.take(i as int)), keep),
            decreases self.entries@.len() - i,
        {
            proof {
                lemma_to_map_take(s, i as int);
                lemma_fresh_key(s, i as int);
                assert(s[i as int] == (
                    (self.entries@[i as int].0@, self.entries@[i as int].1),
                    self.entries@[i as int].2,
                ));
            }
            if contains_name(hosts, &self.entries[i].0) {
                let ghost k = kept@;
                let e = (self.entries[i].0.clone(), self.entries[i].1, self.entries[i].2);
                kept.push(e);
                proof {
                    assert(keep(s[i as int].0));
                    assert(kept@ == k.push(e));
                    assert(status_seq(kept@) =~= status_seq(k).push(s[i as int]));
                    assert(!to_map(status_seq(k)).contains_key(s[i as int].0));
                    lemma_to_map_push(status_seq(k), s[i as int]);
                    assert(status_seq(kept@) =~= status_seq(k).push(s[i as int]));
                    assert(to_map(status_seq(kept@)) =~= filtered(to_map(s.take(i + 1)), keep));
                }
            } else {
                assert(!keep(s[i as int].0));
                assert(to_map(status_seq(kept@)) =~= filtered(to_map(s.take(i + 1)), keep));
            }
            i += 1;
        }
        assert(s.take(i as int) =~= s);
        self.entries = kept;
    }

    /// Drops every entry.
    pub fn clear(&mut self)
        ensures
            final(self).wf(),
            final(self)@ == Map::<(Seq<char>, Port), PortStatus>::empty(),
    {
        self.entries = Vec::new();
        assert(status_seq(self.entries@) =~= Seq::empty());
    }
}

impl Clone for StatusTable {
    fn clone(&self) -> (r: Self)
        ensures
            self.wf() ==> r.wf(),
            r@ == self@,
    {
        let mut entries: Vec<(String, Port, PortStatus)> = Vec::new();
        let mut i: usize = 0;
        while i < self.entries.len()
            invariant
                0 <= i <= self.entries@.len(),
                entries@.len() == i,
                status_seq(entries@) == status_seq(self.entries@).take(i as int),
            decreases self.entries@.len() - i,
        {
            let ghost before = entries@;
            let name = self.entries[i].0.clone();
            assert(name@ == self.entries@[i as int].0@);
            entries.push((name, self.entries[i].1, self.entries[i].2));
            assert(entries@ == before.push(entries@[i as int]));
            assert(status_seq(entries@)[i as int] == status_seq(self.entries@)[i as int]);
            assert(status_seq(entries@) =~= status_seq(self.entries@).take(i + 1));
            i += 1;
        }
        assert(status_seq(self.entries@).take(i as int) =~= status_seq(self.entries@));
        StatusTable { entries }
    }
}

} // verus!
