//! The host registry: host configurations, latest probe results, and the
//! dirty flag that tells a consumer when a new snapshot is worth taking.

use vstd::prelude::*;

use crate::host::{contains_name, host_names, host_views, HostConfig, HostView};
use crate::port::{Port, PortStatus};
use crate::snapshot::{Snapshot, SnapshotView};
use crate::table::{filtered, lookup, LivenessTable, StatusTable};

verus! {

/// The mathematical value of the registry.
pub struct ManagerView {
    pub hosts: Seq<HostView>,
    pub liveness: Map<Seq<char>, PortStatus>,
    pub status: Map<(Seq<char>, Port), PortStatus>,
    pub dirty: bool,
}

/// The registry after a port-status write: the value is stored, and the
/// state turns dirty unless that exact value was already stored.
pub open spec fn with_port_status(
    m: ManagerView,
    k: (Seq<char>, Port),
    v: PortStatus,
) -> ManagerView {
    ManagerView {
        status: m.status.insert(k, v),
        dirty: m.dirty || lookup(m.status, k) != Some(v),
        ..m
    }
}

/// The registry after a liveness write, with the same dirty rule.
pub open spec fn with_liveness(m: ManagerView, n: Seq<char>, v: PortStatus) -> ManagerView {
    ManagerView {
        liveness: m.liveness.insert(n, v),
        dirty: m.dirty || lookup(m.liveness, n) != Some(v),
        ..m
    }
}

/// Results whose host name no longer occurs in the host list are dropped.
pub open spec fn without_orphans(m: ManagerView) -> ManagerView {
    ManagerView {
        liveness: filtered(m.liveness, |n: Seq<char>| host_names(m.hosts).contains(n)),
        status: filtered(m.status, |k: (Seq<char>, Port)| host_names(m.hosts).contains(k.0)),
        ..m
    }
}

/// The registry once a snapshot has been taken: only the dirty flag changes.
pub open spec fn captured(m: ManagerView) -> ManagerView {
    ManagerView { dirty: false, ..m }
}

/// What a snapshot of the registry holds.
pub open spec fn snapshot_of(m: ManagerView) -> SnapshotView {
    SnapshotView { configs: m.hosts, liveness: m.liveness, status: m.status }
}

/// A change to the host list, as the host-management dialogs make them.
#[derive(Debug)]
pub enum HostEdit {
    Add(HostConfig),
    Update(usize, HostConfig),
    Remove(usize),
    Clear,
}

impl Clone for HostEdit {
    fn clone(&self) -> (r: Self)
        ensures
            r == *self,
    {
        match self {
            HostEdit::Add(h) => HostEdit::Add(h.clone()),
            HostEdit::Update(i, h) => HostEdit::Update(*i, h.clone()),
            HostEdit::Remove(i) => HostEdit::Remove(*i),
            HostEdit::Clear => HostEdit::Clear,
        }
    }
}

/// Whether `e` may be applied to `m`: an index it names must be in range.
pub open spec fn edit_allowed(m: ManagerView, e: HostEdit) -> bool {
    match e {
        HostEdit::Update(i, _) => i < m.hosts.len(),
        HostEdit::Remove(i) => i < m.hosts.len(),
        _ => true,
    }
}

/// The registry after one edit.
pub open spec fn edited(m: ManagerView, e: HostEdit) -> ManagerView {
    match e {
        HostEdit::Add(h) => ManagerView { hosts: m.hosts.push(h@), dirty: true, ..m },
        HostEdit::Update(i, h) => ManagerView {
            hosts: m.hosts.update(i as int, h@),
            dirty: true,
            ..m
        },
        HostEdit::Remove(i) => without_orphans(
            ManagerView { hosts: m.hosts.remove(i as int), dirty: true, ..m },
        ),
        HostEdit::Clear => ManagerView {
            hosts: Seq::empty(),
            liveness: Map::empty(),
            status: Map::empty(),
            dirty: true,
        },
    }
}

/// The registry after the edits, applied in order.
pub open spec fn replayed(m: ManagerView, edits: Seq<HostEdit>) -> ManagerView
    decreases edits.len(),
{
    if edits.len() == 0 {
        m
    } else {
        edited(replayed(m, edits.drop_last()), edits.last())
    }
}

/// Whether each edit is allowed on the registry that the earlier ones leave.
pub open spec fn replay_allowed(m: ManagerView, edits: Seq<HostEdit>) -> bool
    decreases edits.len(),
{
    edits.len() == 0 || (replay_allowed(m, edits.drop_last()) && edit_allowed(
        replayed(m, edits.drop_last()),
        edits.last(),
    ))
}

proof fn lemma_replay_allowed_prefix(m: ManagerView, edits: Seq<HostEdit>, k: int)
    requires
        replay_allowed(m, edits),
        0 <= k <= edits.len(),
    ensures
        replay_allowed(m, edits.take(k)),
    decreases edits.len(),
{
    if k == edits.len() {
        assert(edits.take(k) =~= edits);
    } else {
        lemma_replay_allowed_prefix(m, edits.drop_last(), k);
        assert(edits.drop_last().take(k) =~= edits.take(k));
    }
}

/// A repeated port-status write is idempotent: writing the value that is
/// already stored changes nothing, so of two equal writes only the first can
/// turn the registry dirty, while a later write of a different value turns
/// it dirty again.
pub proof fn lemma_port_status_dirty(
    m: ManagerView,
    k: (Seq<char>, Port),
    v: PortStatus,
    w: PortStatus,
)
    requires
        v != w,
    ensures
        lookup(m.status, k) != Some(v) ==> with_port_status(m, k, v).dirty,
        with_port_status(with_port_status(m, k, v), k, v) == with_port_status(m, k, v),
        !with_port_status(captured(with_port_status(m, k, v)), k, v).dirty,
        with_port_status(captured(with_port_status(m, k, v)), k, w).dirty,
{
    let m1 = with_port_status(m, k, v);
    assert(m1.status.insert(k, v) =~= m1.status);
    assert(lookup(m1.status, k) == Some(v));
}

/// The liveness counterpart of `lemma_port_status_dirty`.
pub proof fn lemma_liveness_dirty(m: ManagerView, n: Seq<char>, v: PortStatus, w: PortStatus)
    requires
        v != w,
    ensures
        lookup(m.liveness, n) != Some(v) ==> with_liveness(m, n, v).dirty,
        with_liveness(with_liveness(m, n, v), n, v) == with_liveness(m, n, v),
        !with_liveness(captured(with_liveness(m, n, v)), n, v).dirty,
        with_liveness(captured(with_liveness(m, n, v)), n, w).dirty,
{
    let m1 = with_liveness(m, n, v);
    assert(m1.liveness.insert(n, v) =~= m1.liveness);
    assert(lookup(m1.liveness, n) == Some(v));
}

/// Taking a snapshot always leaves the registry clean, and a second one taken
/// right after finds it clean, changes nothing and holds the same contents.
pub proof fn lemma_capture_clears(m: ManagerView)
    ensures
        !captured(m).dirty,
        captured(captured(m)) == captured(m),
        snapshot_of(captured(m)) == snapshot_of(m),
{
}

/// The registry of monitored hosts and their latest probe results.
pub struct Manager {
    pub hosts: Vec<HostConfig>,
    liveness: LivenessTable,
    status: StatusTable,
    updated: bool,
}

impl View for Manager {
    type V = ManagerView;

    closed spec fn view(&self) -> ManagerView {
        ManagerView {
            hosts: host_views(self.hosts@),
            liveness: self.liveness@,
            status: self.status@,
            dirty: self.updated,
        }
    }
}

impl Manager {
    /// The result tables are well formed.
    pub closed spec fn wf(&self) -> bool {
        self.liveness.wf() && self.status.wf()
    }

    /// An empty, clean registry.
    pub fn new() -> (r: Self)
        ensures
            r.wf(),
            r@ == (ManagerView {
                hosts: Seq::empty(),
                liveness: Map::empty(),
                status: Map::empty(),
                dirty: false,
            }),
    {
        let r = Manager {
            hosts: Vec::new(),
            liveness: LivenessTable::new(),
            status: StatusTable::new(),
            updated: false,
        };
        assert(host_views(r.hosts@) =~= Seq::empty());
        r
    }

    /// A registry that starts from a stored host list, with no results yet;
    /// it is dirty so that the first snapshot is taken at once.
    pub fn with_config(hosts: Vec<HostConfig>) -> (r: Self)
        ensures
            r.wf(),
            r@ == (ManagerView {
                hosts: host_views(hosts@),
                liveness: Map::empty(),
                status: Map::empty(),
                dirty: true,
            }),
    {
        Manager {
            hosts,
            liveness: LivenessTable::new(),
            status: StatusTable::new(),
            updated: true,
        }
    }

    /// The registered hosts, in insertion order.
    pub fn hosts(&self) -> (r: &Vec<HostConfig>)
        ensures
            host_views(r@) == self@.hosts,
    {
        &self.hosts
    }

    /// Whether anything changed since the last snapshot.
    pub fn updated(&self) -> (r: bool)
        ensures
            r == self@.dirty,
    {
        self.updated
    }

    /// Whether a host called `name` is registered.
    pub fn contains_host(&self, name: &str) -> (r: bool)
        ensures
            r == host_names(self@.hosts).contains(name@),
    {
        let key = name.to_string();
        contains_name(&self.hosts, &key)
    }

    /// Appends `host`; the registry does not check that its name is new.
    pub fn add_host(&mut self, host: HostConfig)
        requires
            old(self).wf(),
        ensures
            final(self).wf(),
            final(self)@ == (ManagerView {
                hosts: old(self)@.hosts.push(host@),
                dirty: true,
                ..old(self)@
            }),
    {
        self.hosts.push(host);
        self.updated = true;
        assert(host_views(self.hosts@) =~= old(self)@.hosts.push(host@));
    }

    /// Appends `host` when no registered host has its name; the result tells
    /// whether it was added.
    pub fn add_new_host(&mut self, host: HostConfig) -> (added: bool)
        requires
            old(self).wf(),
        ensures
            final(self).wf(),
            added == !host_names(old(self)@.hosts).contains(host.name@),
            final(self)@ == (if added {
                edited(old(self)@, HostEdit::Add(host))
            } else {
                old(self)@
            }),
    {
        if contains_name(&self.hosts, &host.name) {
            false
        } else {
            self.add_host(host);
            true
        }
    }

    /// Replaces the host at `index` when some registered host has the new
    /// configuration's name; the result tells whether it was replaced.
    pub fn update_known_host(&mut self, index: usize, host: HostConfig) -> (updated: bool)
        requires
            old(self).wf(),
            index < old(self)@.hosts.len(),
        ensures
            final(self).wf(),
            updated == host_names(old(self)@.hosts).contains(host.name@),
            final(self)@ == (if updated {
                edited(old(self)@, HostEdit::Update(index, host))
            } else {
                old(self)@
            }),
    {
        if contains_name(&self.hosts, &host.name) {
            self.update_host(index, host);
            true
        } else {
            false
        }
    }

    /// The host at `index` in insertion order, if there is one.
    pub fn get_host(&self, index: usize) -> (r: Option<&HostConfig>)
        ensures
            r is Some <==> index < self@.hosts.len(),
            r is Some ==> r->0@ == self@.hosts[index as int],
    {
        if index < self.hosts.len() {
            Some(&self.hosts[index])
        } else {
            None
        }
    }

    /// Replaces the host at `index`.
    pub fn update_host(&mut self, index: usize, host: HostConfig)
        requires
            old(self).wf(),
            index < old(self)@.hosts.len(),
        ensures
            final(self).wf(),
            final(self)@ == (ManagerView {
                hosts: old(self)@.hosts.update(index as int, host@),
                dirty: true,
                ..old(self)@
            }),
    {
        let ghost v = host@;
        self.hosts.set(index, host);
        self.updated = true;
        assert(host_views(self.hosts@) =~= old(self)@.hosts.update(index as int, v));
    }

    /// Removes the host at `index`, with the results of any name that is no
    /// longer registered.
    pub fn remove_host(&mut self, index: usize)
        requires
            old(self).wf(),
            index < old(self)@.hosts.len(),
        ensures
            final(self).wf(),
            final(self)@ == without_orphans(
                ManagerView {
                    hosts: old(self)@.hosts.remove(index as int),
                    dirty: true,
                    ..old(self)@
                },
            ),
    {
        self.hosts.remove(index);
        assert(host_views(self.hosts@) =~= old(self)@.hosts.remove(index as int));
        self.liveness.retain_hosts(&self.hosts);
        self.status.retain_hosts(&self.hosts);
        self.updated = true;
    }

    /// Removes every host and every result.
    pub fn clear_host(&mut self)
        requires
            old(self).wf(),
        ensures
            final(self).wf(),
            final(self)@ == (ManagerView {
                hosts: Seq::empty(),
                liveness: Map::empty(),
                status: Map::empty(),
                dirty: true,
            }),
    {
        self.hosts.clear();
        self.liveness.clear();
        self.status.clear();
        self.updated = true;
        assert(host_views(self.hosts@) =~= Seq::empty());
    }

    /// Records the status of `port` on host `name`; the registry turns dirty
    /// only when the stored value changes.
    pub fn update(&mut self, name: String, port: Port, status: PortStatus)
        requires
            old(self).wf(),
        ensures
            final(self).wf(),
            final(self)@ == with_port_status(old(self)@, (name@, port), status),
    {
        if self.status.insert(name, port, status) {
            self.updated = true;
        }
    }

    /// Records the liveness of host `name`; the registry turns dirty only
    /// when the stored value changes.
    pub fn update_liveness(&mut self, name: String, status: PortStatus)
        requires
            old(self).wf(),
        ensures
            final(self).wf(),
            final(self)@ == with_liveness(old(self)@, name@, status),
    {
        if self.liveness.insert(name, status) {
            self.updated = true;
        }
    }

    /// Copies hosts and results into a snapshot and clears the dirty flag.
    pub fn capture(&mut self) -> (s: Snapshot)
        requires
            old(self).wf(),
        ensures
            final(self).wf(),
            final(self)@ == captured(old(self)@),
            s.wf(),
            s@ == snapshot_of(old(self)@),
    {
        let configs = self.hosts.clone();
        assert(configs@ =~= self.hosts@);
        let liveness = self.liveness.clone();
        let status = self.status.clone();
        self.updated = false;
        Snapshot::new(configs, liveness, status)
    }

    /// Applies one edit to the host list.
    pub fn apply(&mut self, edit: HostEdit)
        requires
            old(self).wf(),
            edit_allowed(old(self)@, edit),
        ensures
            final(self).wf(),
            final(self)@ == edited(old(self)@, edit),
    {
        match edit {
            HostEdit::Add(h) => self.add_host(h),
            HostEdit::Update(i, h) => self.update_host(i, h),
            HostEdit::Remove(i) => self.remove_host(i),
            HostEdit::Clear => self.clear_host(),
        }
    }

    /// Applies the edits in order: the host list that results is exactly
    /// their net effect, in insertion order.
    pub fn apply_all(&mut self, edits: &Vec<HostEdit>)
        requires
            old(self).wf(),
            replay_allowed(old(self)@, edits@),
        ensures
            final(self).wf(),
            final(self)@ == replayed(old(self)@, edits@),
    {
        let ghost start = self@;
        let mut i: usize = 0;
        assert(edits@.take(0) =~= Seq::<HostEdit>::empty());
        while i < edits.len()
            invariant
                0 <= i <= edits@.len(),
                self.wf(),
                start == old(self)@,
                replay_allowed(start, edits@),
                self@ == replayed(start, edits@.take(i as int)),
            decreases edits@.len() - i,
        {
            proof {
                lemma_replay_allowed_prefix(start, edits@, i + 1);
                assert(edits@.take(i + 1).drop_last() =~= edits@.take(i as int));
            }
            let e = edits[i].clone();
            self.apply(e);
            i += 1;
        }
        assert(edits@.take(i as int) =~= edits@);
    }

    /// Takes a snapshot when, and only when, the registry is dirty. Checking
    /// the flag and clearing it happen in one call, so no change made in
    /// between can be missed.
    pub fn capture_if_dirty(&mut self) -> (r: Option<Snapshot>)
        requires
            old(self).wf(),
        ensures
            final(self).wf(),
            r is Some <==> old(self)@.dirty,
            final(self)@ == captured(old(self)@),
            r matches Some(s) ==> s.wf() && s@ == snapshot_of(old(self)@),
    {
        if self.updated {
            Some(self.capture())
        } else {
            None
        }
    }
}

} // verus!
