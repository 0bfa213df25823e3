//! Point-in-time copies of the registry, and the table they are shown as.

use vstd::prelude::*;

use crate::host::{host_views, HostConfig, HostView};
use crate::port::{glyph_text, Port, PortStatus};
use crate::table::{lookup, LivenessTable, StatusTable};

verus! {

/// The mathematical value of a snapshot.
pub struct SnapshotView {
    pub configs: Seq<HostView>,
    pub liveness: Map<Seq<char>, PortStatus>,
    pub status: Map<(Seq<char>, Port), PortStatus>,
}

/// The text of a status cell: its glyph, or "NA" when nothing was probed yet.
pub open spec fn status_text(s: Option<PortStatus>) -> Seq<char> {
    match s {
        Some(v) => glyph_text(v),
        None => seq!['N', 'A'],
    }
}

/// The cell of one configured port: its status when enabled, else empty.
pub open spec fn port_cell(snap: SnapshotView, name: Seq<char>, e: (Port, bool)) -> Seq<char> {
    if e.1 {
        status_text(lookup(snap.status, (name, e.0)))
    } else {
        Seq::empty()
    }
}

/// The displayed row of a host: its name, its liveness, then one cell per
/// configured port in port order.
pub open spec fn host_row(snap: SnapshotView, h: HostView) -> Seq<Seq<char>> {
    seq![h.name, status_text(lookup(snap.liveness, h.name))] + h.ports.spec_entries().map_values(
        |e: (Port, bool)| port_cell(snap, h.name, e),
    )
}

/// The text of each cell of a table of strings.
pub open spec fn table_text(rows: Seq<Vec<String>>) -> Seq<Seq<Seq<char>>> {
    rows.map_values(|r: Vec<String>| r@.map_values(|c: String| c@))
}

fn status_string(s: Option<PortStatus>) -> (r: String)
    ensures
        r@ == status_text(s),
{
    match s {
        Some(v) => v.glyph(),
        None => {
            let r = "NA".to_string();
            proof {
                reveal_strlit("NA");
            }
            assert(r@ =~= seq!['N', 'A']);
            r
        },
    }
}

/// An independent copy of the host list and of the latest probe results.
pub struct Snapshot {
    pub configs: Vec<HostConfig>,
    pub liveness: LivenessTable,
    pub status: StatusTable,
}

impl View for Snapshot {
    type V = SnapshotView;

    open spec fn view(&self) -> SnapshotView {
        SnapshotView {
            configs: host_views(self.configs@),
            liveness: self.liveness@,
            status: self.status@,
        }
    }
}

impl Snapshot {
    /// Both result tables are well formed.
    pub open spec fn wf(&self) -> bool {
        self.liveness.wf() && self.status.wf()
    }

    pub fn new(configs: Vec<HostConfig>, liveness: LivenessTable, status: StatusTable) -> (r:
        Self)
        ensures
            r.configs == configs,
            r.liveness == liveness,
            r.status == status,
    {
        Snapshot { configs, liveness, status }
    }

    /// The displayed row of `h`.
    pub fn host_row(&self, h: &HostConfig) -> (r: Vec<String>)
        requires
            self.wf(),
        ensures
            r@.map_values(|c: String| c@) == host_row(self@, h@),
    {
        let mut row: Vec<String> = Vec::new();
        row.push(h.name.clone());
        row.push(status_string(self.liveness.get(&h.name)));
        let entries = h.ports.entries();
        let ghost spec_row = host_row(self@, h@);
        let mut j: usize = 0;
        while j < entries.len()
            invariant
                0 <= j <= entries@.len(),
                self.wf(),
                entries@ == h.ports.spec_entries(),
                spec_row == host_row(self@, h@),
                row@.len() == j + 2,
                row@.map_values(|c: String| c@) == spec_row.take(j + 2),
            decreases entries@.len() - j,
        {
            let (p, enabled) = entries[j];
            let cell = if enabled {
                status_string(self.status.get(&h.name, p))
            } else {
                String::new()
            };
            row.push(cell);
            assert(row@.map_values(|c: String| c@) =~= spec_row.take(j + 3));
            j += 1;
        }
        assert(spec_row.take(j + 2) =~= spec_row);
        row
    }

    /// The displayed table: one row per host, in host-list order.
    pub fn rows(&self) -> (r: Vec<Vec<String>>)
        requires
            self.wf(),
        ensures
            table_text(r@) == self@.configs.map_values(|h: HostView| host_row(self@, h)),
    {
        let ghost want = self@.configs.map_values(|h: HostView| host_row(self@, h));
        let mut rows: Vec<Vec<String>> = Vec::new();
        let mut i: usize = 0;
        while i < self.configs.len()
            invariant
                0 <= i <= self.configs@.len(),
                self.wf(),
                want == self@.configs.map_values(|h: HostView| host_row(self@, h)),
                rows@.len() == i,
                table_text(rows@) == want.take(i as int),
            decreases self.configs@.len() - i,
        {
            let row = self.host_row(&self.configs[i]);
            rows.push(row);
            assert(table_text(rows@) =~= want.take(i + 1));
            i += 1;
        }
        assert(want.take(i as int) =~= want);
        rows
    }
}

} // verus!
