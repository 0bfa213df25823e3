//! Decisions of the probe loops. The loops themselves, the network probes
//! and the sleeping between rounds belong to the caller.

use vstd::prelude::*;

use crate::host::{host_views, HostConfig, HostView};
use crate::port::{Port, PortStatus};

verus! {

/// How long one TCP connect or ICMP echo may take, in seconds.
pub const PROBE_TIMEOUT_SECS: u64 = 1;

/// The pause between two probe rounds, in seconds.
pub const ROUND_INTERVAL_SECS: u64 = 10;

/// The payload size of an ICMP echo request, in bytes.
pub const ECHO_PAYLOAD_LEN: usize = 56;

/// The (host name, port) pairs to probe for one host: its enabled ports, in
/// port order.
pub open spec fn host_targets(h: HostView) -> Seq<(Seq<char>, Port)> {
    h.ports.spec_enabled().map_values(|p: Port| (h.name, p))
}

/// The pairs to probe in one round: those of each host, in host-list order.
pub open spec fn round_targets(hosts: Seq<HostView>) -> Seq<(Seq<char>, Port)>
    decreases hosts.len(),
{
    if hosts.len() == 0 {
        Seq::empty()
    } else {
        round_targets(hosts.drop_last()) + host_targets(hosts.last())
    }
}

/// The pairs of a list of targets as values.
pub open spec fn target_views(t: Seq<(String, Port)>) -> Seq<(Seq<char>, Port)> {
    t.map_values(|x: (String, Port)| (x.0@, x.1))
}

/// The TCP probes of one round of the port-check loop.
pub fn port_targets(hosts: &Vec<HostConfig>) -> (r: Vec<(String, Port)>)
    ensures
        target_views(r@) == round_targets(host_views(hosts@)),
{
    let ghost hv = host_views(hosts@);
    let mut r: Vec<(String, Port)> = Vec::new();
    let mut i: usize = 0;
    while i < hosts.len()
        invariant
            0 <= i <= hosts@.len(),
            hv == host_views(hosts@),
            target_views(r@) == round_targets(hv.take(i as int)),
        decreases hosts@.len() - i,
    {
        let h = &hosts[i];
        let ports = h.ports.enabled();
        let ghost before = r@;
        let mut j: usize = 0;
        while j < ports.len()
            invariant
                0 <= j <= ports@.len(),
                ports@ == h.ports.spec_enabled(),
                r@.len() == before.len() + j,
                target_views(r@) == target_views(before) + host_targets(h@).take(j as int),
            decreases ports@.len() - j,
        {
            let ghost prev = r@;
            r.push((h.name.clone(), ports[j]));
            assert(r@ == prev.push(r@[prev.len() as int]));
            assert(host_targets(h@)[j as int] == (h@.name, ports@[j as int]));
            assert(target_views(r@) =~= target_views(prev).push((h@.name, ports@[j as int])));
            assert(target_views(r@) =~= target_views(before) + host_targets(h@).take(j + 1));
            j += 1;
        }
        proof {
            assert(host_targets(h@).take(j as int) =~= host_targets(h@));
            assert(hv.take(i + 1).drop_last() =~= hv.take(i as int));
            assert(hv.take(i + 1).last() == h@);
        }
        i += 1;
    }
    assert(hv.take(i as int) =~= hv);
    r
}

/// The status that one probe reports: `Error` when the target's address
/// could not be resolved, else `On` when it answered in time and `Off` when
/// it did not.
pub fn probe_status(resolved: bool, answered: bool) -> (r: PortStatus)
    ensures
        r == (if !resolved {
            PortStatus::Error
        } else if answered {
            PortStatus::On
        } else {
            PortStatus::Off
        }),
{
    if !resolved {
        PortStatus::Error
    } else if answered {
        PortStatus::On
    } else {
        PortStatus::Off
    }
}

} // verus!
