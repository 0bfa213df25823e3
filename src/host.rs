//! Host configurations.

use vstd::prelude::*;

use crate::port::PortMap;

verus! {

/// The mathematical value of a host configuration.
pub struct HostView {
    pub name: Seq<char>,
    pub ports: PortMap,
}

/// A monitored host: its name (a host name or an IP literal) and its ports.
#[derive(Debug)]
pub struct HostConfig {
    pub name: String,
    pub ports: PortMap,
}

impl View for HostConfig {
    type V = HostView;

    open spec fn view(&self) -> HostView {
        HostView { name: self.name@, ports: self.ports }
    }
}

impl Clone for HostConfig {
    fn clone(&self) -> (r: Self)
        ensures
            r == *self,
    {
        HostConfig { name: self.name.clone(), ports: self.ports }
    }
}

impl HostConfig {
    pub fn new(name: String, ports: PortMap) -> (r: Self)
        ensures
            r.name == name,
            r.ports == ports,
    {
        HostConfig { name, ports }
    }

    /// A host with every port present and enabled.
    pub fn with_all_enable(name: String) -> (r: Self)
        ensures
            r.name == name,
            forall|p| r.ports.spec_get(p) == Some(true),
    {
        Self::new(name, PortMap::all(true))
    }
}

/// The views of a sequence of hosts.
pub open spec fn host_views(hosts: Seq<HostConfig>) -> Seq<HostView> {
    hosts.map_values(|h: HostConfig| h@)
}

/// The names that occur among `hosts`.
pub open spec fn host_names(hosts: Seq<HostView>) -> Set<Seq<char>> {
    Set::new(|n: Seq<char>| exists|i: int| 0 <= i < hosts.len() && hosts[i].name == n)
}

/// Whether some host in `hosts` is called `name`.
pub fn contains_name(hosts: &Vec<HostConfig>, name: &String) -> (r: bool)
    ensures
        r == host_names(host_views(hosts@)).contains(name@),
{
    let mut i: usize = 0;
    while i < hosts.len()
        invariant
            0 <= i <= hosts.len(),
            forall|j: int| 0 <= j < i ==> hosts@[j].name@ != name@,
        decreases hosts.len() - i,
    {
        if hosts[i].name == *name {
            assert(host_views(hosts@)[i as int].name == name@);
            return true;
        }
        i += 1;
    }
    assert(!host_names(host_views(hosts@)).contains(name@)) by {
        if host_names(host_views(hosts@)).contains(name@) {
            let j = choose|j: int| 0 <= j < host_views(hosts@).len() && host_views(hosts@)[j].name == name@;
            assert(hosts@[j].name@ == name@);
        }
    }
    false
}

} // verus!
