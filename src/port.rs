//! Monitored ports, probe outcomes, and the per-host table of enabled ports.

use vstd::prelude::*;

verus! {

/// One of the well-known service ports that a host may be probed on.
#[derive(Clone, Copy, Debug, PartialEq, Eq, Hash, Structural)]
pub enum Port {
    Http,
    Https,
    Ssh,
    Vnc,
    Ipmi,
}

/// The TCP port number of each service.
pub open spec fn port_number(p: Port) -> u16 {
    match p {
        Port::Http => 80,
        Port::Https => 443,
        Port::Ssh => 22,
        Port::Vnc => 5900,
        Port::Ipmi => 623,
    }
}

impl Port {
    /// The TCP port number that this service listens on.
    pub fn u16(&self) -> (r: u16)
        ensures
            r == port_number(*self),
    {
        match self {
            Port::Http => 80,
            Port::Https => 443,
            Port::Ssh => 22,
            Port::Vnc => 5900,
            Port::Ipmi => 623,
        }
    }
}

/// Outcome of one probe: reachable, unreachable, or an address that could
/// not be resolved.
#[derive(Clone, Copy, Debug, PartialEq, Eq, Hash, Structural)]
pub enum PortStatus {
    On,
    Off,
    Error,
}

/// The glyph that a status is displayed with.
pub open spec fn glyph_text(s: PortStatus) -> Seq<char> {
    match s {
        PortStatus::On => seq!['⬤'],
        PortStatus::Off => seq!['◯'],
        PortStatus::Error => seq!['✕'],
    }
}

impl PortStatus {
    /// The glyph for this status: a filled circle, a hollow circle or a cross.
    pub fn glyph(&self) -> (r: String)
        ensures
            r@ == glyph_text(*self),
    {
        let r = match self {
            PortStatus::On => "⬤".to_string(),
            PortStatus::Off => "◯".to_string(),
            PortStatus::Error => "✕".to_string(),
        };
        proof {
            reveal_strlit("⬤");
            reveal_strlit("◯");
            reveal_strlit("✕");
        }
        assert(r@ =~= glyph_text(*self));
        r
    }
}

/// The entries of one slot: the port with its flag, or nothing.
pub open spec fn slot(p: Port, v: Option<bool>) -> Seq<(Port, bool)> {
    match v {
        Some(e) => seq![(p, e)],
        None => Seq::empty(),
    }
}

/// The port of one slot when that port is present and enabled.
pub open spec fn enabled_slot(p: Port, v: Option<bool>) -> Seq<Port> {
    if v == Some(true) {
        seq![p]
    } else {
        Seq::empty()
    }
}

/// Which ports a host is configured with, and whether each is enabled.
///
/// A port may be absent, present and enabled, or present and disabled.
/// Entries are always listed in the fixed port order
/// HTTP, HTTPS, SSH, VNC, IPMI.
#[derive(Clone, Copy, Debug, PartialEq, Eq, Hash, Structural)]
pub struct PortMap {
    pub http: Option<bool>,
    pub https: Option<bool>,
    pub ssh: Option<bool>,
    pub vnc: Option<bool>,
    pub ipmi: Option<bool>,
}

impl PortMap {
    /// The setting of `p`: `None` when the port is absent.
    pub open spec fn spec_get(self, p: Port) -> Option<bool> {
        match p {
            Port::Http => self.http,
            Port::Https => self.https,
            Port::Ssh => self.ssh,
            Port::Vnc => self.vnc,
            Port::Ipmi => self.ipmi,
        }
    }

    /// The present entries, in port order.
    pub open spec fn spec_entries(self) -> Seq<(Port, bool)> {
        slot(Port::Http, self.http) + slot(Port::Https, self.https) + slot(Port::Ssh, self.ssh)
            + slot(Port::Vnc, self.vnc) + slot(Port::Ipmi, self.ipmi)
    }

    /// The present and enabled ports, in port order.
    pub open spec fn spec_enabled(self) -> Seq<Port> {
        enabled_slot(Port::Http, self.http) + enabled_slot(Port::Https, self.https)
            + enabled_slot(Port::Ssh, self.ssh) + enabled_slot(Port::Vnc, self.vnc)
            + enabled_slot(Port::Ipmi, self.ipmi)
    }

    /// A map with no port in it.
    pub fn new() -> (r: PortMap)
        ensures
            forall|p: Port| r.spec_get(p) is None,
    {
        PortMap { http: None, https: None, ssh: None, vnc: None, ipmi: None }
    }

    /// A map with every port present and set to `enabled`.
    pub fn all(enabled: bool) -> (r: PortMap)
        ensures
            forall|p: Port| r.spec_get(p) == Some(enabled),
    {
        PortMap {
            http: Some(enabled),
            https: Some(enabled),
            ssh: Some(enabled),
            vnc: Some(enabled),
            ipmi: Some(enabled),
        }
    }

    /// A map with every port present, enabled as the five flags say.
    pub fn from_flags(http: bool, https: bool, ssh: bool, vnc: bool, ipmi: bool) -> (r: PortMap)
        ensures
            r.spec_get(Port::Http) == Some(http),
            r.spec_get(Port::Https) == Some(https),
            r.spec_get(Port::Ssh) == Some(ssh),
            r.spec_get(Port::Vnc) == Some(vnc),
            r.spec_get(Port::Ipmi) == Some(ipmi),
    {
        PortMap {
            http: Some(http),
            https: Some(https),
            ssh: Some(ssh),
            vnc: Some(vnc),
            ipmi: Some(ipmi),
        }
    }

    /// The setting of `port`, if present.
    pub fn get(&self, port: Port) -> (r: Option<bool>)
        ensures
            r == self.spec_get(port),
    {
        match port {
            Port::Http => self.http,
            Port::Https => self.https,
            Port::Ssh => self.ssh,
            Port::Vnc => self.vnc,
            Port::Ipmi => self.ipmi,
        }
    }

    /// Sets `port` to `enabled`, adding it when absent.
    pub fn insert(&mut self, port: Port, enabled: bool)
        ensures
            final(self).spec_get(port) == Some(enabled),
            forall|q: Port| q != port ==> final(self).spec_get(q) == old(self).spec_get(q),
    {
        match port {
            Port::Http => self.http = Some(enabled),
            Port::Https => self.https = Some(enabled),
            Port::Ssh => self.ssh = Some(enabled),
            Port::Vnc => self.vnc = Some(enabled),
            Port::Ipmi => self.ipmi = Some(enabled),
        }
    }

    /// The present entries, in port order.
    pub fn entries(&self) -> (r: Vec<(Port, bool)>)
        ensures
            r@ == self.spec_entries(),
    {
        let mut r: Vec<(Port, bool)> = Vec::new();
        push_slot(&mut r, Port::Http, self.http);
        push_slot(&mut r, Port::Https, self.https);
        push_slot(&mut r, Port::Ssh, self.ssh);
        push_slot(&mut r, Port::Vnc, self.vnc);
        push_slot(&mut r, Port::Ipmi, self.ipmi);
        r
    }

    /// The present and enabled ports, in port order.
    pub fn enabled(&self) -> (r: Vec<Port>)
        ensures
            r@ == self.spec_enabled(),
    {
        let mut r: Vec<Port> = Vec::new();
        push_enabled(&mut r, Port::Http, self.http);
        push_enabled(&mut r, Port::Https, self.https);
        push_enabled(&mut r, Port::Ssh, self.ssh);
        push_enabled(&mut r, Port::Vnc, self.vnc);
        push_enabled(&mut r, Port::Ipmi, self.ipmi);
        r
    }
}

fn push_slot(r: &mut Vec<(Port, bool)>, p: Port, v: Option<bool>)
    ensures
        final(r)@ == old(r)@ + slot(p, v),
{
    if let Some(e) = v {
        r.push((p, e));
    }
    assert(final(r)@ =~= old(r)@ + slot(p, v));
}

fn push_enabled(r: &mut Vec<Port>, p: Port, v: Option<bool>)
    ensures
        final(r)@ == old(r)@ + enabled_slot(p, v),
{
    if v == Some(true) {
        r.push(p);
    }
    assert(final(r)@ =~= old(r)@ + enabled_slot(p, v));
}

} // verus!
