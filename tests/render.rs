use monitorhosts::host::HostConfig;
use monitorhosts::manager::Manager;
use monitorhosts::monitor::{port_targets, probe_status};
use monitorhosts::port::{Port, PortMap, PortStatus};
use monitorhosts::snapshot::Snapshot;
use monitorhosts::table::{LivenessTable, StatusTable};

#[test]
fn glyphs() {
    assert_eq!(PortStatus::On.glyph(), "⬤");
    assert_eq!(PortStatus::Off.glyph(), "◯");
    assert_eq!(PortStatus::Error.glyph(), "✕");
}

#[test]
fn one_round_end_to_end() {
    let mut ports = PortMap::new();
    ports.insert(Port::Http, true);
    ports.insert(Port::Https, false);
    ports.insert(Port::Ssh, false);
    ports.insert(Port::Vnc, false);
    ports.insert(Port::Ipmi, false);
    let mut m = Manager::new();
    m.add_host(HostConfig::new("example.com".to_string(), ports));

    let targets = port_targets(&m.hosts);
    assert_eq!(targets, vec![("example.com".to_string(), Port::Http)]);
    for (name, port) in targets {
        m.update(name, port, probe_status(true, false));
    }
    let s = m.capture();
    let rows = s.rows();
    assert_eq!(rows, vec![vec!["example.com", "NA", "◯", "", "", "", ""]]);
}

#[test]
fn rows_follow_port_order_and_presence() {
    let mut ports = PortMap::new();
    ports.insert(Port::Ipmi, true);
    ports.insert(Port::Http, true);
    ports.insert(Port::Vnc, false);
    let mut liveness = LivenessTable::new();
    liveness.insert("h".to_string(), PortStatus::On);
    let mut status = StatusTable::new();
    status.insert("h".to_string(), Port::Ipmi, PortStatus::Error);
    status.insert("other".to_string(), Port::Http, PortStatus::On);
    let s = Snapshot::new(
        vec![HostConfig::new("h".to_string(), ports), HostConfig::with_all_enable("g".to_string())],
        liveness,
        status,
    );
    assert_eq!(
        s.rows(),
        vec![
            vec!["h", "⬤", "NA", "", "✕"],
            vec!["g", "NA", "NA", "NA", "NA", "NA", "NA"],
        ]
    );
}

#[test]
fn port_targets_skip_disabled_and_absent_ports() {
    let mut ports = PortMap::new();
    ports.insert(Port::Vnc, true);
    ports.insert(Port::Ssh, false);
    ports.insert(Port::Http, true);
    let hosts = vec![
        HostConfig::new("a".to_string(), ports),
        HostConfig::new("b".to_string(), PortMap::new()),
        HostConfig::with_all_enable("c".to_string()),
    ];
    let t = port_targets(&hosts);
    let expect: Vec<(String, Port)> = vec![
        ("a".to_string(), Port::Http),
        ("a".to_string(), Port::Vnc),
        ("c".to_string(), Port::Http),
        ("c".to_string(), Port::Https),
        ("c".to_string(), Port::Ssh),
        ("c".to_string(), Port::Vnc),
        ("c".to_string(), Port::Ipmi),
    ];
    assert_eq!(t, expect);
    assert!(port_targets(&Vec::new()).is_empty());
}

#[test]
fn empty_snapshot_has_no_rows() {
    let mut m = Manager::new();
    assert!(m.capture().rows().is_empty());
}
