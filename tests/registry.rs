use monitorhosts::host::HostConfig;
use monitorhosts::manager::{HostEdit, Manager};
use monitorhosts::port::{Port, PortMap, PortStatus};

fn host(name: &str) -> HostConfig {
    HostConfig::with_all_enable(name.to_string())
}

fn names(m: &Manager) -> Vec<String> {
    let mut r = Vec::new();
    let mut i = 0;
    while let Some(h) = m.get_host(i) {
        r.push(h.name.clone());
        i += 1;
    }
    r
}

#[test]
fn new_registry_is_empty_and_clean() {
    let m = Manager::new();
    assert!(!m.updated());
    assert!(m.get_host(0).is_none());
    assert!(!m.contains_host("a"));
}

#[test]
fn with_config_starts_dirty() {
    let m = Manager::with_config(vec![host("a"), host("b")]);
    assert!(m.updated());
    assert_eq!(names(&m), vec!["a", "b"]);
}

#[test]
fn edits_give_net_effect_in_insertion_order() {
    let mut m = Manager::new();
    m.add_host(host("a"));
    m.add_host(host("b"));
    m.add_host(host("c"));
    m.remove_host(1);
    let mut ports = PortMap::new();
    ports.insert(Port::Ssh, true);
    m.update_host(0, HostConfig::new("z".to_string(), ports));
    m.add_host(host("d"));
    assert_eq!(names(&m), vec!["z", "c", "d"]);
    assert_eq!(m.get_host(0).unwrap().ports.get(Port::Ssh), Some(true));
    assert_eq!(m.get_host(0).unwrap().ports.get(Port::Http), None);
    assert!(m.get_host(3).is_none());
    assert!(m.contains_host("c"));
    assert!(!m.contains_host("b"));
}

#[test]
fn apply_all_replays_in_order() {
    let mut m = Manager::new();
    let edits = vec![
        HostEdit::Add(host("a")),
        HostEdit::Add(host("b")),
        HostEdit::Update(0, host("x")),
        HostEdit::Add(host("c")),
        HostEdit::Remove(1),
    ];
    m.apply_all(&edits);
    assert_eq!(names(&m), vec!["x", "c"]);
    assert!(m.updated());
    m.apply(HostEdit::Clear);
    assert!(names(&m).is_empty());
}

#[test]
fn equal_status_writes_mark_dirty_once() {
    let mut m = Manager::new();
    m.add_host(host("a"));
    m.capture();
    assert!(!m.updated());
    m.update("a".to_string(), Port::Http, PortStatus::On);
    assert!(m.updated());
    m.capture();
    m.update("a".to_string(), Port::Http, PortStatus::On);
    assert!(!m.updated());
    m.update("a".to_string(), Port::Http, PortStatus::Off);
    assert!(m.updated());
}

#[test]
fn equal_liveness_writes_mark_dirty_once() {
    let mut m = Manager::new();
    m.update_liveness("a".to_string(), PortStatus::Error);
    assert!(m.updated());
    m.capture();
    m.update_liveness("a".to_string(), PortStatus::Error);
    assert!(!m.updated());
    m.update_liveness("a".to_string(), PortStatus::On);
    assert!(m.updated());
}

#[test]
fn distinct_keys_are_independent() {
    let mut m = Manager::new();
    m.update("a".to_string(), Port::Http, PortStatus::On);
    m.update("a".to_string(), Port::Ssh, PortStatus::Off);
    m.update("b".to_string(), Port::Http, PortStatus::Error);
    let s = m.capture();
    assert_eq!(s.status.get(&"a".to_string(), Port::Http), Some(PortStatus::On));
    assert_eq!(s.status.get(&"a".to_string(), Port::Ssh), Some(PortStatus::Off));
    assert_eq!(s.status.get(&"b".to_string(), Port::Http), Some(PortStatus::Error));
    assert_eq!(s.status.get(&"b".to_string(), Port::Ssh), None);
}

#[test]
fn capture_clears_dirty() {
    let mut m = Manager::new();
    m.add_host(host("a"));
    assert!(m.updated());
    let first = m.capture();
    assert!(!m.updated());
    let second = m.capture();
    assert!(!m.updated());
    assert_eq!(first.rows(), second.rows());
}

#[test]
fn capture_if_dirty_only_when_dirty() {
    let mut m = Manager::new();
    assert!(m.capture_if_dirty().is_none());
    m.add_host(host("a"));
    let s = m.capture_if_dirty();
    assert!(s.is_some());
    assert_eq!(s.unwrap().configs.len(), 1);
    assert!(m.capture_if_dirty().is_none());
}

#[test]
fn snapshot_is_independent_of_later_changes() {
    let mut m = Manager::new();
    m.add_host(host("a"));
    m.update("a".to_string(), Port::Http, PortStatus::On);
    m.update_liveness("a".to_string(), PortStatus::On);
    let s = m.capture();
    let before = s.rows();
    m.update("a".to_string(), Port::Http, PortStatus::Off);
    m.update_liveness("a".to_string(), PortStatus::Off);
    m.update_host(0, host("b"));
    m.add_host(host("c"));
    m.remove_host(0);
    assert_eq!(s.rows(), before);
    assert_eq!(s.configs.len(), 1);
    assert_eq!(s.configs[0].name, "a");
    assert_eq!(s.liveness.get(&"a".to_string()), Some(PortStatus::On));
    assert_eq!(s.status.get(&"a".to_string(), Port::Http), Some(PortStatus::On));
}

#[test]
fn removing_a_host_drops_its_results() {
    let mut m = Manager::new();
    m.add_host(host("a"));
    m.add_host(host("b"));
    m.update("a".to_string(), Port::Http, PortStatus::On);
    m.update("b".to_string(), Port::Http, PortStatus::On);
    m.update_liveness("a".to_string(), PortStatus::On);
    m.update_liveness("b".to_string(), PortStatus::Off);
    m.remove_host(0);
    let s = m.capture();
    assert_eq!(s.liveness.get(&"a".to_string()), None);
    assert_eq!(s.status.get(&"a".to_string(), Port::Http), None);
    assert_eq!(s.liveness.get(&"b".to_string()), Some(PortStatus::Off));
    assert_eq!(s.status.get(&"b".to_string(), Port::Http), Some(PortStatus::On));
}

#[test]
fn clearing_drops_hosts_and_results() {
    let mut m = Manager::new();
    m.add_host(host("a"));
    m.update_liveness("a".to_string(), PortStatus::On);
    m.capture();
    m.clear_host();
    assert!(m.updated());
    let s = m.capture();
    assert!(s.configs.is_empty());
    assert_eq!(s.liveness.get(&"a".to_string()), None);
}

#[test]
fn duplicate_names_are_not_refused() {
    let mut m = Manager::new();
    m.add_host(host("a"));
    m.add_host(host("a"));
    assert_eq!(names(&m), vec!["a", "a"]);
}

#[test]
fn add_new_host_refuses_known_names() {
    let mut m = Manager::new();
    assert!(m.add_new_host(host("a")));
    m.capture();
    assert!(!m.add_new_host(host("a")));
    assert!(!m.updated());
    assert_eq!(names(&m), vec!["a"]);
}

#[test]
fn update_known_host_needs_a_registered_name() {
    let mut m = Manager::new();
    m.add_host(host("a"));
    m.add_host(host("b"));
    m.capture();
    let ports = PortMap::from_flags(true, false, true, false, false);
    assert!(!m.update_known_host(0, HostConfig::new("zz".to_string(), ports)));
    assert!(!m.updated());
    assert!(m.update_known_host(0, HostConfig::new("a".to_string(), ports)));
    assert!(m.updated());
    let h = m.get_host(0).unwrap();
    assert_eq!(h.ports.enabled(), vec![Port::Http, Port::Ssh]);
    assert_eq!(h.ports.get(Port::Vnc), Some(false));
}
