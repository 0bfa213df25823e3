use monitorhosts::args::{Args, LogLevel};
use monitorhosts::hotkey::host_from_url;
use monitorhosts::monitor::{probe_status, ECHO_PAYLOAD_LEN, PROBE_TIMEOUT_SECS, ROUND_INTERVAL_SECS};
use monitorhosts::port::{Port, PortMap, PortStatus};
use monitorhosts::tray::menu::{route, Message};

#[test]
fn probe_outcomes() {
    assert_eq!(probe_status(false, false), PortStatus::Error);
    assert_eq!(probe_status(false, true), PortStatus::Error);
    assert_eq!(probe_status(true, false), PortStatus::Off);
    assert_eq!(probe_status(true, true), PortStatus::On);
}

#[test]
fn probe_timings() {
    assert_eq!(PROBE_TIMEOUT_SECS, 1);
    assert_eq!(ROUND_INTERVAL_SECS, 10);
    assert_eq!(ECHO_PAYLOAD_LEN, 56);
}

#[test]
fn port_numbers() {
    assert_eq!(Port::Http.u16(), 80);
    assert_eq!(Port::Https.u16(), 443);
    assert_eq!(Port::Ssh.u16(), 22);
    assert_eq!(Port::Vnc.u16(), 5900);
    assert_eq!(Port::Ipmi.u16(), 623);
}

#[test]
fn port_map_entries() {
    let mut m = PortMap::new();
    assert!(m.entries().is_empty());
    m.insert(Port::Ssh, false);
    m.insert(Port::Http, true);
    m.insert(Port::Ssh, true);
    assert_eq!(m.get(Port::Ssh), Some(true));
    assert_eq!(m.get(Port::Vnc), None);
    assert_eq!(m.entries(), vec![(Port::Http, true), (Port::Ssh, true)]);
    assert_eq!(m.enabled(), vec![Port::Http, Port::Ssh]);
    assert_eq!(PortMap::all(false).enabled(), Vec::<Port>::new());
}

#[test]
fn log_levels() {
    assert_eq!(Args { verbose: 0 }.log_level(), LogLevel::Warn);
    assert_eq!(Args { verbose: 1 }.log_level(), LogLevel::Info);
    assert_eq!(Args { verbose: 2 }.log_level(), LogLevel::Debug);
    assert_eq!(Args { verbose: 3 }.log_level(), LogLevel::Trace);
    assert_eq!(Args { verbose: 255 }.log_level(), LogLevel::Trace);
}

#[test]
fn tray_routing() {
    assert_eq!(route(Message::Quit, false), (Some(Message::Quit), true));
    assert_eq!(route(Message::ShowMainWindow, true), (None, false));
    assert_eq!(route(Message::ShowMainWindow, false), (Some(Message::ShowMainWindow), false));
    assert_eq!(route(Message::Add, true), (Some(Message::Add), false));
    assert_eq!(route(Message::Config, false), (Some(Message::Config), false));
}

#[test]
fn host_from_clipboard_url() {
    let h = host_from_url("https://example.com:8443/path?q=1").unwrap();
    assert_eq!(h.name, "example.com");
    assert_eq!(h.ports.enabled().len(), 5);
    let h = host_from_url("http://192.168.1.10/").unwrap();
    assert_eq!(h.name, "192.168.1.10");
}

#[test]
fn host_from_non_url_is_none() {
    assert!(host_from_url("192.168.1.10").is_none());
    assert!(host_from_url("").is_none());
    assert!(host_from_url("mailto:someone@example.com").is_none());
}
