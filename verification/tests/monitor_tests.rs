use auto_ssh::monitor::{
    after_port_check, after_resolve, begin_probe, DeviceState, MonitorCommand, MonitorHandle,
    MonitorSettings, MonitorWake, PortProbe, ProbeStep,
};
use std::sync::mpsc;

#[test]
fn labels_of_every_state() {
    assert_eq!(DeviceState::Offline.label(), "Offline");
    assert_eq!(DeviceState::Online.label(), "Online");
    assert_eq!(DeviceState::SshReady.label(), "SSH Ready");
    assert_eq!(DeviceState::Connected.label(), "Connected");
}

fn poll(connected: bool, resolves: bool, probe: PortProbe) -> DeviceState {
    match begin_probe(connected) {
        ProbeStep::Report(s) => s,
        ProbeStep::Resolve => match after_resolve(resolves) {
            ProbeStep::Report(s) => s,
            ProbeStep::CheckPort => after_port_check(probe),
            ProbeStep::Resolve => panic!("resolve twice"),
        },
        ProbeStep::CheckPort => panic!("port before resolve"),
    }
}

#[test]
fn status_cycle() {
    assert_eq!(poll(true, false, PortProbe::Unreachable), DeviceState::Connected);
    assert_eq!(poll(true, true, PortProbe::Open), DeviceState::Connected);
    assert_eq!(poll(false, false, PortProbe::Open), DeviceState::Offline);
    assert_eq!(poll(false, true, PortProbe::Unreachable), DeviceState::Offline);
    assert_eq!(poll(false, true, PortProbe::Refused), DeviceState::Online);
    assert_eq!(poll(false, true, PortProbe::Open), DeviceState::SshReady);
}

#[test]
fn probe_steps() {
    assert_eq!(begin_probe(true), ProbeStep::Report(DeviceState::Connected));
    assert_eq!(begin_probe(false), ProbeStep::Resolve);
    assert_eq!(after_resolve(false), ProbeStep::Report(DeviceState::Offline));
    assert_eq!(after_resolve(true), ProbeStep::CheckPort);
    assert_eq!(after_port_check(PortProbe::Open), DeviceState::SshReady);
    assert_eq!(after_port_check(PortProbe::Refused), DeviceState::Online);
    assert_eq!(after_port_check(PortProbe::Unreachable), DeviceState::Offline);
}

#[test]
fn update_config_then_poll_uses_new_host() {
    let mut s = MonitorSettings::new("192.168.1.100".to_string(), 22, 5);
    let keep = s.on_wake(MonitorWake::Command(MonitorCommand::UpdateConfig(
        "pi.local".to_string(),
        2222,
    )));
    assert!(keep);
    assert_eq!(s.host, "pi.local");
    assert_eq!(s.port, 2222);
    assert_eq!(s.poll_interval, 5);
}

#[test]
fn timeout_keeps_settings() {
    let mut s = MonitorSettings::new("h".to_string(), 22, 7);
    assert!(s.on_wake(MonitorWake::Timeout));
    assert_eq!(s.host, "h");
    assert_eq!(s.port, 22);
    assert_eq!(s.poll_interval, 7);
}

#[test]
fn shutdown_and_closed_stop_polling() {
    let mut s = MonitorSettings::new("h".to_string(), 22, 5);
    assert!(!s.on_wake(MonitorWake::Command(MonitorCommand::Shutdown)));
    assert!(!s.on_wake(MonitorWake::Closed));
    assert_eq!(s.host, "h");
}

#[test]
fn handle_sends_commands_and_receives_states() {
    let (state_tx, state_rx) = mpsc::channel();
    let (cmd_tx, cmd_rx) = mpsc::channel();
    let handle = MonitorHandle::new(state_rx, cmd_tx);
    assert!(handle.recv_state().is_err());
    state_tx.send(DeviceState::SshReady).unwrap();
    assert_eq!(handle.recv_state().unwrap(), DeviceState::SshReady);
    handle.update_host("server".to_string(), 2200);
    match cmd_rx.try_recv().unwrap() {
        MonitorCommand::UpdateConfig(h, p) => {
            assert_eq!(h, "server");
            assert_eq!(p, 2200);
        }
        MonitorCommand::Shutdown => panic!("expected an update"),
    }
    handle.shutdown();
    assert!(matches!(cmd_rx.try_recv().unwrap(), MonitorCommand::Shutdown));
    drop(state_tx);
    assert_eq!(handle.recv_state().unwrap_err(), mpsc::TryRecvError::Disconnected);
}

#[test]
fn update_request_carries_host_and_port() {
    match MonitorCommand::update_request("pi.local".to_string(), 2222) {
        MonitorCommand::UpdateConfig(h, p) => {
            assert_eq!(h, "pi.local");
            assert_eq!(p, 2222);
        }
        MonitorCommand::Shutdown => panic!("expected an update"),
    }
}

#[test]
fn polls_last_target_across_wakes() {
    let mut s = MonitorSettings::new("a".to_string(), 22, 5);
    assert!(s.on_wake(MonitorWake::Command(MonitorCommand::UpdateConfig("b".to_string(), 23))));
    assert!(s.on_wake(MonitorWake::Timeout));
    assert!(s.on_wake(MonitorWake::Command(MonitorCommand::UpdateConfig("c".to_string(), 24))));
    assert!(s.on_wake(MonitorWake::Timeout));
    assert_eq!((s.host.as_str(), s.port, s.poll_interval), ("c", 24, 5));
}
