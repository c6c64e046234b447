use auto_ssh::config::Config;
use auto_ssh::dashboard::{status_color, Dashboard, StatusColor};
use auto_ssh::monitor::DeviceState;
use auto_ssh::ssh::SshEvent;

fn dashboard() -> Dashboard {
    Dashboard::new(Config::default())
}

#[test]
fn new_dashboard() {
    let d = dashboard();
    assert_eq!(d.local_status, DeviceState::Online);
    assert_eq!(d.remote_status, DeviceState::Offline);
    assert!(d.auto_connect);
    assert_eq!(d.last_connection, None);
    assert_eq!(d.last_connection_text, "Never");
    assert!(!d.show_settings);
    assert!(d.save_result.is_none());
    assert!(!d.connected);
    assert!(!d.auto_connect_attempted);
}

#[test]
fn monitor_reports_keep_the_last() {
    let mut d = dashboard();
    d.poll_monitor(&vec![]);
    assert_eq!(d.remote_status, DeviceState::Offline);
    d.poll_monitor(&vec![DeviceState::Online, DeviceState::SshReady]);
    assert_eq!(d.remote_status, DeviceState::SshReady);
}

#[test]
fn auto_connect_fires_once() {
    let mut d = dashboard();
    assert!(d.tick().is_none());
    d.poll_monitor(&vec![DeviceState::SshReady]);
    let p = d.tick().expect("auto-connect");
    assert_eq!(p.host, "192.168.1.100");
    assert_eq!(p.port, 22);
    assert_eq!(p.username, "user");
    assert_eq!(p.key_path, "~/.ssh/id_ed25519");
    assert!(d.auto_connect_attempted);
    // no session yet: the device is not shown connected
    assert_eq!(d.remote_status, DeviceState::SshReady);
    assert!(d.tick().is_none());
    // a new report of readiness does not start a second connection
    d.poll_monitor(&vec![DeviceState::SshReady]);
    assert!(d.tick().is_none());
}

#[test]
fn auto_connect_off_never_fires() {
    let mut cfg = Config::default();
    cfg.auto_connect = false;
    let mut d = Dashboard::new(cfg);
    d.poll_monitor(&vec![DeviceState::SshReady]);
    assert!(d.tick().is_none());
}

#[test]
fn connected_event() {
    let mut d = dashboard();
    d.poll_monitor(&vec![DeviceState::SshReady]);
    d.tick();
    d.poll_ssh_events(&vec![SshEvent::Connected], 1_700_000_000);
    assert!(d.connected);
    assert!(!d.auto_connect_attempted);
    assert_eq!(d.remote_status, DeviceState::Connected);
    assert_eq!(d.last_connection, Some(1_700_000_000));
    assert_eq!(d.last_connection_text, "Just now");
    assert!(!d.connect_enabled());
    assert!(d.disconnect_enabled());
}

#[test]
fn lost_connection_rearms_auto_connect() {
    let mut d = dashboard();
    d.poll_monitor(&vec![DeviceState::SshReady]);
    d.tick();
    d.poll_ssh_events(
        &vec![SshEvent::Connected, SshEvent::Disconnected("Session lost".to_string())],
        5,
    );
    assert!(!d.connected);
    assert_eq!(d.remote_status, DeviceState::SshReady);
    assert_eq!(d.last_connection_text, "Lost connection");
    assert!(d.tick().is_some());
}

#[test]
fn disconnect_without_session_keeps_text() {
    let mut d = dashboard();
    d.poll_ssh_events(&vec![SshEvent::Disconnected("Shutdown".to_string())], 5);
    assert_eq!(d.remote_status, DeviceState::Offline);
    assert_eq!(d.last_connection_text, "Never");
}

#[test]
fn connecting_event_marks_attempt() {
    let mut d = dashboard();
    d.poll_monitor(&vec![DeviceState::SshReady]);
    d.poll_ssh_events(&vec![SshEvent::Connecting { attempt: 3, delay_secs: 4 }], 5);
    assert!(d.auto_connect_attempted);
    assert_eq!(d.remote_status, DeviceState::SshReady);
    assert!(!d.connected);
    assert!(d.tick().is_none());
}

#[test]
fn error_event_is_only_logged() {
    let mut d = dashboard();
    d.poll_monitor(&vec![DeviceState::SshReady]);
    d.tick();
    d.poll_ssh_events(&vec![SshEvent::Error("Connection failed: x".to_string())], 5);
    assert!(d.auto_connect_attempted);
    assert!(!d.connected);
    assert_eq!(d.remote_status, DeviceState::SshReady);
    // the user can retry by hand
    assert!(d.connect_enabled());
}

#[test]
fn buttons() {
    let mut d = dashboard();
    assert!(!d.connect_enabled());
    assert!(!d.disconnect_enabled());
    d.poll_monitor(&vec![DeviceState::SshReady]);
    assert!(d.connect_enabled());
    let p = d.connection_params();
    assert_eq!(p.host, "192.168.1.100");
}

#[test]
fn banner() {
    let mut d = dashboard();
    assert_eq!(d.auto_connect_banner(), ("Auto-Connect: Enabled", StatusColor::Green));
    d.auto_connect = false;
    assert_eq!(d.auto_connect_banner(), ("Auto-Connect: Disabled", StatusColor::Gray));
}

#[test]
fn status_colors() {
    assert_eq!(status_color(&DeviceState::Offline, true), StatusColor::Green);
    assert_eq!(status_color(&DeviceState::Offline, false), StatusColor::Red);
    assert_eq!(status_color(&DeviceState::Online, false), StatusColor::Yellow);
    assert_eq!(status_color(&DeviceState::SshReady, false), StatusColor::Sky);
    assert_eq!(status_color(&DeviceState::Connected, false), StatusColor::Green);
}

#[test]
fn settings_save_success() {
    let mut d = dashboard();
    d.poll_monitor(&vec![DeviceState::SshReady]);
    d.tick();
    d.open_settings();
    assert!(d.show_settings);
    d.cfg.remote_host = "10.0.0.2".to_string();
    d.cfg.port = 2222;
    d.cfg.auto_connect = false;
    let update = d.record_save(Ok(()));
    assert_eq!(update, Some(("10.0.0.2".to_string(), 2222)));
    assert!(!d.auto_connect);
    assert!(!d.auto_connect_attempted);
    assert_eq!(d.save_result.as_deref(), Some("ok"));
    assert_eq!(d.save_message(), Some(("Config saved.".to_string(), StatusColor::Green)));
    assert!(d.show_settings);
    d.cancel_settings();
    assert!(!d.show_settings);
    d.open_settings();
    assert!(d.save_message().is_none());
}

#[test]
fn start_on_boot_follows_a_successful_save() {
    let mut d = dashboard();
    assert_eq!(d.autostart_after_save(), None);
    d.open_settings();
    d.cfg.start_on_boot = true;
    d.record_save(Ok(()));
    assert_eq!(d.autostart_after_save(), Some(true));
    d.cfg.start_on_boot = false;
    d.record_save(Ok(()));
    assert_eq!(d.autostart_after_save(), Some(false));
    d.cfg.start_on_boot = true;
    d.record_save(Err("Failed to write config: denied".to_string()));
    assert_eq!(d.autostart_after_save(), None);
}

#[test]
fn many_ready_frames_start_one_connection() {
    let mut d = dashboard();
    let mut started = 0;
    for _ in 0..50 {
        d.poll_monitor(&vec![DeviceState::SshReady]);
        if d.tick().is_some() {
            started += 1;
        }
    }
    assert_eq!(started, 1);
}

#[test]
fn settings_save_failure() {
    let mut d = dashboard();
    d.open_settings();
    assert!(d.save_message().is_none());
    let update = d.record_save(Err("Failed to write config: denied".to_string()));
    assert!(update.is_none());
    assert_eq!(
        d.save_message(),
        Some(("Failed to write config: denied".to_string(), StatusColor::Red))
    );
}

#[test]
fn disconnect_keys_on_shown_status() {
    // a session up but a stale report shows SSH Ready: the display is left alone
    let mut d = dashboard();
    d.poll_ssh_events(&vec![SshEvent::Connected], 1);
    d.poll_monitor(&vec![DeviceState::SshReady]);
    d.poll_ssh_events(&vec![SshEvent::Disconnected("Session lost".to_string())], 2);
    assert!(!d.connected);
    assert_eq!(d.remote_status, DeviceState::SshReady);
    assert_eq!(d.last_connection_text, "Just now");
    // shown connected without the session flag: switched to ready and marked lost
    let mut d = dashboard();
    d.poll_monitor(&vec![DeviceState::Connected]);
    d.poll_ssh_events(&vec![SshEvent::Disconnected("Shutdown".to_string())], 3);
    assert_eq!(d.remote_status, DeviceState::SshReady);
    assert_eq!(d.last_connection_text, "Lost connection");
}
