use auto_ssh::autostart::{desktop_entry, AutostartFailure};
use auto_ssh::config::{Config, SaveFailure};
use auto_ssh::session::{resolve_key_path, SessionFailure};
use auto_ssh::tray::{
    icon_name, toggle_action, tray_id, tray_menu, tray_title, MenuClick, MenuEntry, TrayAction,
    TrayHandle,
};
use std::sync::{mpsc, Arc, Mutex};

#[test]
fn default_config_matches_documentation() {
    let c = Config::default();
    assert_eq!(c.device_name, "My Laptop");
    assert_eq!(c.remote_host, "192.168.1.100");
    assert_eq!(c.username, "user");
    assert_eq!(c.port, 22);
    assert_eq!(c.ssh_key_path, "~/.ssh/id_ed25519");
    assert!(c.auto_connect);
    assert!(!c.start_on_boot);
    assert_eq!(c.poll_interval_seconds, 5);
}

#[test]
fn loaded_config_or_default() {
    let mut c = Config::default();
    c.remote_host = "192.168.1.10".to_string();
    c.username = "fitsum".to_string();
    let kept = Config::from_loaded(Some(c));
    assert_eq!(kept.remote_host, "192.168.1.10");
    assert_eq!(kept.username, "fitsum");
    let fallback = Config::from_loaded(None);
    assert_eq!(fallback.remote_host, "192.168.1.100");
}

#[test]
fn save_failure_texts() {
    assert_eq!(SaveFailure::NoConfigDir.message(), "Could not determine config directory");
    assert_eq!(
        SaveFailure::CreateDir("denied".to_string()).message(),
        "Failed to create config directory: denied"
    );
    assert_eq!(
        SaveFailure::Serialize("bad".to_string()).message(),
        "Failed to serialize config: bad"
    );
    assert_eq!(SaveFailure::Write("full".to_string()).message(), "Failed to write config: full");
}

#[test]
fn desktop_entry_text() {
    assert_eq!(
        desktop_entry("/usr/bin/auto-ssh"),
        "[Desktop Entry]\nType=Application\nName=AutoSSH\nExec=/usr/bin/auto-ssh\nComment=Automatic SSH connection manager\nTerminal=false\nStartupNotify=false\nX-GNOME-Autostart-enabled=true\n"
    );
    // braces in the path are kept as they are
    assert!(desktop_entry("/opt/{}/x").contains("Exec=/opt/{}/x\n"));
}

#[test]
fn autostart_failure_texts() {
    assert_eq!(AutostartFailure::NoExecutable.message(), "Cannot determine executable path");
    assert_eq!(AutostartFailure::NoAutostartDir.message(), "Cannot determine autostart directory");
    assert_eq!(AutostartFailure::InvalidPath.message(), "Invalid autostart path");
    assert_eq!(
        AutostartFailure::CreateDir("e".to_string()).message(),
        "Failed to create autostart directory: e"
    );
    assert_eq!(
        AutostartFailure::Write("e".to_string()).message(),
        "Failed to write autostart file: e"
    );
    assert_eq!(
        AutostartFailure::Remove("e".to_string()).message(),
        "Failed to remove autostart file: e"
    );
}

#[test]
fn key_path_without_tilde_is_kept() {
    let home = Some("/home/u".to_string());
    assert_eq!(resolve_key_path("/srv/keys/id_rsa", home.clone()), "/srv/keys/id_rsa");
    assert_eq!(resolve_key_path("~other/.ssh/id", home.clone()), "~other/.ssh/id");
    assert_eq!(resolve_key_path("keys/id", home), "keys/id");
}

#[test]
fn key_path_with_tilde_is_expanded() {
    let home = Some("/home/fitsum".to_string());
    assert_eq!(
        resolve_key_path("~/.ssh/id_ed25519", home.clone()),
        "/home/fitsum/.ssh/id_ed25519"
    );
    assert_eq!(resolve_key_path("~", home), "/home/fitsum");
}

#[test]
fn key_path_without_home_is_kept() {
    assert_eq!(resolve_key_path("~/.ssh/id_ed25519", None), "~/.ssh/id_ed25519");
}

#[test]
fn session_failure_texts() {
    let f = SessionFailure::TcpConnect {
        addr: "h:22".to_string(),
        detail: "refused".to_string(),
    };
    assert_eq!(f.message(), "TCP connect to h:22 failed: refused");
    assert_eq!(
        SessionFailure::ReadTimeout("x".to_string()).message(),
        "Failed to set read timeout: x"
    );
    assert_eq!(
        SessionFailure::WriteTimeout("x".to_string()).message(),
        "Failed to set write timeout: x"
    );
    assert_eq!(
        SessionFailure::NewSession("x".to_string()).message(),
        "Failed to create SSH session: x"
    );
    assert_eq!(SessionFailure::Handshake("x".to_string()).message(), "SSH handshake failed: x");
    assert_eq!(
        SessionFailure::KeyNotFound("/k".to_string()).message(),
        "SSH key not found: /k"
    );
    assert_eq!(
        SessionFailure::Authentication("x".to_string()).message(),
        "SSH key authentication failed: x"
    );
    assert_eq!(SessionFailure::NotAuthenticated.message(), "SSH authentication not confirmed");
}

#[test]
fn tray_identity_and_icon() {
    assert_eq!(tray_id(), "auto-ssh");
    assert_eq!(tray_title(), "AutoSSH");
    assert_eq!(icon_name(true), "network-server");
    assert_eq!(icon_name(false), "network-offline");
    assert_eq!(toggle_action(true), TrayAction::Disconnect);
    assert_eq!(toggle_action(false), TrayAction::Connect);
}

fn item(e: &MenuEntry) -> (&'static str, &'static str, MenuClick) {
    match e {
        MenuEntry::Item { label, icon, click } => (label, icon, *click),
        MenuEntry::Separator => panic!("separator"),
    }
}

#[test]
fn tray_menu_entries() {
    let m = tray_menu(false);
    assert_eq!(m.len(), 4);
    assert_eq!(item(&m[0]), ("Connect", "network-server", MenuClick::Toggle));
    assert_eq!(item(&m[1]), ("Show Dashboard", "computer", MenuClick::Send(TrayAction::Show)));
    assert!(matches!(m[2], MenuEntry::Separator));
    assert_eq!(item(&m[3]), ("Quit", "application-exit", MenuClick::Quit));
    let m = tray_menu(true);
    assert_eq!(item(&m[0]), ("Disconnect", "network-offline", MenuClick::Toggle));
}

#[test]
fn tray_handle_shares_state_and_receives_clicks() {
    let (tx, rx) = mpsc::channel();
    let flag = Arc::new(Mutex::new(false));
    let handle = TrayHandle::new(rx, flag.clone());
    handle.update_connection_status(true);
    assert!(*flag.lock().unwrap());
    handle.update_connection_status(false);
    assert!(!*flag.lock().unwrap());
    assert!(handle.try_recv_action().is_err());
    tx.send(TrayAction::Show).unwrap();
    assert_eq!(handle.try_recv_action().unwrap(), TrayAction::Show);
}
