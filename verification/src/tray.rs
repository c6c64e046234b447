//! The system tray: its icon and menu, and the dashboard's handle on the clicks.

use vstd::prelude::*;
use std::sync::mpsc::{Receiver, TryRecvError};
use std::sync::{Arc, Mutex};
use crate::channel::{store_flag, try_receive};

verus! {

/// What a click in the tray menu asks the dashboard to do.
#[derive(Clone, Copy, Debug, PartialEq, Eq, Structural)]
pub enum TrayAction {
    Connect,
    Disconnect,
    Show,
}

/// What an entry of the tray menu does when clicked.
#[derive(Clone, Copy, Debug, PartialEq, Eq, Structural)]
pub enum MenuClick {
    /// Send `toggle_action` of the connection state at the time of the click.
    Toggle,
    /// Send this action.
    Send(TrayAction),
    /// Quit the application.
    Quit,
}

/// An entry of the tray menu.
#[derive(Clone, Copy, Debug)]
pub enum MenuEntry {
    Item { label: &'static str, icon: &'static str, click: MenuClick },
    Separator,
}

pub open spec fn is_item(e: MenuEntry, label: Seq<char>, icon: Seq<char>, click: MenuClick) -> bool {
    e matches MenuEntry::Item { label: l, icon: i, click: c } && l@ == label && i@ == icon && c
        == click
}

/// The tray's identifier.
pub fn tray_id() -> (r: &'static str)
    ensures
        r@ == "auto-ssh"@,
{
    "auto-ssh"
}

/// The tray's title.
pub fn tray_title() -> (r: &'static str)
    ensures
        r@ == "AutoSSH"@,
{
    "AutoSSH"
}

/// The tray icon: a server while connected, an offline network otherwise.
pub open spec fn tray_icon(connected: bool) -> Seq<char> {
    if connected {
        "network-server"@
    } else {
        "network-offline"@
    }
}

pub fn icon_name(connected: bool) -> (r: &'static str)
    ensures
        r@ == tray_icon(connected),
{
    if connected {
        "network-server"
    } else {
        "network-offline"
    }
}

/// The label of the connect/disconnect entry.
pub open spec fn toggle_label(connected: bool) -> Seq<char> {
    if connected {
        "Disconnect"@
    } else {
        "Connect"@
    }
}

/// The icon of the connect/disconnect entry.
pub open spec fn toggle_icon(connected: bool) -> Seq<char> {
    if connected {
        "network-offline"@
    } else {
        "network-server"@
    }
}

pub open spec fn spec_toggle_action(connected: bool) -> TrayAction {
    if connected {
        TrayAction::Disconnect
    } else {
        TrayAction::Connect
    }
}

/// What the connect/disconnect entry sends: disconnect while connected, connect
/// otherwise.
pub fn toggle_action(connected: bool) -> (r: TrayAction)
    ensures
        r == spec_toggle_action(connected),
{
    if connected {
        TrayAction::Disconnect
    } else {
        TrayAction::Connect
    }
}

/// The tray menu shown while the connection is in the given state: the
/// connect/disconnect entry, the dashboard entry, a separator, and the quit entry.
pub fn tray_menu(connected: bool) -> (r: Vec<MenuEntry>)
    ensures
        r@.len() == 4,
        is_item(r@[0], toggle_label(connected), toggle_icon(connected), MenuClick::Toggle),
        is_item(r@[1], "Show Dashboard"@, "computer"@, MenuClick::Send(TrayAction::Show)),
        r@[2] is Separator,
        is_item(r@[3], "Quit"@, "application-exit"@, MenuClick::Quit),
{
    let mut menu: Vec<MenuEntry> = Vec::new();
    let (label, icon) = if connected {
        ("Disconnect", "network-offline")
    } else {
        ("Connect", "network-server")
    };
    menu.push(MenuEntry::Item { label, icon, click: MenuClick::Toggle });
    menu.push(
        MenuEntry::Item {
            label: "Show Dashboard",
            icon: "computer",
            click: MenuClick::Send(TrayAction::Show),
        },
    );
    menu.push(MenuEntry::Separator);
    menu.push(MenuEntry::Item { label: "Quit", icon: "application-exit", click: MenuClick::Quit });
    menu
}

/// The toggle entry names what a click on it does: it reads "Disconnect" exactly
/// when a click sends `Disconnect`, and "Connect" exactly when it sends `Connect`;
/// its icon is the one the tray shows in the state the click leads to.
pub proof fn lemma_toggle_label_matches_action(connected: bool)
    ensures
        (toggle_label(connected) == "Disconnect"@) <==> spec_toggle_action(connected)
            == TrayAction::Disconnect,
        (toggle_label(connected) == "Connect"@) <==> spec_toggle_action(connected)
            == TrayAction::Connect,
        toggle_icon(connected) == tray_icon(!connected),
{
    reveal_strlit("Disconnect");
    reveal_strlit("Connect");
    assert("Disconnect"@[0] != "Connect"@[0]);
}

/// The dashboard's end of the tray: the clicks it receives and the connection state
/// it shares with the tray.
pub struct TrayHandle {
    action_rx: Receiver<TrayAction>,
    update_connected: Arc<Mutex<bool>>,
}

impl TrayHandle {
    /// The channel on which the tray sends clicks.
    pub closed spec fn action_channel(&self) -> Receiver<TrayAction> {
        self.action_rx
    }

    /// The connection flag shared with the tray.
    pub closed spec fn shared_flag(&self) -> Arc<Mutex<bool>> {
        self.update_connected
    }

    /// The handle that reads clicks from `action_rx` and shares `update_connected`.
    pub fn new(action_rx: Receiver<TrayAction>, update_connected: Arc<Mutex<bool>>) -> (r:
        TrayHandle)
        ensures
            r.action_channel() == action_rx,
            r.shared_flag() == update_connected,
    {
        TrayHandle { action_rx, update_connected }
    }

    /// The next click, if one is waiting.
    pub fn try_recv_action(&self) -> Result<TrayAction, TryRecvError> {
        try_receive(&self.action_rx)
    }

    /// Tells the tray whether a session is up.
    pub fn update_connection_status(&self, connected: bool) {
        store_flag(&self.update_connected, connected);
    }
}

} // verus!
