//! AutoSSH: keeps an SSH session to a trusted remote device open whenever the device
//! is reachable. This library holds the verified decisions of the program: device
//! reachability, the SSH session manager with its reconnect backoff, the dashboard,
//! the tray menu, the settings and the launch-at-login entry. The program around it
//! performs the network, file, window and thread work.

mod channel;

pub mod autostart;
pub mod config;
pub mod dashboard;
pub mod monitor;
pub mod session;
pub mod ssh;
pub mod tray;
