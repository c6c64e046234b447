# AutoSSH

AutoSSH keeps an SSH session to a trusted remote device open whenever the device is
reachable, and shows the state of both devices in a small window.

- `src/` is the verified library: the device states and the polling
  decisions (`monitor`), the SSH manager's state machine with its thirty-second health
  check and its reconnect backoff of 1, 2, 4, 8, 16, 32 and then 60 seconds (`ssh`),
  the dashboard's decisions (`dashboard`), the tray menu (`tray`), the settings and
  their defaults (`config`), expansion of `~` in the key path given the home directory, and failure texts (`session`), and the
  launch-at-login entry (`autostart`).
- `app/` is the program: the egui window, the polling worker (tokio), the SSH worker
  (ssh2), the tray service (ksni), and reading and writing `config.toml`. Each worker
  loop hands its inputs to the library and performs the actions it returns.
- `tests/` runs the library on concrete inputs.
