//! Reachability of the remote device: its states, the decisions of the polling
//! worker, and the handle through which the dashboard talks to that worker.

use vstd::prelude::*;
use std::sync::mpsc::{Receiver, Sender, TryRecvError};
use crate::channel::{send_message, try_receive};

verus! {

/// What is known of the remote device, from least to most reachable.
#[derive(Clone, Copy, Debug, PartialEq, Eq, Structural)]
pub enum DeviceState {
    /// The host name does not resolve, or the host cannot be reached.
    Offline,
    /// The host answers but refuses connections on the SSH port.
    Online,
    /// The SSH port accepts connections.
    SshReady,
    /// An authenticated SSH session is up.
    Connected,
}

/// The text shown for each state.
pub open spec fn state_label(s: DeviceState) -> Seq<char> {
    match s {
        DeviceState::Offline => "Offline"@,
        DeviceState::Online => "Online"@,
        DeviceState::SshReady => "SSH Ready"@,
        DeviceState::Connected => "Connected"@,
    }
}

impl DeviceState {
    pub fn label(&self) -> (r: &str)
        ensures
            r@ == state_label(*self),
    {
        proof {
            reveal_strlit("Offline");
            reveal_strlit("Online");
            reveal_strlit("SSH Ready");
            reveal_strlit("Connected");
        }
        match self {
            DeviceState::Offline => "Offline",
            DeviceState::Online => "Online",
            DeviceState::SshReady => "SSH Ready",
            DeviceState::Connected => "Connected",
        }
    }
}

/// Requests from the dashboard to the polling worker.
pub enum MonitorCommand {
    /// Poll this host and port from now on.
    UpdateConfig(String, u16),
    /// Stop polling.
    Shutdown,
}

pub enum MonitorCommandView {
    UpdateConfig(Seq<char>, u16),
    Shutdown,
}

impl View for MonitorCommand {
    type V = MonitorCommandView;

    open spec fn view(&self) -> MonitorCommandView {
        match self {
            MonitorCommand::UpdateConfig(h, p) => MonitorCommandView::UpdateConfig(h@, *p),
            MonitorCommand::Shutdown => MonitorCommandView::Shutdown,
        }
    }
}

impl MonitorCommand {
    /// The request to poll `host:port` from now on.
    pub fn update_request(host: String, port: u16) -> (r: MonitorCommand)
        ensures
            r@ == MonitorCommandView::UpdateConfig(host@, port),
    {
        MonitorCommand::UpdateConfig(host, port)
    }
}

/// Why the polling worker woke up after publishing a state.
pub enum MonitorWake {
    /// A command arrived.
    Command(MonitorCommand),
    /// The poll interval elapsed without a command.
    Timeout,
    /// Every sender of commands is gone.
    Closed,
}

pub enum MonitorWakeView {
    Command(MonitorCommandView),
    Timeout,
    Closed,
}

impl View for MonitorWake {
    type V = MonitorWakeView;

    open spec fn view(&self) -> MonitorWakeView {
        match self {
            MonitorWake::Command(c) => MonitorWakeView::Command(c@),
            MonitorWake::Timeout => MonitorWakeView::Timeout,
            MonitorWake::Closed => MonitorWakeView::Closed,
        }
    }
}

/// What the polling worker polls, and how often.
pub struct MonitorSettings {
    pub host: String,
    pub port: u16,
    pub poll_interval: u64,
}

pub struct MonitorSettingsView {
    pub host: Seq<char>,
    pub port: u16,
    pub poll_interval: u64,
}

impl View for MonitorSettings {
    type V = MonitorSettingsView;

    open spec fn view(&self) -> MonitorSettingsView {
        MonitorSettingsView { host: self.host@, port: self.port, poll_interval: self.poll_interval }
    }
}

/// How a wake-up changes what is polled, and whether polling goes on: an update sets
/// host and port, a timeout changes nothing, a shutdown or a closed channel stops.
pub open spec fn wake_effect(s: MonitorSettingsView, w: MonitorWakeView) -> (
    MonitorSettingsView,
    bool,
) {
    match w {
        MonitorWakeView::Command(MonitorCommandView::UpdateConfig(h, p)) => (
            MonitorSettingsView { host: h, port: p, ..s },
            true,
        ),
        MonitorWakeView::Timeout => (s, true),
        _ => (s, false),
    }
}

/// Whether a wake-up lets polling go on.
pub open spec fn keeps_running(w: MonitorWakeView) -> bool {
    match w {
        MonitorWakeView::Command(MonitorCommandView::Shutdown) => false,
        MonitorWakeView::Closed => false,
        _ => true,
    }
}

/// The settings after a run of wake-ups, applied in order.
pub open spec fn settings_after(s: MonitorSettingsView, ws: Seq<MonitorWakeView>) -> MonitorSettingsView
    decreases ws.len(),
{
    if ws.len() == 0 {
        s
    } else {
        wake_effect(settings_after(s, ws.drop_last()), ws.last()).0
    }
}

/// The host and port of the last update among `ws`, or `(host, port)` if there is none.
pub open spec fn last_target(host: Seq<char>, port: u16, ws: Seq<MonitorWakeView>) -> (
    Seq<char>,
    u16,
)
    decreases ws.len(),
{
    if ws.len() == 0 {
        (host, port)
    } else {
        match ws.last() {
            MonitorWakeView::Command(MonitorCommandView::UpdateConfig(h, p)) => (h, p),
            _ => last_target(host, port, ws.drop_last()),
        }
    }
}

impl MonitorSettings {
    pub fn new(host: String, port: u16, poll_interval: u64) -> (r: MonitorSettings)
        ensures
            r@ == (MonitorSettingsView { host: host@, port, poll_interval }),
    {
        MonitorSettings { host, port, poll_interval }
    }

    /// Applies what woke the worker; returns whether polling goes on.
    pub fn on_wake(&mut self, wake: MonitorWake) -> (keep_running: bool)
        ensures
            (final(self)@, keep_running) == wake_effect(old(self)@, wake@),
    {
        match wake {
            MonitorWake::Command(MonitorCommand::UpdateConfig(h, p)) => {
                self.host = h;
                self.port = p;
                true
            },
            MonitorWake::Command(MonitorCommand::Shutdown) => false,
            MonitorWake::Timeout => true,
            MonitorWake::Closed => false,
        }
    }
}

/// What polls: as long as no wake-up has stopped it, the worker polls the host and
/// port of the last update it received, or the ones it was started with, at the poll
/// interval it was started with.
pub proof fn lemma_polls_last_target(
    host: Seq<char>,
    port: u16,
    poll_interval: u64,
    ws: Seq<MonitorWakeView>,
)
    requires
        forall|i: int| 0 <= i < ws.len() ==> keeps_running(#[trigger] ws[i]),
    ensures
        ({
            let s = settings_after(MonitorSettingsView { host, port, poll_interval }, ws);
            &&& (s.host, s.port) == last_target(host, port, ws)
            &&& s.poll_interval == poll_interval
        }),
    decreases ws.len(),
{
    if ws.len() > 0 {
        lemma_polls_last_target(host, port, poll_interval, ws.drop_last());
        assert(keeps_running(ws[ws.len() - 1]));
    }
}

/// The outcome of trying a TCP connection to the SSH port.
#[derive(Clone, Copy, Debug, PartialEq, Eq, Structural)]
pub enum PortProbe {
    /// The connection was accepted.
    Open,
    /// The host answered and refused the connection: the port is closed.
    Refused,
    /// No answer in time, or the host cannot be reached.
    Unreachable,
}

/// The next thing to do while finding out the state of the remote device.
#[derive(Clone, Copy, Debug, PartialEq, Eq, Structural)]
pub enum ProbeStep {
    /// The state is known: publish it.
    Report(DeviceState),
    /// Resolve the host name, then call `after_resolve`.
    Resolve,
    /// Try a TCP connection to the SSH port, then call `after_port_check`.
    CheckPort,
}

pub open spec fn spec_begin_probe(connected: bool) -> ProbeStep {
    if connected { ProbeStep::Report(DeviceState::Connected) } else { ProbeStep::Resolve }
}

pub open spec fn spec_after_resolve(resolved: bool) -> ProbeStep {
    if resolved { ProbeStep::CheckPort } else { ProbeStep::Report(DeviceState::Offline) }
}

pub open spec fn spec_after_port_check(probe: PortProbe) -> DeviceState {
    match probe {
        PortProbe::Open => DeviceState::SshReady,
        PortProbe::Refused => DeviceState::Online,
        PortProbe::Unreachable => DeviceState::Offline,
    }
}

/// First step of a poll: a live session needs no network probe.
pub fn begin_probe(connected: bool) -> (r: ProbeStep)
    ensures
        r == spec_begin_probe(connected),
{
    if connected { ProbeStep::Report(DeviceState::Connected) } else { ProbeStep::Resolve }
}

/// Step after the host name lookup: no address means the device is offline.
pub fn after_resolve(resolved: bool) -> (r: ProbeStep)
    ensures
        r == spec_after_resolve(resolved),
{
    if resolved { ProbeStep::CheckPort } else { ProbeStep::Report(DeviceState::Offline) }
}

/// Last step of a poll: an open SSH port means the device is ready for SSH, a refused
/// connection that it is online with the port closed, no answer that it is offline.
pub fn after_port_check(probe: PortProbe) -> (r: DeviceState)
    ensures
        r == spec_after_port_check(probe),
{
    match probe {
        PortProbe::Open => DeviceState::SshReady,
        PortProbe::Refused => DeviceState::Online,
        PortProbe::Unreachable => DeviceState::Offline,
    }
}

/// The state that a complete poll publishes, given whether a session is up, whether
/// the host resolves and how the SSH port answered.
pub open spec fn polled_state(connected: bool, resolves: bool, probe: PortProbe) -> DeviceState {
    match spec_begin_probe(connected) {
        ProbeStep::Report(s) => s,
        _ => match spec_after_resolve(resolves) {
            ProbeStep::Report(s) => s,
            _ => spec_after_port_check(probe),
        },
    }
}

/// The status cycle: a poll reports `Connected` exactly when a session is up, and then
/// without any lookup or connection attempt; `Offline` exactly when there is no session
/// and the host does not resolve or cannot be reached; `Online` when the host answers
/// but refuses the SSH port; and `SSH Ready` when the port accepts a connection.
pub proof fn lemma_status_cycle(connected: bool, resolves: bool, probe: PortProbe)
    ensures
        (polled_state(connected, resolves, probe) == DeviceState::Connected) <==> connected,
        connected ==> spec_begin_probe(connected) == ProbeStep::Report(DeviceState::Connected),
        (polled_state(connected, resolves, probe) == DeviceState::Offline) <==> (!connected && (
        !resolves || probe == PortProbe::Unreachable)),
        (polled_state(connected, resolves, probe) == DeviceState::Online) <==> (!connected
            && resolves && probe == PortProbe::Refused),
        (polled_state(connected, resolves, probe) == DeviceState::SshReady) <==> (!connected
            && resolves && probe == PortProbe::Open),
{
}

/// One polling cycle: after the wake-ups `ws`, none of which stopped polling, the
/// worker probes the last target it was given. With a session up it publishes
/// `Connected` at once, without a lookup or a connection attempt; otherwise it
/// publishes what the lookup of that host and the probe of that port give.
pub proof fn lemma_monitor_cycle(
    host: Seq<char>,
    port: u16,
    poll_interval: u64,
    ws: Seq<MonitorWakeView>,
    connected: bool,
    resolves: bool,
    probe: PortProbe,
)
    requires
        forall|i: int| 0 <= i < ws.len() ==> keeps_running(#[trigger] ws[i]),
    ensures
        ({
            let s = settings_after(MonitorSettingsView { host, port, poll_interval }, ws);
            (s.host, s.port) == last_target(host, port, ws)
        }),
        connected ==> spec_begin_probe(connected) == ProbeStep::Report(DeviceState::Connected)
            && polled_state(connected, resolves, probe) == DeviceState::Connected,
        !connected ==> spec_begin_probe(connected) == ProbeStep::Resolve && polled_state(
            connected,
            resolves,
            probe,
        ) == (if resolves {
            spec_after_port_check(probe)
        } else {
            DeviceState::Offline
        }),
{
    lemma_polls_last_target(host, port, poll_interval, ws);
}

/// The dashboard's end of the polling worker's two channels.
pub struct MonitorHandle {
    state_rx: Receiver<DeviceState>,
    command_tx: Sender<MonitorCommand>,
}

impl MonitorHandle {
    /// The channel on which the polling worker publishes states.
    pub closed spec fn state_channel(&self) -> Receiver<DeviceState> {
        self.state_rx
    }

    /// The channel on which the polling worker receives commands.
    pub closed spec fn command_channel(&self) -> Sender<MonitorCommand> {
        self.command_tx
    }

    /// The handle that reads states from `state_rx` and sends commands on `command_tx`.
    pub fn new(state_rx: Receiver<DeviceState>, command_tx: Sender<MonitorCommand>) -> (r:
        MonitorHandle)
        ensures
            r.state_channel() == state_rx,
            r.command_channel() == command_tx,
    {
        MonitorHandle { state_rx, command_tx }
    }

    /// The next published state, if one is waiting.
    pub fn recv_state(&self) -> Result<DeviceState, TryRecvError> {
        try_receive(&self.state_rx)
    }

    /// Asks the worker to poll `host:port` from now on.
    pub fn update_host(&self, host: String, port: u16) {
        send_message(&self.command_tx, MonitorCommand::update_request(host, port));
    }

    /// Asks the worker to stop.
    pub fn shutdown(&self) {
        send_message(&self.command_tx, MonitorCommand::Shutdown);
    }
}

} // verus!
