//! The decisions of the dashboard window: what it shows about the two devices, when
//! it connects on its own, how it reacts to the SSH manager's events, and how the
//! settings form is saved. The window itself draws from this state.

use vstd::prelude::*;
use crate::config::Config;
use crate::monitor::DeviceState;
use crate::ssh::{ConnectionParams, ConnectionParamsView, SshEvent, SshEventView, events_view};

verus! {

/// The colours the window uses for texts.
#[derive(Clone, Copy, Debug, PartialEq, Eq, Structural)]
pub enum StatusColor {
    Red,
    Yellow,
    /// The light blue of "SSH Ready".
    Sky,
    Green,
    Gray,
}

/// The colour of a status card: the local device is always green; the remote one is
/// red when offline, yellow when online, light blue when ready for SSH, green when
/// connected.
pub open spec fn spec_status_color(status: DeviceState, is_local: bool) -> StatusColor {
    if is_local {
        StatusColor::Green
    } else {
        match status {
            DeviceState::Offline => StatusColor::Red,
            DeviceState::Online => StatusColor::Yellow,
            DeviceState::SshReady => StatusColor::Sky,
            DeviceState::Connected => StatusColor::Green,
        }
    }
}

pub fn status_color(status: &DeviceState, is_local: bool) -> (r: StatusColor)
    ensures
        r == spec_status_color(*status, is_local),
        is_local ==> r == StatusColor::Green,
        !is_local && *status == DeviceState::Offline ==> r == StatusColor::Red,
        !is_local && *status == DeviceState::Online ==> r == StatusColor::Yellow,
        !is_local && *status == DeviceState::SshReady ==> r == StatusColor::Sky,
        !is_local && *status == DeviceState::Connected ==> r == StatusColor::Green,
{
    if is_local {
        StatusColor::Green
    } else {
        match status {
            DeviceState::Offline => StatusColor::Red,
            DeviceState::Online => StatusColor::Yellow,
            DeviceState::SshReady => StatusColor::Sky,
            DeviceState::Connected => StatusColor::Green,
        }
    }
}

/// The state of the dashboard window.
pub struct Dashboard {
    pub local_status: DeviceState,
    pub remote_status: DeviceState,
    pub auto_connect: bool,
    /// When the last session came up, in seconds since the epoch.
    pub last_connection: Option<u64>,
    pub last_connection_text: String,
    pub show_settings: bool,
    pub cfg: Config,
    /// `"ok"` after a successful save, the error text after a failed one.
    pub save_result: Option<String>,
    /// A session is up. The polling worker reads a copy of this flag.
    pub connected: bool,
    /// A connection that the dashboard started, or a reconnect of the SSH manager, is
    /// under way; auto-connect waits until it ends.
    pub auto_connect_attempted: bool,
}

/// The part of the dashboard that the SSH manager's events change.
pub struct LinkStatus {
    pub connected: bool,
    pub attempted: bool,
    pub remote: DeviceState,
    pub last_connection: Option<u64>,
    pub text: Seq<char>,
}

pub open spec fn link_status(d: Dashboard) -> LinkStatus {
    LinkStatus {
        connected: d.connected,
        attempted: d.auto_connect_attempted,
        remote: d.remote_status,
        last_connection: d.last_connection,
        text: d.last_connection_text@,
    }
}

/// The parts of the dashboard that neither the SSH manager's events nor the polling
/// worker change.
pub open spec fn same_settings(a: Dashboard, b: Dashboard) -> bool {
    &&& a.local_status == b.local_status
    &&& a.auto_connect == b.auto_connect
    &&& a.show_settings == b.show_settings
    &&& a.cfg == b.cfg
    &&& a.save_result == b.save_result
}

/// How one event of the SSH manager, received at time `now`, changes the dashboard.
/// `Connected`: a session is up, just now. `Connecting`: a reconnect is under way,
/// which, like a connection the dashboard started, holds auto-connect back; the remote
/// device is shown connected only once a session is up. `Disconnected`: no session; if
/// the remote device was shown connected, it is shown ready for SSH again and the
/// connection as lost. `Error`: only logged; the Connect button stays available for a manual retry.
pub open spec fn event_effect(s: LinkStatus, e: SshEventView, now: u64) -> LinkStatus {
    match e {
        SshEventView::Connected => LinkStatus {
            connected: true,
            attempted: false,
            remote: DeviceState::Connected,
            last_connection: Some(now),
            text: "Just now"@,
        },
        SshEventView::Connecting { .. } => LinkStatus { attempted: true, ..s },
        SshEventView::Disconnected(_) => if s.remote == DeviceState::Connected {
            LinkStatus {
                connected: false,
                attempted: false,
                remote: DeviceState::SshReady,
                text: "Lost connection"@,
                ..s
            }
        } else {
            LinkStatus { connected: false, attempted: false, ..s }
        },
        SshEventView::Error(_) => s,
    }
}

/// The events applied in order.
pub open spec fn events_effect(s: LinkStatus, es: Seq<SshEventView>, now: u64) -> LinkStatus
    decreases es.len(),
{
    if es.len() == 0 {
        s
    } else {
        event_effect(events_effect(s, es.drop_last(), now), es.last(), now)
    }
}

/// The remote state shown after the polling worker's reports: the last one, if any.
pub open spec fn reported_remote(current: DeviceState, states: Seq<DeviceState>) -> DeviceState {
    if states.len() == 0 {
        current
    } else {
        states.last()
    }
}

/// The session that the settings ask for.
pub open spec fn configured_params(c: Config) -> ConnectionParamsView {
    ConnectionParamsView {
        host: c.remote_host@,
        port: c.port,
        username: c.username@,
        key_path: c.ssh_key_path@,
    }
}

/// Whether the dashboard connects on its own: auto-connect is on, no session is up,
/// no connection it started is under way, and the remote device is ready for SSH.
pub open spec fn wants_auto_connect(d: Dashboard) -> bool {
    link_wants_auto_connect(d.auto_connect, link_status(d))
}

pub open spec fn link_wants_auto_connect(auto_connect: bool, s: LinkStatus) -> bool {
    &&& auto_connect
    &&& !s.connected
    &&& !s.attempted
    &&& s.remote == DeviceState::SshReady
}

/// The dashboard after a frame's auto-connect rule.
pub open spec fn tick_effect(d: Dashboard) -> Dashboard {
    if wants_auto_connect(d) {
        Dashboard { auto_connect_attempted: true, ..d }
    } else {
        d
    }
}

/// The dashboard after taking in the polling worker's reports.
pub open spec fn monitor_effect(d: Dashboard, states: Seq<DeviceState>) -> Dashboard {
    Dashboard { remote_status: reported_remote(d.remote_status, states), ..d }
}

/// A run of frames in which no SSH event arrives and neither Save nor Connect is
/// pressed: each frame takes in the reports of the polling worker, then runs the
/// auto-connect rule. The dashboard afterwards, and how many connections the rule
/// started.
pub open spec fn frames(d: Dashboard, reports: Seq<Seq<DeviceState>>) -> (Dashboard, nat)
    decreases reports.len(),
{
    if reports.len() == 0 {
        (d, 0)
    } else {
        let (p, n) = frames(d, reports.drop_last());
        let m = monitor_effect(p, reports.last());
        (
            tick_effect(m),
            n + if wants_auto_connect(m) {
                1nat
            } else {
                0nat
            },
        )
    }
}

/// However many frames see the remote device ready for SSH, auto-connect starts at
/// most one connection over a run of frames without SSH events, and none if one it
/// started is already under way.
pub proof fn lemma_auto_connect_at_most_once(d: Dashboard, reports: Seq<Seq<DeviceState>>)
    ensures
        frames(d, reports).1 <= 1,
        d.auto_connect_attempted ==> frames(d, reports).1 == 0,
        (frames(d, reports).1 == 1 || d.auto_connect_attempted) ==> frames(
            d,
            reports,
        ).0.auto_connect_attempted,
    decreases reports.len(),
{
    if reports.len() > 0 {
        lemma_auto_connect_at_most_once(d, reports.drop_last());
    }
}

/// Auto-connect fires only for a device that is ready for SSH, and then whenever it is
/// switched on, no session is up and none is under way; a device that is offline,
/// online with its SSH port closed, or already connected never triggers it, and a
/// frame in which it does not fire changes nothing.
pub proof fn lemma_auto_connect_needs_ready(d: Dashboard)
    ensures
        wants_auto_connect(d) ==> d.remote_status == DeviceState::SshReady,
        wants_auto_connect(d) <==> (d.auto_connect && !d.connected && !d.auto_connect_attempted
            && d.remote_status == DeviceState::SshReady),
        d.remote_status != DeviceState::SshReady ==> tick_effect(d) == d,
        wants_auto_connect(d) ==> tick_effect(d).auto_connect_attempted && tick_effect(d).remote_status
            == d.remote_status,
{
}

/// The dashboard shows what the polling worker reported last, whatever that is; with
/// no report it keeps what it showed, and reports change nothing else.
pub proof fn lemma_shows_last_report(d: Dashboard, states: Seq<DeviceState>)
    ensures
        states.len() > 0 ==> monitor_effect(d, states).remote_status == states[states.len() - 1],
        states.len() == 0 ==> monitor_effect(d, states) == d,
        link_status(monitor_effect(d, states)).connected == d.connected,
        monitor_effect(d, states).cfg == d.cfg,
{
}

/// A connection goes to the configured remote: the configured host, port, user name
/// and key path, whatever they are.
pub proof fn lemma_connects_to_configured(c: Config)
    ensures
        configured_params(c).host == c.remote_host@,
        configured_params(c).port == c.port,
        configured_params(c).username == c.username@,
        configured_params(c).key_path == c.ssh_key_path@,
{
}

/// The local card is green whatever its state; the remote card is red when offline,
/// yellow when online, light blue when ready for SSH and green when connected, so the
/// four remote states are told apart except that connected matches the local card.
pub proof fn lemma_status_colors(status: DeviceState)
    ensures
        spec_status_color(status, true) == StatusColor::Green,
        spec_status_color(DeviceState::Offline, false) == StatusColor::Red,
        spec_status_color(DeviceState::Online, false) == StatusColor::Yellow,
        spec_status_color(DeviceState::SshReady, false) == StatusColor::Sky,
        spec_status_color(DeviceState::Connected, false) == StatusColor::Green,
        spec_status_color(status, false) == StatusColor::Green <==> status == DeviceState::Connected,
{
}

/// Auto-connect starts at most one connection at a time: right after a frame's rule
/// has run, the rule does not fire again.
pub proof fn lemma_auto_connect_once(d: Dashboard)
    ensures
        !wants_auto_connect(tick_effect(d)),
        tick_effect(tick_effect(d)) == tick_effect(d),
{
}

/// Only the end of a connection re-arms auto-connect: once a connection is under way,
/// `Connecting` and `Error` events leave it under way, while `Connected` and
/// `Disconnected` end it.
pub proof fn lemma_rearm_only_on_outcome(s: LinkStatus, e: SshEventView, now: u64)
    requires
        s.attempted,
    ensures
        !event_effect(s, e, now).attempted <==> (e is Connected || e is Disconnected),
{
}

/// A lost connection is retried on the dashboard's own initiative: when a session
/// that was shown connected ends and auto-connect is on, the dashboard shows the device
/// ready for SSH and its next frame starts a connection.
pub proof fn lemma_lost_connection_rearms_auto_connect(d: Dashboard, reason: Seq<char>, now: u64)
    requires
        d.auto_connect,
        d.remote_status == DeviceState::Connected,
    ensures
        ({
            let s = event_effect(link_status(d), SshEventView::Disconnected(reason), now);
            &&& s.remote == DeviceState::SshReady
            &&& !s.connected
            &&& s.text == "Lost connection"@
            &&& !s.attempted
            &&& link_wants_auto_connect(d.auto_connect, s)
        }),
{
}

/// Whether the Connect button is enabled: the remote device is ready and no session
/// is up.
pub open spec fn spec_connect_enabled(d: Dashboard) -> bool {
    d.remote_status == DeviceState::SshReady && !d.connected
}

/// Whether the Disconnect button is enabled: a session is up.
pub open spec fn spec_disconnect_enabled(d: Dashboard) -> bool {
    d.connected
}

/// The Connect and Disconnect buttons are never enabled together.
pub proof fn lemma_buttons_exclusive(d: Dashboard)
    ensures
        !(spec_connect_enabled(d) && spec_disconnect_enabled(d)),
{
}

impl Dashboard {
    /// The window as it opens with the given settings: the local device online, the
    /// remote one offline, no connection yet.
    pub fn new(cfg: Config) -> (r: Dashboard)
        ensures
            r.local_status == DeviceState::Online,
            r.remote_status == DeviceState::Offline,
            r.auto_connect == cfg.auto_connect,
            r.last_connection is None,
            r.last_connection_text@ == "Never"@,
            !r.show_settings,
            r.cfg == cfg,
            r.save_result is None,
            !r.connected,
            !r.auto_connect_attempted,
    {
        let auto_connect = cfg.auto_connect;
        Dashboard {
            local_status: DeviceState::Online,
            remote_status: DeviceState::Offline,
            auto_connect,
            last_connection: None,
            last_connection_text: String::from_str("Never"),
            show_settings: false,
            cfg,
            save_result: None,
            connected: false,
            auto_connect_attempted: false,
        }
    }

    /// Takes in the states the polling worker published since the last frame.
    pub fn poll_monitor(&mut self, states: &Vec<DeviceState>)
        ensures
            *final(self) == monitor_effect(*old(self), states@),
            states@.len() > 0 ==> final(self).remote_status == states@[states@.len() - 1],
            states@.len() == 0 ==> *final(self) == *old(self),
            *final(self) == (Dashboard { remote_status: final(self).remote_status, ..*old(self) }),
    {
        if states.len() > 0 {
            self.remote_status = states[states.len() - 1];
        }
    }

    /// Takes in one event of the SSH manager, received at time `now`.
    pub fn apply_ssh_event(&mut self, event: &SshEvent, now: u64)
        ensures
            link_status(*final(self)) == event_effect(link_status(*old(self)), event@, now),
            same_settings(*old(self), *final(self)),
    {
        match event {
            SshEvent::Connected => {
                self.connected = true;
                self.auto_connect_attempted = false;
                self.remote_status = DeviceState::Connected;
                self.last_connection = Some(now);
                self.last_connection_text = String::from_str("Just now");
            },
            SshEvent::Connecting { .. } => {
                self.auto_connect_attempted = true;
            },
            SshEvent::Disconnected(_) => {
                self.connected = false;
                self.auto_connect_attempted = false;
                if self.remote_status == DeviceState::Connected {
                    self.remote_status = DeviceState::SshReady;
                    self.last_connection_text = String::from_str("Lost connection");
                }
            },
            SshEvent::Error(_) => {},
        }
    }

    /// Takes in, in order, the events the SSH manager sent since the last frame.
    pub fn poll_ssh_events(&mut self, events: &Vec<SshEvent>, now: u64)
        ensures
            link_status(*final(self)) == events_effect(
                link_status(*old(self)),
                events_view(events@),
                now,
            ),
            same_settings(*old(self), *final(self)),
    {
        let ghost start = *self;
        let mut i: usize = 0;
        while i < events.len()
            invariant
                i <= events.len(),
                link_status(*self) == events_effect(
                    link_status(start),
                    events_view(events@).take(i as int),
                    now,
                ),
                same_settings(start, *self),
            decreases events.len() - i,
        {
            self.apply_ssh_event(&events[i], now);
            proof {
                let es = events_view(events@);
                assert(es.take(i + 1).drop_last() =~= es.take(i as int));
                assert(es.take(i + 1).last() == events@[i as int]@);
            }
            i = i + 1;
        }
        proof {
            assert(events_view(events@).take(events.len() as int) =~= events_view(events@));
        }
    }

    /// The session that the settings ask for.
    pub fn connection_params(&self) -> (r: ConnectionParams)
        ensures
            r@ == configured_params(self.cfg),
            r.host@ == self.cfg.remote_host@,
            r.port == self.cfg.port,
            r.username@ == self.cfg.username@,
            r.key_path@ == self.cfg.ssh_key_path@,
    {
        ConnectionParams {
            host: self.cfg.remote_host.clone(),
            port: self.cfg.port,
            username: self.cfg.username.clone(),
            key_path: self.cfg.ssh_key_path.clone(),
        }
    }

    /// Starts a connection on the dashboard's own initiative: marks it under way and
    /// returns what to connect to. The remote device is shown connected only once the
    /// session is up.
    pub fn initiate_connection(&mut self) -> (r: ConnectionParams)
        ensures
            r@ == configured_params(old(self).cfg),
            *final(self) == (Dashboard { auto_connect_attempted: true, ..*old(self) }),
    {
        self.auto_connect_attempted = true;
        self.connection_params()
    }

    /// The per-frame rule: connect on the dashboard's own initiative when
    /// `wants_auto_connect` holds, returning what to connect to; otherwise nothing.
    pub fn tick(&mut self) -> (r: Option<ConnectionParams>)
        ensures
            *final(self) == tick_effect(*old(self)),
            wants_auto_connect(*old(self)) ==> r is Some && r->0@ == configured_params(
                old(self).cfg,
            ),
            !wants_auto_connect(*old(self)) ==> r is None,
            r is Some <==> (old(self).auto_connect && !old(self).connected
                && !old(self).auto_connect_attempted && old(self).remote_status
                == DeviceState::SshReady),
            r is Some ==> {
                &&& r->0.host@ == old(self).cfg.remote_host@
                &&& r->0.port == old(self).cfg.port
                &&& r->0.username@ == old(self).cfg.username@
                &&& r->0.key_path@ == old(self).cfg.ssh_key_path@
                &&& *final(self) == (Dashboard { auto_connect_attempted: true, ..*old(self) })
            },
            r is None ==> *final(self) == *old(self),
    {
        if self.auto_connect && !self.connected && !self.auto_connect_attempted
            && self.remote_status == DeviceState::SshReady {
            Some(self.initiate_connection())
        } else {
            None
        }
    }

    /// The Connect button is enabled when the remote device is ready and no session
    /// is up.
    pub fn connect_enabled(&self) -> (r: bool)
        ensures
            r == spec_connect_enabled(*self),
    {
        self.remote_status == DeviceState::SshReady && !self.connected
    }

    /// The Disconnect button is enabled while a session is up.
    pub fn disconnect_enabled(&self) -> (r: bool)
        ensures
            r == spec_disconnect_enabled(*self),
    {
        self.connected
    }

    /// The auto-connect line of the dashboard and its colour.
    pub fn auto_connect_banner(&self) -> (r: (&'static str, StatusColor))
        ensures
            self.auto_connect ==> r.0@ == "Auto-Connect: Enabled"@ && r.1 == StatusColor::Green,
            !self.auto_connect ==> r.0@ == "Auto-Connect: Disabled"@ && r.1 == StatusColor::Gray,
    {
        if self.auto_connect {
            ("Auto-Connect: Enabled", StatusColor::Green)
        } else {
            ("Auto-Connect: Disabled", StatusColor::Gray)
        }
    }

    /// Opens the settings form, forgetting the outcome of the last save.
    pub fn open_settings(&mut self)
        ensures
            *final(self) == (Dashboard { show_settings: true, save_result: None, ..*old(self) }),
    {
        self.show_settings = true;
        self.save_result = None;
    }

    /// Leaves the settings form.
    pub fn cancel_settings(&mut self)
        ensures
            *final(self) == (Dashboard { show_settings: false, ..*old(self) }),
    {
        self.show_settings = false;
    }

    /// Records a press of Save, given the outcome of writing the settings: auto-connect
    /// follows the form either way. On success the outcome reads `"ok"`, the dashboard
    /// may connect on its own again, and the host and port for the polling worker are
    /// returned; on failure the outcome is the error text and nothing is returned.
    pub fn record_save(&mut self, outcome: Result<(), String>) -> (r: Option<(String, u16)>)
        ensures
            *final(self) == (Dashboard {
                auto_connect: old(self).cfg.auto_connect,
                save_result: final(self).save_result,
                auto_connect_attempted: final(self).auto_connect_attempted,
                ..*old(self)
            }),
            match outcome {
                Ok(()) => {
                    &&& final(self).save_result matches Some(m) && m@ == "ok"@
                    &&& !final(self).auto_connect_attempted
                    &&& r matches Some((h, p)) && h@ == old(self).cfg.remote_host@ && p
                        == old(self).cfg.port
                },
                Err(e) => {
                    &&& final(self).save_result matches Some(m) && m@ == e@
                    &&& final(self).auto_connect_attempted == old(self).auto_connect_attempted
                    &&& r is None
                },
            },
    {
        self.auto_connect = self.cfg.auto_connect;
        match outcome {
            Ok(()) => {
                self.save_result = Some(String::from_str("ok"));
                self.auto_connect_attempted = false;
                Some((self.cfg.remote_host.clone(), self.cfg.port))
            },
            Err(e) => {
                self.save_result = Some(e);
                None
            },
        }
    }

    /// What the last press of Save asks of launch at login: after a successful save,
    /// switch it on or off as the form says; after a failed one, or before any save,
    /// leave it alone.
    pub fn autostart_after_save(&self) -> (r: Option<bool>)
        ensures
            match self.save_result {
                Some(m) => if m@ == "ok"@ {
                    r == Some(self.cfg.start_on_boot)
                } else {
                    r is None
                },
                None => r is None,
            },
    {
        match &self.save_result {
            None => None,
            Some(m) => {
                let ok = String::from_str("ok");
                if m.eq(&ok) {
                    Some(self.cfg.start_on_boot)
                } else {
                    None
                }
            },
        }
    }

    /// The line under the settings form: "Config saved." in green after a successful
    /// save, the error text in red after a failed one, nothing before any save.
    pub fn save_message(&self) -> (r: Option<(String, StatusColor)>)
        ensures
            match self.save_result {
                None => r is None,
                Some(m) => if m@ == "ok"@ {
                    r matches Some((t, c)) && t@ == "Config saved."@ && c == StatusColor::Green
                } else {
                    r matches Some((t, c)) && t@ == m@ && c == StatusColor::Red
                },
            },
    {
        match &self.save_result {
            None => None,
            Some(m) => {
                let ok = String::from_str("ok");
                if m.eq(&ok) {
                    Some((String::from_str("Config saved."), StatusColor::Green))
                } else {
                    Some((m.clone(), StatusColor::Red))
                }
            },
        }
    }
}

} // verus!
