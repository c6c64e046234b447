//! The SSH session manager: the commands and events exchanged with the dashboard,
//! the decisions of the manager worker (connect, keep the session alive, check its
//! health every thirty seconds, notice a lost session, reconnect with exponential
//! backoff), and the dashboard's handle on the worker.

use vstd::prelude::*;
use std::sync::mpsc::{Receiver, Sender, TryRecvError};
use crate::channel::{send_message, try_receive};

verus! {

/// Where and as whom to open a session.
pub struct ConnectionParams {
    pub host: String,
    pub port: u16,
    pub username: String,
    pub key_path: String,
}

pub struct ConnectionParamsView {
    pub host: Seq<char>,
    pub port: u16,
    pub username: Seq<char>,
    pub key_path: Seq<char>,
}

impl View for ConnectionParams {
    type V = ConnectionParamsView;

    open spec fn view(&self) -> ConnectionParamsView {
        ConnectionParamsView {
            host: self.host@,
            port: self.port,
            username: self.username@,
            key_path: self.key_path@,
        }
    }
}

impl ConnectionParams {
    pub fn duplicate(&self) -> (r: ConnectionParams)
        ensures
            r@ == self@,
    {
        ConnectionParams {
            host: self.host.clone(),
            port: self.port,
            username: self.username.clone(),
            key_path: self.key_path.clone(),
        }
    }
}

/// Requests from the dashboard to the manager worker.
pub enum SshCommand {
    Connect { host: String, port: u16, username: String, key_path: String },
    Disconnect,
    Shutdown,
}

pub enum SshCommandView {
    Connect(ConnectionParamsView),
    Disconnect,
    Shutdown,
}

impl View for SshCommand {
    type V = SshCommandView;

    open spec fn view(&self) -> SshCommandView {
        match self {
            SshCommand::Connect { host, port, username, key_path } => SshCommandView::Connect(
                ConnectionParamsView {
                    host: host@,
                    port: *port,
                    username: username@,
                    key_path: key_path@,
                },
            ),
            SshCommand::Disconnect => SshCommandView::Disconnect,
            SshCommand::Shutdown => SshCommandView::Shutdown,
        }
    }
}

impl SshCommand {
    /// The request to connect as `username` to `host:port` with the key at `key_path`.
    pub fn connect_request(host: String, port: u16, username: String, key_path: String) -> (r:
        SshCommand)
        ensures
            r@ == SshCommandView::Connect(
                ConnectionParamsView { host: host@, port, username: username@, key_path: key_path@ },
            ),
    {
        SshCommand::Connect { host, port, username, key_path }
    }
}

/// Notifications from the manager worker to the dashboard.
#[derive(Debug)]
pub enum SshEvent {
    /// A session is up.
    Connected,
    /// A lost session will be reopened: attempt number `attempt` starts in `delay_secs`.
    Connecting { attempt: u32, delay_secs: u64 },
    /// The session ended, for the given reason.
    Disconnected(String),
    /// A requested connection could not be opened.
    Error(String),
}

pub enum SshEventView {
    Connected,
    Connecting { attempt: u32, delay_secs: u64 },
    Disconnected(Seq<char>),
    Error(Seq<char>),
}

impl View for SshEvent {
    type V = SshEventView;

    open spec fn view(&self) -> SshEventView {
        match self {
            SshEvent::Connected => SshEventView::Connected,
            SshEvent::Connecting { attempt, delay_secs } => SshEventView::Connecting {
                attempt: *attempt,
                delay_secs: *delay_secs,
            },
            SshEvent::Disconnected(r) => SshEventView::Disconnected(r@),
            SshEvent::Error(e) => SshEventView::Error(e@),
        }
    }
}

pub open spec fn events_view(v: Seq<SshEvent>) -> Seq<SshEventView> {
    v.map_values(|e: SshEvent| e@)
}

/// What the manager worker hands to `SshManager::step`.
pub enum SshInput {
    /// A command arrived from the dashboard.
    Command(SshCommand),
    /// One tick (`SSH_TICK_MILLIS`) passed without a command.
    Idle,
    /// Every sender of commands is gone.
    ChannelClosed,
    /// Answer to `SshAction::Probe`: whether the current session still runs a command.
    Probed(bool),
    /// Answer to `SshAction::Open`: the new session is up, or why it could not be opened.
    Opened(Result<(), String>),
}

pub enum SshInputView {
    Command(SshCommandView),
    Idle,
    ChannelClosed,
    Probed(bool),
    Opened(Result<(), Seq<char>>),
}

impl View for SshInput {
    type V = SshInputView;

    open spec fn view(&self) -> SshInputView {
        match self {
            SshInput::Command(c) => SshInputView::Command(c@),
            SshInput::Idle => SshInputView::Idle,
            SshInput::ChannelClosed => SshInputView::ChannelClosed,
            SshInput::Probed(b) => SshInputView::Probed(*b),
            SshInput::Opened(r) => SshInputView::Opened(
                match r {
                    Ok(()) => Ok(()),
                    Err(e) => Err(e@),
                },
            ),
        }
    }
}

/// What the manager worker must do after a step.
pub enum SshAction {
    /// Wait for the next command, at most one tick.
    Wait,
    /// Check that the current session still runs a command; answer with `Probed`.
    Probe,
    /// Open a session with these parameters (replacing the current one on success);
    /// answer with `Opened`.
    Open(ConnectionParams),
    /// Send a keepalive on the current session (the session itself decides whether
    /// one is due), then wait.
    Keepalive,
    /// Disconnect the current session with this description, drop it, then wait.
    Close(String),
    /// Drop the current (dead) session, then wait.
    Discard,
    /// Disconnect the current session with the description, if one is given; then end.
    Stop(Option<String>),
}

pub enum SshActionView {
    Wait,
    Probe,
    Open(ConnectionParamsView),
    Keepalive,
    Close(Seq<char>),
    Discard,
    Stop(Option<Seq<char>>),
}

impl View for SshAction {
    type V = SshActionView;

    open spec fn view(&self) -> SshActionView {
        match self {
            SshAction::Wait => SshActionView::Wait,
            SshAction::Probe => SshActionView::Probe,
            SshAction::Open(p) => SshActionView::Open(p@),
            SshAction::Keepalive => SshActionView::Keepalive,
            SshAction::Close(d) => SshActionView::Close(d@),
            SshAction::Discard => SshActionView::Discard,
            SshAction::Stop(d) => SshActionView::Stop(
                match d {
                    Some(s) => Some(s@),
                    None => None,
                },
            ),
        }
    }
}

/// The request of the manager that the next input answers, if any.
#[derive(Clone, Copy, Debug, PartialEq, Eq, Structural)]
pub enum Pending {
    Nothing,
    /// A `Connect` found a session: is it alive?
    ConnectProbe,
    /// The periodic health check of the held session: is it alive?
    IdleProbe,
    /// A `Connect` asked for a new session.
    UserOpen,
    /// A reconnect asked for a new session: a scheduled one that became due, or a
    /// `Connect` that arrived while one was scheduled, which starts it at once.
    RetryOpen,
}

/// A scheduled reconnect: its attempt number and the ticks left before it starts.
#[derive(Clone, Copy, Debug, PartialEq, Eq, Structural)]
pub struct Retry {
    pub attempt: u32,
    pub ticks_left: u64,
}

/// How long the manager worker waits for a command before an `Idle` input.
pub const SSH_TICK_MILLIS: u64 = 500;

/// Ticks between two health checks of a held session: thirty seconds.
pub const HEALTH_CHECK_TICKS: u64 = 60;

/// Seconds to wait before reconnect attempt `attempt`: 1, 2, 4, 8, 16, 32, then 60.
pub open spec fn backoff_secs(attempt: nat) -> nat
    decreases attempt,
{
    if attempt <= 1 {
        1
    } else {
        let d = 2 * backoff_secs((attempt - 1) as nat);
        if d > 60 {
            60
        } else {
            d
        }
    }
}

/// Ticks of `SSH_TICK_MILLIS` in a delay of `secs` seconds.
pub open spec fn ticks_for(secs: nat) -> nat {
    secs * (1000u64 / SSH_TICK_MILLIS) as nat
}

pub open spec fn schedule(attempt: u32) -> Retry {
    Retry { attempt, ticks_left: ticks_for(backoff_secs(attempt as nat)) as u64 }
}

pub open spec fn next_attempt(attempt: u32) -> u32 {
    if attempt < u32::MAX {
        (attempt + 1) as u32
    } else {
        attempt
    }
}

pub struct SshManagerView {
    /// A session is held (alive or not).
    pub session: bool,
    /// What to reconnect to when the session is lost; set by `Connect`, cleared by
    /// `Disconnect` and `Shutdown`.
    pub target: Option<ConnectionParamsView>,
    pub retry: Option<Retry>,
    pub pending: Pending,
    /// Ticks since the held session was last checked.
    pub since_check: u64,
}

pub open spec fn manager_wf(s: SshManagerView) -> bool {
    &&& (s.pending == Pending::ConnectProbe || s.pending == Pending::IdleProbe) ==> s.session
    &&& (s.pending == Pending::ConnectProbe || s.pending == Pending::UserOpen || s.pending
        == Pending::RetryOpen) ==> s.target is Some
    &&& s.pending == Pending::RetryOpen ==> s.retry is Some
    &&& s.pending == Pending::UserOpen ==> s.retry is None
    &&& s.retry matches Some(r) ==> r.attempt >= 1 && !s.session && s.target is Some
    &&& s.since_check < HEALTH_CHECK_TICKS
}

/// One step of the manager worker: the next state, what the worker must do, and the
/// events it must send to the dashboard, in order.
pub open spec fn ssh_transition(s: SshManagerView, i: SshInputView) -> (
    SshManagerView,
    SshActionView,
    Seq<SshEventView>,
) {
    let ignore = (s, SshActionView::Wait, Seq::<SshEventView>::empty());
    match s.pending {
        Pending::Nothing => match i {
            SshInputView::Command(SshCommandView::Connect(p)) => if s.session {
                (
                    SshManagerView {
                        target: Some(p),
                        retry: None,
                        pending: Pending::ConnectProbe,
                        ..s
                    },
                    SshActionView::Probe,
                    seq![],
                )
            } else if s.retry is Some {
                (
                    SshManagerView { target: Some(p), pending: Pending::RetryOpen, ..s },
                    SshActionView::Open(p),
                    seq![],
                )
            } else {
                (
                    SshManagerView { target: Some(p), retry: None, pending: Pending::UserOpen, ..s },
                    SshActionView::Open(p),
                    seq![],
                )
            },
            SshInputView::Command(SshCommandView::Disconnect) => if s.session {
                (
                    SshManagerView { session: false, target: None, retry: None, ..s },
                    SshActionView::Close("Client disconnect"@),
                    seq![SshEventView::Disconnected("Disconnected by user"@)],
                )
            } else {
                (SshManagerView { target: None, retry: None, ..s }, SshActionView::Wait, seq![])
            },
            SshInputView::Command(SshCommandView::Shutdown) => (
                SshManagerView {
                    session: false,
                    target: None,
                    retry: None,
                    pending: Pending::Nothing,
                    since_check: 0,
                },
                SshActionView::Stop(
                    if s.session {
                        Some("Shutdown"@)
                    } else {
                        None
                    },
                ),
                seq![SshEventView::Disconnected("Shutdown"@)],
            ),
            SshInputView::Idle => if s.session {
                if s.since_check + 1 >= HEALTH_CHECK_TICKS {
                    (
                        SshManagerView { pending: Pending::IdleProbe, since_check: 0, ..s },
                        SshActionView::Probe,
                        seq![],
                    )
                } else {
                    (
                        SshManagerView { since_check: (s.since_check + 1) as u64, ..s },
                        SshActionView::Keepalive,
                        seq![],
                    )
                }
            } else {
                match s.retry {
                    Some(r) => if r.ticks_left > 1 {
                        (
                            SshManagerView {
                                retry: Some(
                                    Retry { attempt: r.attempt, ticks_left: (r.ticks_left - 1) as u64 },
                                ),
                                ..s
                            },
                            SshActionView::Wait,
                            seq![],
                        )
                    } else {
                        (
                            SshManagerView { pending: Pending::RetryOpen, ..s },
                            SshActionView::Open(s.target.unwrap()),
                            seq![],
                        )
                    },
                    None => ignore,
                }
            },
            SshInputView::ChannelClosed => (s, SshActionView::Stop(None), seq![]),
            _ => ignore,
        },
        Pending::ConnectProbe => match i {
            SshInputView::Probed(alive) => if alive {
                (
                    SshManagerView { pending: Pending::Nothing, ..s },
                    SshActionView::Wait,
                    seq![SshEventView::Connected],
                )
            } else {
                (
                    SshManagerView { pending: Pending::UserOpen, ..s },
                    SshActionView::Open(s.target.unwrap()),
                    seq![],
                )
            },
            _ => ignore,
        },
        Pending::IdleProbe => match i {
            SshInputView::Probed(alive) => if alive {
                (SshManagerView { pending: Pending::Nothing, ..s }, SshActionView::Keepalive, seq![])
            } else if s.target is Some {
                (
                    SshManagerView {
                        session: false,
                        retry: Some(schedule(1)),
                        pending: Pending::Nothing,
                        ..s
                    },
                    SshActionView::Discard,
                    seq![
                        SshEventView::Disconnected("Session lost"@),
                        SshEventView::Connecting { attempt: 1, delay_secs: 1 },
                    ],
                )
            } else {
                (
                    SshManagerView { session: false, pending: Pending::Nothing, ..s },
                    SshActionView::Discard,
                    seq![SshEventView::Disconnected("Session lost"@)],
                )
            },
            _ => ignore,
        },
        Pending::UserOpen => match i {
            SshInputView::Opened(Ok(())) => (
                SshManagerView { session: true, pending: Pending::Nothing, since_check: 0, ..s },
                SshActionView::Wait,
                seq![SshEventView::Connected],
            ),
            SshInputView::Opened(Err(e)) => (
                SshManagerView { pending: Pending::Nothing, ..s },
                SshActionView::Wait,
                seq![SshEventView::Error("Connection failed: "@ + e)],
            ),
            _ => ignore,
        },
        Pending::RetryOpen => match i {
            SshInputView::Opened(Ok(())) => (
                SshManagerView {
                    session: true,
                    retry: None,
                    pending: Pending::Nothing,
                    since_check: 0,
                    ..s
                },
                SshActionView::Wait,
                seq![SshEventView::Connected],
            ),
            SshInputView::Opened(Err(_)) => {
                let n = next_attempt(s.retry.unwrap().attempt);
                (
                    SshManagerView { retry: Some(schedule(n)), pending: Pending::Nothing, ..s },
                    SshActionView::Wait,
                    seq![
                        SshEventView::Connecting {
                            attempt: n,
                            delay_secs: backoff_secs(n as nat) as u64,
                        },
                    ],
                )
            },
            _ => ignore,
        },
    }
}

/// The reconnect delays double from one second and stop growing at a minute:
/// 1, 2, 4, 8, 16, 32, then 60 seconds for every later attempt.
pub proof fn lemma_backoff_schedule(n: nat)
    ensures
        backoff_secs(1) == 1,
        backoff_secs(2) == 2,
        backoff_secs(3) == 4,
        backoff_secs(4) == 8,
        backoff_secs(5) == 16,
        backoff_secs(6) == 32,
        n >= 7 ==> backoff_secs(n) == 60,
{
    reveal_with_fuel(backoff_secs, 8);
    if n >= 7 {
        lemma_backoff_saturates(7, n);
    }
}

/// Once a delay reaches the cap, every later delay is the cap.
pub proof fn lemma_backoff_saturates(m: nat, n: nat)
    requires
        m <= n,
        backoff_secs(m) == 60,
    ensures
        backoff_secs(n) == 60,
    decreases n - m,
{
    if m < n {
        lemma_backoff_saturates(m, (n - 1) as nat);
    }
}

/// Every delay is between one second and a minute.
pub proof fn lemma_backoff_bounds(n: nat)
    ensures
        1 <= backoff_secs(n) <= 60,
    decreases n,
{
    if n > 1 {
        lemma_backoff_bounds((n - 1) as nat);
    }
}

/// Later attempts never wait less than earlier ones.
pub proof fn lemma_backoff_monotone(m: nat, n: nat)
    requires
        m <= n,
    ensures
        backoff_secs(m) <= backoff_secs(n),
    decreases n - m,
{
    if m < n {
        lemma_backoff_monotone(m, (n - 1) as nat);
        lemma_backoff_bounds((n - 1) as nat);
    }
}

/// Seconds to wait before reconnect attempt `attempt`.
pub fn backoff_delay(attempt: u32) -> (r: u64)
    ensures
        r == backoff_secs(attempt as nat),
{
    let mut d: u64 = 1;
    let mut i: u32 = 1;
    while i < attempt && d < 60
        invariant
            1 <= i,
            attempt >= 1 ==> i <= attempt,
            attempt == 0 ==> i == 1,
            d == backoff_secs(i as nat),
            d <= 60,
        decreases attempt - i,
    {
        d = if d * 2 > 60 {
            60
        } else {
            d * 2
        };
        i = i + 1;
    }
    proof {
        if attempt == 0 {
            assert(backoff_secs(0) == 1);
        } else if d >= 60 {
            lemma_backoff_saturates(i as nat, attempt as nat);
        }
    }
    d
}

fn next_attempt_exec(attempt: u32) -> (r: u32)
    ensures
        r == next_attempt(attempt),
{
    if attempt < u32::MAX {
        attempt + 1
    } else {
        attempt
    }
}

fn schedule_exec(attempt: u32) -> (r: Retry)
    ensures
        r == schedule(attempt),
{
    let d = backoff_delay(attempt);
    proof {
        lemma_backoff_bounds(attempt as nat);
    }
    Retry { attempt, ticks_left: d * (1000 / SSH_TICK_MILLIS) }
}

/// The state after `k` idle ticks without commands.
pub open spec fn after_idle_ticks(s: SshManagerView, k: nat) -> SshManagerView
    decreases k,
{
    if k == 0 {
        s
    } else {
        ssh_transition(after_idle_ticks(s, (k - 1) as nat), SshInputView::Idle).0
    }
}

/// Every step keeps the manager's invariant.
pub proof fn lemma_step_keeps_wf(s: SshManagerView, i: SshInputView)
    requires
        manager_wf(s),
    ensures
        manager_wf(ssh_transition(s, i).0),
{
}

/// A `Shutdown` command always ends the worker: it closes the session if there is
/// one, tells the dashboard `Disconnected("Shutdown")`, and forgets any reconnect.
pub proof fn lemma_shutdown_stops(s: SshManagerView)
    requires
        s.pending == Pending::Nothing,
    ensures
        ({
            let (n, a, e) = ssh_transition(s, SshInputView::Command(SshCommandView::Shutdown));
            &&& a is Stop
            &&& (a->Stop_0 is Some <==> s.session)
            &&& e == seq![SshEventView::Disconnected("Shutdown"@)]
            &&& !n.session && n.target is None && n.retry is None
        }),
{
}

/// The dashboard is told `Connected` only when a session is held afterwards.
pub proof fn lemma_connected_means_session(s: SshManagerView, i: SshInputView)
    requires
        manager_wf(s),
    ensures
        ssh_transition(s, i).2.contains(SshEventView::Connected) ==> ssh_transition(s, i).0.session,
{
    let e = ssh_transition(s, i).2;
    if e.contains(SshEventView::Connected) {
        let k = choose|k: int| 0 <= k < e.len() && e[k] == SshEventView::Connected;
        assert(e[k] == SshEventView::Connected);
    }
}

proof fn lemma_idle_countdown(s: SshManagerView, k: nat)
    requires
        manager_wf(s),
        s.pending == Pending::Nothing,
        !s.session,
        s.retry is Some,
        k < s.retry->0.ticks_left,
    ensures
        after_idle_ticks(s, k) == (SshManagerView {
            retry: Some(
                Retry {
                    attempt: s.retry->0.attempt,
                    ticks_left: (s.retry->0.ticks_left - k) as u64,
                },
            ),
            ..s
        }),
    decreases k,
{
    if k > 0 {
        lemma_idle_countdown(s, (k - 1) as nat);
    }
}

/// A scheduled reconnect starts after exactly its delay: with `t` ticks left, the
/// first `t - 1` idle ticks only count down, and the next one opens a session to the
/// remembered target.
pub proof fn lemma_reconnect_after_delay(s: SshManagerView, k: nat)
    requires
        manager_wf(s),
        s.pending == Pending::Nothing,
        !s.session,
        s.retry is Some,
        s.retry->0.ticks_left >= 1,
        k <= s.retry->0.ticks_left - 1,
    ensures
        k < s.retry->0.ticks_left - 1 ==> ssh_transition(after_idle_ticks(s, k), SshInputView::Idle).1
            == SshActionView::Wait,
        k == s.retry->0.ticks_left - 1 ==> ({
            let (n, a, e) = ssh_transition(after_idle_ticks(s, k), SshInputView::Idle);
            &&& a == SshActionView::Open(s.target->0)
            &&& n.pending == Pending::RetryOpen
            &&& e.len() == 0
        }),
{
    lemma_idle_countdown(s, k);
}

proof fn lemma_keepalive_count(s: SshManagerView, k: nat)
    requires
        manager_wf(s),
        s.pending == Pending::Nothing,
        s.session,
        s.since_check + k < HEALTH_CHECK_TICKS,
    ensures
        after_idle_ticks(s, k) == (SshManagerView { since_check: (s.since_check + k) as u64, ..s }),
    decreases k,
{
    if k > 0 {
        lemma_keepalive_count(s, (k - 1) as nat);
    }
}

/// A held session is checked every thirty seconds: from `c` ticks since the last
/// check, the next `HEALTH_CHECK_TICKS - 1 - c` idle ticks only send keepalives and the
/// one after them checks the session.
pub proof fn lemma_health_check_period(s: SshManagerView, k: nat)
    requires
        manager_wf(s),
        s.pending == Pending::Nothing,
        s.session,
        s.since_check + k < HEALTH_CHECK_TICKS,
    ensures
        s.since_check + k + 1 < HEALTH_CHECK_TICKS ==> ssh_transition(
            after_idle_ticks(s, k),
            SshInputView::Idle,
        ).1 == SshActionView::Keepalive,
        s.since_check + k + 1 == HEALTH_CHECK_TICKS ==> ({
            let (n, a, e) = ssh_transition(after_idle_ticks(s, k), SshInputView::Idle);
            &&& a == SshActionView::Probe
            &&& n.pending == Pending::IdleProbe
            &&& n.since_check == 0
            &&& e.len() == 0
        }),
{
    lemma_keepalive_count(s, k);
}

/// Reconnecting is given up only by the user: while a reconnect is scheduled or under
/// way, every step keeps it so, unless the step is a `Disconnect` or a `Shutdown`, or it
/// brings a session up and tells the dashboard `Connected`. A `Connect` that arrives
/// meanwhile starts the next attempt at once; if that attempt fails, the backoff goes
/// on instead of ending in an error.
pub proof fn lemma_reconnect_persists(s: SshManagerView, i: SshInputView)
    requires
        manager_wf(s),
        s.retry is Some,
    ensures
        ({
            let (n, a, e) = ssh_transition(s, i);
            ||| n.retry is Some
            ||| i == SshInputView::Command(SshCommandView::Disconnect)
            ||| i == SshInputView::Command(SshCommandView::Shutdown)
            ||| n.session && e == seq![SshEventView::Connected]
        }),
        !(ssh_transition(s, i).2.len() > 0 && ssh_transition(s, i).2[0] is Error),
{
}

/// A `Connect` opens the session it asks for: with no session held and nothing
/// pending, it answers `Open` with the requested parameters, whether or not a reconnect
/// to an earlier target is scheduled, and the requested parameters become the target
/// of later reconnects. With a session held it first checks it; if the check fails,
/// again the requested parameters are opened.
pub proof fn lemma_connect_opens_requested(s: SshManagerView, p: ConnectionParamsView)
    requires
        manager_wf(s),
        s.pending == Pending::Nothing,
    ensures
        !s.session ==> ({
            let (n, a, e) = ssh_transition(s, SshInputView::Command(SshCommandView::Connect(p)));
            &&& a == SshActionView::Open(p)
            &&& n.target == Some(p)
            &&& e.len() == 0
        }),
        s.session ==> ({
            let (n, a, e) = ssh_transition(s, SshInputView::Command(SshCommandView::Connect(p)));
            &&& a == SshActionView::Probe
            &&& n.target == Some(p)
            &&& ssh_transition(n, SshInputView::Probed(false)).1 == SshActionView::Open(p)
        }),
{
}

/// A failed reconnect schedules the next attempt one number higher, announces it
/// with its delay, and never waits less than the attempt before nor more than a
/// minute.
pub proof fn lemma_failed_reconnect_backs_off(s: SshManagerView, e: Seq<char>)
    requires
        manager_wf(s),
        s.pending == Pending::RetryOpen,
    ensures
        ({
            let a = s.retry->0.attempt;
            let n = next_attempt(a);
            let (t, act, ev) = ssh_transition(s, SshInputView::Opened(Err(e)));
            &&& act == SshActionView::Wait
            &&& t.retry == Some(schedule(n))
            &&& ev == seq![SshEventView::Connecting { attempt: n, delay_secs: backoff_secs(n as nat) as u64 }]
            &&& backoff_secs(a as nat) <= backoff_secs(n as nat) <= 60
        }),
{
    let a = s.retry->0.attempt;
    lemma_backoff_monotone(a as nat, next_attempt(a) as nat);
    lemma_backoff_bounds(next_attempt(a) as nat);
}

/// A lost session is reported and, when a connection was asked for, the first
/// reconnect is announced and scheduled one second (two ticks) later.
pub proof fn lemma_lost_session_schedules_reconnect(s: SshManagerView)
    requires
        manager_wf(s),
        s.pending == Pending::IdleProbe,
        s.target is Some,
    ensures
        ({
            let (t, act, ev) = ssh_transition(s, SshInputView::Probed(false));
            &&& act == SshActionView::Discard
            &&& !t.session
            &&& t.retry == Some(Retry { attempt: 1, ticks_left: 2 })
            &&& ev == seq![
                SshEventView::Disconnected("Session lost"@),
                SshEventView::Connecting { attempt: 1, delay_secs: 1 },
            ]
        }),
{
    reveal_with_fuel(backoff_secs, 1);
}

/// After the user disconnects, idle ticks never reopen a session nor send events:
/// reconnecting waits for the next `Connect`.
pub proof fn lemma_disconnect_cancels_reconnect(s: SshManagerView, k: nat)
    requires
        manager_wf(s),
        s.pending == Pending::Nothing,
    ensures
        ({
            let d = ssh_transition(s, SshInputView::Command(SshCommandView::Disconnect)).0;
            &&& after_idle_ticks(d, k) == d
            &&& ssh_transition(after_idle_ticks(d, k), SshInputView::Idle).1 == SshActionView::Wait
            &&& ssh_transition(after_idle_ticks(d, k), SshInputView::Idle).2.len() == 0
        }),
    decreases k,
{
    if k > 0 {
        lemma_disconnect_cancels_reconnect(s, (k - 1) as nat);
    }
}

/// The decisions of the manager worker. The worker performs each returned action,
/// answers `Probe` and `Open` with `Probed` and `Opened`, and sends the events.
pub struct SshManager {
    session: bool,
    target: Option<ConnectionParams>,
    retry: Option<Retry>,
    pending: Pending,
    since_check: u64,
}

pub open spec fn opt_params_view(t: Option<ConnectionParams>) -> Option<ConnectionParamsView> {
    match t {
        Some(p) => Some(p@),
        None => None,
    }
}

impl View for SshManager {
    type V = SshManagerView;

    closed spec fn view(&self) -> SshManagerView {
        SshManagerView {
            session: self.session,
            target: opt_params_view(self.target),
            retry: self.retry,
            pending: self.pending,
            since_check: self.since_check,
        }
    }
}

impl SshManager {
    #[verifier::type_invariant]
    closed spec fn inv(self) -> bool {
        manager_wf(self@)
    }

    /// No session, nothing to reconnect to, nothing pending.
    pub fn new() -> (r: SshManager)
        ensures
            r@ == (SshManagerView {
                session: false,
                target: None,
                retry: None,
                pending: Pending::Nothing,
                since_check: 0,
            }),
    {
        SshManager {
            session: false,
            target: None,
            retry: None,
            pending: Pending::Nothing,
            since_check: 0,
        }
    }

    /// Feeds one input to the manager.
    pub fn step(&mut self, input: SshInput) -> (r: (SshAction, Vec<SshEvent>))
        ensures
            final(self)@ == ssh_transition(old(self)@, input@).0,
            r.0@ == ssh_transition(old(self)@, input@).1,
            events_view(r.1@) == ssh_transition(old(self)@, input@).2,
            old(self)@.pending == Pending::Nothing && !old(self)@.session ==> (
            input@ matches SshInputView::Command(SshCommandView::Connect(p)) ==> r.0@
                == SshActionView::Open(p) && final(self)@.target == Some(p)),
    {
        let mut cur = SshManager::new();
        std::mem::swap(&mut cur, self);
        proof {
            use_type_invariant(&cur);
        }
        let (next, action, events) = Self::transition(cur, input);
        *self = next;
        (action, events)
    }

    fn transition(s: SshManager, input: SshInput) -> (r: (SshManager, SshAction, Vec<SshEvent>))
        requires
            manager_wf(s@),
        ensures
            r.0@ == ssh_transition(s@, input@).0,
            r.1@ == ssh_transition(s@, input@).1,
            events_view(r.2@) == ssh_transition(s@, input@).2,
    {
        let ghost sv = s@;
        let mut events: Vec<SshEvent> = Vec::new();
        let SshManager { session, target, retry, pending, since_check } = s;
        match pending {
            Pending::Nothing => match input {
                SshInput::Command(SshCommand::Connect { host, port, username, key_path }) => {
                    let p = ConnectionParams { host, port, username, key_path };
                    if session {
                        let next = SshManager {
                            since_check,
                            session,
                            target: Some(p),
                            retry: None,
                            pending: Pending::ConnectProbe,
                        };
                        (next, SshAction::Probe, events)
                    } else if retry.is_some() {
                        let q = p.duplicate();
                        let next = SshManager {
                            since_check,
                            session,
                            target: Some(p),
                            retry,
                            pending: Pending::RetryOpen,
                        };
                        (next, SshAction::Open(q), events)
                    } else {
                        let q = p.duplicate();
                        let next = SshManager {
                            since_check,
                            session,
                            target: Some(p),
                            retry: None,
                            pending: Pending::UserOpen,
                        };
                        (next, SshAction::Open(q), events)
                    }
                },
                SshInput::Command(SshCommand::Disconnect) => {
                    if session {
                        events.push(SshEvent::Disconnected(String::from_str("Disconnected by user")));
                        let next = SshManager { since_check, session: false, target: None, retry: None, pending };
                        (next, SshAction::Close(String::from_str("Client disconnect")), events)
                    } else {
                        let next = SshManager { since_check, session, target: None, retry: None, pending };
                        (next, SshAction::Wait, events)
                    }
                },
                SshInput::Command(SshCommand::Shutdown) => {
                    events.push(SshEvent::Disconnected(String::from_str("Shutdown")));
                    let next = SshManager::new();
                    let description = if session {
                        Some(String::from_str("Shutdown"))
                    } else {
                        None
                    };
                    (next, SshAction::Stop(description), events)
                },
                SshInput::Idle => {
                    if session {
                        if since_check + 1 >= HEALTH_CHECK_TICKS {
                            let next = SshManager {
                                since_check: 0,
                                session,
                                target,
                                retry,
                                pending: Pending::IdleProbe,
                            };
                            (next, SshAction::Probe, events)
                        } else {
                            let next = SshManager {
                                since_check: since_check + 1,
                                session,
                                target,
                                retry,
                                pending,
                            };
                            (next, SshAction::Keepalive, events)
                        }
                    } else {
                        match retry {
                            Some(r) => {
                                if r.ticks_left > 1 {
                                    let next = SshManager {
                                        since_check,
                                        session,
                                        target,
                                        retry: Some(
                                            Retry { attempt: r.attempt, ticks_left: r.ticks_left - 1 },
                                        ),
                                        pending,
                                    };
                                    (next, SshAction::Wait, events)
                                } else {
                                    match target {
                                        Some(t) => {
                                            let q = t.duplicate();
                                            let next = SshManager {
                                                since_check,
                                                session,
                                                target: Some(t),
                                                retry,
                                                pending: Pending::RetryOpen,
                                            };
                                            (next, SshAction::Open(q), events)
                                        },
                                        None => {
                                            let next = SshManager { since_check, session, target, retry, pending };
                                            (next, SshAction::Wait, events)
                                        },
                                    }
                                }
                            },
                            None => {
                                let next = SshManager { since_check, session, target, retry, pending };
                                (next, SshAction::Wait, events)
                            },
                        }
                    }
                },
                SshInput::ChannelClosed => {
                    let next = SshManager { since_check, session, target, retry, pending };
                    (next, SshAction::Stop(None), events)
                },
                _ => {
                    let next = SshManager { since_check, session, target, retry, pending };
                    (next, SshAction::Wait, events)
                },
            },
            Pending::ConnectProbe => match input {
                SshInput::Probed(alive) => {
                    if alive {
                        events.push(SshEvent::Connected);
                        let next = SshManager { since_check, session, target, retry, pending: Pending::Nothing };
                        (next, SshAction::Wait, events)
                    } else {
                        match target {
                            Some(t) => {
                                let q = t.duplicate();
                                let next = SshManager {
                                    since_check,
                                    session,
                                    target: Some(t),
                                    retry,
                                    pending: Pending::UserOpen,
                                };
                                (next, SshAction::Open(q), events)
                            },
                            None => {
                                let next = SshManager { since_check, session, target, retry, pending };
                                (next, SshAction::Wait, events)
                            },
                        }
                    }
                },
                _ => {
                    let next = SshManager { since_check, session, target, retry, pending };
                    (next, SshAction::Wait, events)
                },
            },
            Pending::IdleProbe => match input {
                SshInput::Probed(alive) => {
                    if alive {
                        let next = SshManager { since_check, session, target, retry, pending: Pending::Nothing };
                        (next, SshAction::Keepalive, events)
                    } else {
                        events.push(SshEvent::Disconnected(String::from_str("Session lost")));
                        if target.is_some() {
                            events.push(SshEvent::Connecting { attempt: 1, delay_secs: 1 });
                            proof {
                                reveal_with_fuel(backoff_secs, 1);
                            }
                            let next = SshManager {
                                since_check,
                                session: false,
                                target,
                                retry: Some(schedule_exec(1)),
                                pending: Pending::Nothing,
                            };
                            (next, SshAction::Discard, events)
                        } else {
                            let next = SshManager {
                                since_check,
                                session: false,
                                target,
                                retry,
                                pending: Pending::Nothing,
                            };
                            (next, SshAction::Discard, events)
                        }
                    }
                },
                _ => {
                    let next = SshManager { since_check, session, target, retry, pending };
                    (next, SshAction::Wait, events)
                },
            },
            Pending::UserOpen => match input {
                SshInput::Opened(Ok(())) => {
                    events.push(SshEvent::Connected);
                    let next = SshManager {
                        since_check: 0,
                        session: true,
                        target,
                        retry,
                        pending: Pending::Nothing,
                    };
                    (next, SshAction::Wait, events)
                },
                SshInput::Opened(Err(e)) => {
                    let msg = String::from_str("Connection failed: ").concat(e.as_str());
                    events.push(SshEvent::Error(msg));
                    let next = SshManager { since_check, session, target, retry, pending: Pending::Nothing };
                    (next, SshAction::Wait, events)
                },
                _ => {
                    let next = SshManager { since_check, session, target, retry, pending };
                    (next, SshAction::Wait, events)
                },
            },
            Pending::RetryOpen => match input {
                SshInput::Opened(Ok(())) => {
                    events.push(SshEvent::Connected);
                    let next = SshManager {
                        since_check: 0,
                        session: true,
                        target,
                        retry: None,
                        pending: Pending::Nothing,
                    };
                    (next, SshAction::Wait, events)
                },
                SshInput::Opened(Err(_)) => {
                    match retry {
                        Some(r) => {
                            let n = next_attempt_exec(r.attempt);
                            let d = backoff_delay(n);
                            events.push(SshEvent::Connecting { attempt: n, delay_secs: d });
                            let next = SshManager {
                                since_check,
                                session,
                                target,
                                retry: Some(schedule_exec(n)),
                                pending: Pending::Nothing,
                            };
                            (next, SshAction::Wait, events)
                        },
                        None => {
                            let next = SshManager { since_check, session, target, retry, pending };
                            (next, SshAction::Wait, events)
                        },
                    }
                },
                _ => {
                    let next = SshManager { since_check, session, target, retry, pending };
                    (next, SshAction::Wait, events)
                },
            },
        }
    }
}

/// The dashboard's end of the manager worker's two channels.
pub struct SshHandle {
    cmd_tx: Sender<SshCommand>,
    event_rx: Receiver<SshEvent>,
}

impl SshHandle {
    /// The channel on which the manager worker receives commands.
    pub closed spec fn command_channel(&self) -> Sender<SshCommand> {
        self.cmd_tx
    }

    /// The channel on which the manager worker sends events.
    pub closed spec fn event_channel(&self) -> Receiver<SshEvent> {
        self.event_rx
    }

    /// The handle that sends commands on `cmd_tx` and reads events from `event_rx`.
    pub fn new(cmd_tx: Sender<SshCommand>, event_rx: Receiver<SshEvent>) -> (r: SshHandle)
        ensures
            r.command_channel() == cmd_tx,
            r.event_channel() == event_rx,
    {
        SshHandle { cmd_tx, event_rx }
    }

    /// Asks the worker to connect as `username` to `host:port` with the key at `key_path`.
    pub fn connect(&self, host: String, port: u16, username: String, key_path: String) {
        send_message(&self.cmd_tx, SshCommand::connect_request(host, port, username, key_path));
    }

    /// Asks the worker to end the session and stop reconnecting.
    pub fn disconnect(&self) {
        send_message(&self.cmd_tx, SshCommand::Disconnect);
    }

    /// Asks the worker to end the session and stop.
    pub fn shutdown(&self) {
        send_message(&self.cmd_tx, SshCommand::Shutdown);
    }

    /// The next event of the worker, if one is waiting.
    pub fn try_recv_event(&self) -> Result<SshEvent, TryRecvError> {
        try_receive(&self.event_rx)
    }
}

} // verus!
