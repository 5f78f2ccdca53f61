use vstd::prelude::*;
use crate::backoff::{
    Backoff, doubled_wait, PANE_BACKOFF_BASE, PANE_BACKOFF_CAP, RECONNECT_DELAY_INITIAL, RECONNECT_DELAY_MAX,
};
use crate::backoff::{lemma_wait_after_failures, min_nat, wait_after_failures};
use crate::messages::{Id, ServerToCli};
use vstd::arithmetic::power::pow;

verus! {

/// States of the producer's connection to the relay server.
#[derive(Debug, Clone, Copy, PartialEq, Eq, Structural)]
pub enum ConnState {
    Disconnected,
    Connecting,
    AwaitingRegistration,
    Registered,
    Streaming,
    /// The server refused this version: no retry, ever.
    Fatal,
    /// The operator asked to stop.
    Stopped,
}

/// What happened, as seen by the connection loop.
#[derive(Debug, PartialEq)]
pub enum ConnEvent {
    /// The loop is ready for its next attempt.
    Retry,
    /// The transport opened.
    TransportOpened,
    /// Opening the transport failed.
    ConnectFailed,
    /// A message from the server arrived.
    Inbound(ServerToCli),
    /// A transport-level ping arrived.
    Ping,
    /// No registration reply came in time.
    RegistrationTimeout,
    /// The session announcement was written.
    SessionAnnounced,
    /// The heartbeat timer fired.
    HeartbeatDue,
    /// A send failed, or the transport closed or failed.
    TransportLost,
    /// The operator asked to stop.
    Shutdown,
}

/// What the connection loop must do next.
#[derive(Debug, PartialEq)]
pub enum ConnAction {
    Nothing,
    /// Open the transport.
    Connect,
    /// Sleep this many seconds (watching for shutdown), then retry.
    Wait(u64),
    /// Send `Register` with the local version.
    SendRegister,
    /// Answer a transport ping.
    SendPong,
    /// Send `SessionStart` for the supervised session.
    AnnounceSession,
    /// Send `Heartbeat`.
    SendHeartbeat,
    /// Hand consumer input to the pane input queue.
    DeliverInput { session_id: Id, data: String },
    /// Kill the pane's current agent process.
    DeliverSignal { session_id: Id, signal: String },
    /// Tell the operator to upgrade, then exit with failure.
    Fatal { client_version: String, min_version: String },
    /// Exit the loop.
    Exit,
}

/// The reconnecting supervisor of a producer's connection.
pub struct ConnectionSupervisor {
    pub state: ConnState,
    pub backoff: Backoff,
    /// The id the server gave on the last registration.
    pub cli_id: Option<Id>,
}

/// The supervisor after a transport failure: disconnected, and the wait
/// doubled for next time.
pub open spec fn dropped(s: ConnectionSupervisor) -> ConnectionSupervisor {
    ConnectionSupervisor {
        state: ConnState::Disconnected,
        backoff: Backoff { current: doubled_wait(s.backoff.current as nat, s.backoff.cap as nat) as u64, ..s.backoff },
        ..s
    }
}

/// One transition: the next supervisor and the action to perform.
pub open spec fn conn_step(s: ConnectionSupervisor, e: ConnEvent) -> (ConnectionSupervisor, ConnAction) {
    match s.state {
        ConnState::Fatal | ConnState::Stopped => (s, ConnAction::Exit),
        _ => match e {
            ConnEvent::Shutdown => (ConnectionSupervisor { state: ConnState::Stopped, ..s }, ConnAction::Exit),
            _ => match s.state {
                ConnState::Disconnected => match e {
                    ConnEvent::Retry => (ConnectionSupervisor { state: ConnState::Connecting, ..s }, ConnAction::Connect),
                    _ => (s, ConnAction::Nothing),
                },
                ConnState::Connecting => match e {
                    ConnEvent::TransportOpened => (
                        ConnectionSupervisor { state: ConnState::AwaitingRegistration, ..s },
                        ConnAction::SendRegister,
                    ),
                    ConnEvent::ConnectFailed | ConnEvent::TransportLost => (
                        dropped(s),
                        ConnAction::Wait(s.backoff.current),
                    ),
                    _ => (s, ConnAction::Nothing),
                },
                ConnState::AwaitingRegistration => match e {
                    ConnEvent::Inbound(ServerToCli::Registered { cli_id }) => (
                        ConnectionSupervisor {
                            state: ConnState::Registered,
                            backoff: Backoff { current: s.backoff.base, ..s.backoff },
                            cli_id: Some(cli_id),
                        },
                        ConnAction::AnnounceSession,
                    ),
                    ConnEvent::Inbound(ServerToCli::VersionUnsupported { client_version, min_version }) => (
                        ConnectionSupervisor { state: ConnState::Fatal, ..s },
                        ConnAction::Fatal { client_version, min_version },
                    ),
                    ConnEvent::Inbound(ServerToCli::RegistrationFailed { .. }) | ConnEvent::RegistrationTimeout
                    | ConnEvent::TransportLost => (dropped(s), ConnAction::Wait(s.backoff.current)),
                    ConnEvent::Ping => (s, ConnAction::SendPong),
                    _ => (s, ConnAction::Nothing),
                },
                ConnState::Registered => match e {
                    ConnEvent::SessionAnnounced => (
                        ConnectionSupervisor { state: ConnState::Streaming, ..s },
                        ConnAction::Nothing,
                    ),
                    ConnEvent::TransportLost => (dropped(s), ConnAction::Wait(s.backoff.current)),
                    ConnEvent::Ping => (s, ConnAction::SendPong),
                    _ => (s, ConnAction::Nothing),
                },
                _ => match e {
                    ConnEvent::Inbound(ServerToCli::Input { session_id, data }) => (
                        s,
                        ConnAction::DeliverInput { session_id, data },
                    ),
                    ConnEvent::Inbound(ServerToCli::Signal { session_id, signal }) => (
                        s,
                        ConnAction::DeliverSignal { session_id, signal },
                    ),
                    ConnEvent::Ping => (s, ConnAction::SendPong),
                    ConnEvent::HeartbeatDue => (s, ConnAction::SendHeartbeat),
                    ConnEvent::TransportLost => (dropped(s), ConnAction::Wait(s.backoff.current)),
                    _ => (s, ConnAction::Nothing),
                },
            },
        },
    }
}

impl ConnectionSupervisor {
    pub open spec fn wf(&self) -> bool {
        &&& self.backoff.wf()
        &&& self.backoff.base == RECONNECT_DELAY_INITIAL
        &&& self.backoff.cap == RECONNECT_DELAY_MAX
    }

    /// A disconnected supervisor with the reconnect backoff (1 s doubling to 60 s).
    pub fn new() -> (r: ConnectionSupervisor)
        ensures
            r.wf(),
            r.state == ConnState::Disconnected,
            r.backoff.base == RECONNECT_DELAY_INITIAL,
            r.backoff.cap == RECONNECT_DELAY_MAX,
            r.backoff.current == RECONNECT_DELAY_INITIAL,
            r.cli_id is None,
    {
        ConnectionSupervisor { state: ConnState::Disconnected, backoff: Backoff::for_reconnect(), cli_id: None }
    }

    /// Applies event `e` and says what to do next.
    pub fn step(&mut self, e: ConnEvent) -> (r: ConnAction)
        requires
            old(self).wf(),
        ensures
            final(self).wf(),
            (*final(self), r) == conn_step(*old(self), e),
    {
        match self.state {
            ConnState::Fatal | ConnState::Stopped => {
                return ConnAction::Exit;
            },
            _ => {},
        }
        if let ConnEvent::Shutdown = e {
            self.state = ConnState::Stopped;
            return ConnAction::Exit;
        }
        match self.state {
            ConnState::Disconnected => match e {
                ConnEvent::Retry => {
                    self.state = ConnState::Connecting;
                    ConnAction::Connect
                },
                _ => ConnAction::Nothing,
            },
            ConnState::Connecting => match e {
                ConnEvent::TransportOpened => {
                    self.state = ConnState::AwaitingRegistration;
                    ConnAction::SendRegister
                },
                ConnEvent::ConnectFailed | ConnEvent::TransportLost => self.drop_connection(),
                _ => ConnAction::Nothing,
            },
            ConnState::AwaitingRegistration => match e {
                ConnEvent::Inbound(ServerToCli::Registered { cli_id }) => {
                    self.state = ConnState::Registered;
                    self.backoff.reset();
                    self.cli_id = Some(cli_id);
                    ConnAction::AnnounceSession
                },
                ConnEvent::Inbound(ServerToCli::VersionUnsupported { client_version, min_version }) => {
                    self.state = ConnState::Fatal;
                    ConnAction::Fatal { client_version, min_version }
                },
                ConnEvent::Inbound(ServerToCli::RegistrationFailed { .. }) | ConnEvent::RegistrationTimeout
                | ConnEvent::TransportLost => self.drop_connection(),
                ConnEvent::Ping => ConnAction::SendPong,
                _ => ConnAction::Nothing,
            },
            ConnState::Registered => match e {
                ConnEvent::SessionAnnounced => {
                    self.state = ConnState::Streaming;
                    ConnAction::Nothing
                },
                ConnEvent::TransportLost => self.drop_connection(),
                ConnEvent::Ping => ConnAction::SendPong,
                _ => ConnAction::Nothing,
            },
            _ => match e {
                ConnEvent::Inbound(ServerToCli::Input { session_id, data }) => ConnAction::DeliverInput {
                    session_id,
                    data,
                },
                ConnEvent::Inbound(ServerToCli::Signal { session_id, signal }) => ConnAction::DeliverSignal {
                    session_id,
                    signal,
                },
                ConnEvent::Ping => ConnAction::SendPong,
                ConnEvent::HeartbeatDue => ConnAction::SendHeartbeat,
                ConnEvent::TransportLost => self.drop_connection(),
                _ => ConnAction::Nothing,
            },
        }
    }

    fn drop_connection(&mut self) -> (r: ConnAction)
        requires
            old(self).wf(),
        ensures
            final(self).wf(),
            *final(self) == dropped(*old(self)),
            r == ConnAction::Wait(old(self).backoff.current),
    {
        let wait = self.backoff.current();
        self.state = ConnState::Disconnected;
        self.backoff.on_failure();
        ConnAction::Wait(wait)
    }
}

/// The fatal state is absorbing: once the server refused the version, no
/// event leads anywhere else, and every step says to exit.
pub proof fn lemma_fatal_absorbing(s: ConnectionSupervisor, e: ConnEvent)
    requires
        s.state == ConnState::Fatal,
    ensures
        conn_step(s, e).0.state == ConnState::Fatal,
        conn_step(s, e).1 == ConnAction::Exit,
{
}

/// The fatal state is reached only from `AwaitingRegistration`, and only on
/// `VersionUnsupported`.
pub proof fn lemma_fatal_only_on_version(s: ConnectionSupervisor, e: ConnEvent)
    requires
        s.state != ConnState::Fatal,
        conn_step(s, e).0.state == ConnState::Fatal,
    ensures
        s.state == ConnState::AwaitingRegistration,
        e matches ConnEvent::Inbound(ServerToCli::VersionUnsupported { .. }),
{
}

/// Reaching `Registered` brings the reconnect wait back to its base.
pub proof fn lemma_registration_resets_backoff(s: ConnectionSupervisor, e: ConnEvent)
    requires
        s.state != ConnState::Registered,
        conn_step(s, e).0.state == ConnState::Registered,
    ensures
        conn_step(s, e).0.backoff.current == s.backoff.base,
{
}

/// Shutdown is honoured in every state: the supervisor stops (or stays
/// fatal) and exits.
pub proof fn lemma_shutdown_exits(s: ConnectionSupervisor)
    ensures
        conn_step(s, ConnEvent::Shutdown).1 == ConnAction::Exit,
        conn_step(s, ConnEvent::Shutdown).0.state == ConnState::Stopped || conn_step(
            s,
            ConnEvent::Shutdown,
        ).0.state == ConnState::Fatal,
{
}

/// Pause in seconds between two successful dead-loop iterations.
pub const INTER_ITERATION_DELAY: u64 = 2;

/// Where a prompt for the interactive pane came from.
#[derive(Debug, Clone, Copy, PartialEq, Eq, Structural)]
pub enum PromptSource {
    /// Typed in the local terminal UI.
    Local,
    /// Forwarded by the relay from a consumer.
    Relay,
}

/// Whether a prompt is echoed to viewers as `UserInput`: only local ones;
/// relayed prompts are already visible to consumers.
pub fn should_echo_prompt(source: PromptSource) -> (r: bool)
    ensures
        r == (source == PromptSource::Local),
{
    match source {
        PromptSource::Local => true,
        PromptSource::Relay => false,
    }
}

/// Whether an agent run failed: it exited abnormally or reported an error
/// result.
pub fn iteration_failed(exit_ok: bool, error_result: bool) -> (r: bool)
    ensures
        r == (!exit_ok || error_result),
{
    !exit_ok || error_result
}

/// The restart policy of the dead-loop pane.
pub struct PaneSupervisor {
    pub backoff: Backoff,
    /// Iterations started so far.
    pub iterations: u64,
}

impl PaneSupervisor {
    pub open spec fn wf(&self) -> bool {
        &&& self.backoff.wf()
        &&& self.backoff.base == PANE_BACKOFF_BASE
        &&& self.backoff.cap == PANE_BACKOFF_CAP
    }

    /// A pane supervisor before its first iteration.
    pub fn new() -> (r: PaneSupervisor)
        ensures
            r.wf(),
            r.backoff.base == PANE_BACKOFF_BASE,
            r.backoff.cap == PANE_BACKOFF_CAP,
            r.backoff.current == PANE_BACKOFF_BASE,
            r.iterations == 0,
    {
        PaneSupervisor { backoff: Backoff::for_pane(), iterations: 0 }
    }

    /// Starts an iteration. Returns whether the agent is to resume its
    /// conversation: every iteration but the first does.
    pub fn begin_iteration(&mut self) -> (resume: bool)
        requires
            old(self).wf(),
        ensures
            final(self).wf(),
            resume == (old(self).iterations > 0),
            final(self).backoff == old(self).backoff,
            final(self).iterations == if old(self).iterations < u64::MAX {
                old(self).iterations + 1
            } else {
                old(self).iterations as int
            },
    {
        let resume = self.iterations > 0;
        if self.iterations < u64::MAX {
            self.iterations = self.iterations + 1;
        }
        resume
    }

    /// Ends an iteration and returns the wait in seconds before the next:
    /// after a failure the backoff doubles (up to its cap) and is the wait;
    /// after a success the backoff goes back to its base and the wait is the
    /// short fixed pause.
    pub fn finish_iteration(&mut self, failed: bool) -> (wait: u64)
        requires
            old(self).wf(),
        ensures
            final(self).wf(),
            final(self).iterations == old(self).iterations,
            failed ==> final(self).backoff.current as nat == doubled_wait(
                old(self).backoff.current as nat,
                old(self).backoff.cap as nat,
            ) && wait == final(self).backoff.current,
            !failed ==> final(self).backoff.current == PANE_BACKOFF_BASE && wait == INTER_ITERATION_DELAY,
            final(self).backoff.cap == old(self).backoff.cap,
    {
        if failed {
            self.backoff.on_failure()
        } else {
            self.backoff.reset();
            INTER_ITERATION_DELAY
        }
    }
}


/// Pane backoff: a pane supervisor's wait starts at 2 s (fresh, or after a
/// success); after `n` failures in a row (`finish_iteration(true)` each) it
/// is `min(2 * 2^n, 3600)` seconds.
pub proof fn lemma_pane_backoff(p: PaneSupervisor, n: nat)
    requires
        p.wf(),
        p.backoff.current == PANE_BACKOFF_BASE,
    ensures
        wait_after_failures(p.backoff.current as nat, p.backoff.cap as nat, n) == min_nat(
            (2 * pow(2, n)) as nat,
            3600,
        ),
{
    lemma_wait_after_failures(2, 3600, n);
}

} // verus!
