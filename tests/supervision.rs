use apas::backoff::{Backoff, PANE_BACKOFF_CAP};
use apas::client_config::RemoteConfig;
use apas::messages::ServerToCli;
use apas::project::get_apas_path;
use apas::server_config::{default_smtp_port, default_true, Config as ServerConfig, SmtpConfig};
use apas::storage::FileStorage;
use apas::supervisor::{
    iteration_failed, should_echo_prompt, ConnAction, ConnEvent, ConnState, ConnectionSupervisor, PaneSupervisor,
    PromptSource, INTER_ITERATION_DELAY,
};

#[test]
fn pane_backoff_doubles_to_cap_and_resets() {
    let mut p = PaneSupervisor::new();
    let mut waits = Vec::new();
    for _ in 0..12 {
        waits.push(p.finish_iteration(true));
    }
    assert_eq!(waits, vec![4, 8, 16, 32, 64, 128, 256, 512, 1024, 2048, 3600, 3600]);
    assert_eq!(p.finish_iteration(false), INTER_ITERATION_DELAY);
    assert_eq!(p.backoff.current(), 2);
    assert_eq!(p.finish_iteration(true), 4);
    assert_eq!(PANE_BACKOFF_CAP, 3600);
}

#[test]
fn backoff_never_overflows_near_the_top() {
    let mut b = Backoff::new(u64::MAX / 2 + 1, u64::MAX);
    assert_eq!(b.on_failure(), u64::MAX);
    assert_eq!(b.on_failure(), u64::MAX);
    b.reset();
    assert_eq!(b.current(), u64::MAX / 2 + 1);
}

#[test]
fn pane_resumes_after_first_iteration() {
    let mut p = PaneSupervisor::new();
    assert!(!p.begin_iteration());
    assert!(p.begin_iteration());
    assert!(p.begin_iteration());
    assert_eq!(p.iterations, 3);
}

#[test]
fn failure_and_echo_rules() {
    assert!(iteration_failed(false, false));
    assert!(iteration_failed(true, true));
    assert!(!iteration_failed(true, false));
    assert!(should_echo_prompt(PromptSource::Local));
    assert!(!should_echo_prompt(PromptSource::Relay));
}

#[test]
fn connection_reconnects_with_backoff() {
    let mut s = ConnectionSupervisor::new();
    assert_eq!(s.step(ConnEvent::Retry), ConnAction::Connect);
    assert_eq!(s.step(ConnEvent::ConnectFailed), ConnAction::Wait(1));
    assert_eq!(s.state, ConnState::Disconnected);
    s.step(ConnEvent::Retry);
    assert_eq!(s.step(ConnEvent::ConnectFailed), ConnAction::Wait(2));
    s.step(ConnEvent::Retry);
    assert_eq!(s.step(ConnEvent::ConnectFailed), ConnAction::Wait(4));
    s.step(ConnEvent::Retry);
    assert_eq!(s.step(ConnEvent::TransportOpened), ConnAction::SendRegister);
    assert_eq!(s.step(ConnEvent::Ping), ConnAction::SendPong);
    assert_eq!(s.state, ConnState::AwaitingRegistration);
    assert_eq!(s.step(ConnEvent::Inbound(ServerToCli::Registered { cli_id: 9 })), ConnAction::AnnounceSession);
    assert_eq!(s.cli_id, Some(9));
    assert_eq!(s.backoff.current(), 1);
    assert_eq!(s.step(ConnEvent::SessionAnnounced), ConnAction::Nothing);
    assert_eq!(s.state, ConnState::Streaming);
    assert_eq!(s.step(ConnEvent::HeartbeatDue), ConnAction::SendHeartbeat);
    assert_eq!(
        s.step(ConnEvent::Inbound(ServerToCli::Input { session_id: 3, data: "hi".to_string() })),
        ConnAction::DeliverInput { session_id: 3, data: "hi".to_string() }
    );
    assert_eq!(s.step(ConnEvent::Inbound(ServerToCli::Heartbeat)), ConnAction::Nothing);
    assert_eq!(s.step(ConnEvent::TransportLost), ConnAction::Wait(1));
    assert_eq!(s.state, ConnState::Disconnected);
}

#[test]
fn unsupported_version_is_fatal() {
    let mut s = ConnectionSupervisor::new();
    s.step(ConnEvent::Retry);
    s.step(ConnEvent::TransportOpened);
    let refusal = ServerToCli::VersionUnsupported { client_version: "25.1.1".to_string(), min_version: "26.01.0".to_string() };
    assert_eq!(
        s.step(ConnEvent::Inbound(refusal)),
        ConnAction::Fatal { client_version: "25.1.1".to_string(), min_version: "26.01.0".to_string() }
    );
    assert_eq!(s.state, ConnState::Fatal);
    assert_eq!(s.step(ConnEvent::Retry), ConnAction::Exit);
    assert_eq!(s.state, ConnState::Fatal);
}

#[test]
fn registration_failure_is_retried() {
    let mut s = ConnectionSupervisor::new();
    s.step(ConnEvent::Retry);
    s.step(ConnEvent::TransportOpened);
    assert_eq!(
        s.step(ConnEvent::Inbound(ServerToCli::RegistrationFailed { reason: "bad token".to_string() })),
        ConnAction::Wait(1)
    );
    assert_eq!(s.state, ConnState::Disconnected);
    assert_eq!(s.step(ConnEvent::Shutdown), ConnAction::Exit);
    assert_eq!(s.state, ConnState::Stopped);
}

#[test]
fn defaults_of_the_settings() {
    let c = ServerConfig::default();
    assert_eq!(c.server.host, "0.0.0.0");
    assert_eq!(c.server.port, 8080);
    assert_eq!(c.database.path, "./data/apas.db");
    assert_eq!(c.auth.token_expiry_hours, 24);
    let smtp = SmtpConfig::default();
    assert!(smtp.enabled && smtp.use_sendmail);
    assert_eq!(smtp.from_email, "noreply@apas.mpaxos.com");
    assert!(default_true());
    assert_eq!(default_smtp_port(), 587);
    let remote = RemoteConfig::default();
    assert!(remote.server.is_none() && remote.token.is_none());
}

#[test]
fn project_marker_path() {
    assert_eq!(get_apas_path("/home/u/proj"), "/home/u/proj/.apas");
    assert_eq!(get_apas_path("/home/u/proj/"), "/home/u/proj/.apas");
    assert_eq!(get_apas_path(""), ".apas");
}

#[test]
fn storage_root() {
    assert_eq!(FileStorage::new("/var/apas").base_path, "/var/apas");
}

#[test]
fn pane_conversations_are_created_once() {
    let mut p = apas::project::ProjectMetadata::new(5, "2026-01-01".to_string());
    assert_eq!(p.get_or_create_deadloop_session_id(11), 11);
    assert_eq!(p.get_or_create_deadloop_session_id(12), 11);
    assert_eq!(p.get_or_create_interactive_session_id(13), 13);
    assert_eq!(p.get_or_create_interactive_session_id(14), 13);
    assert_eq!(p.deadloop_claude_session_id, Some(11));
    assert_eq!(p.id, 5);
    let named = apas::project::ProjectMetadata::with_name("demo".to_string(), 6, "t".to_string());
    assert_eq!(named.name, Some("demo".to_string()));
    assert_eq!(named.interactive_claude_session_id, None);
}
