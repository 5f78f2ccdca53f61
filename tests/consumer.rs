use apas::consumer::{ConsumerState, WebEffect};
use apas::messages::{MessageInfo, ServerToCli, ServerToWeb, SessionStatus, WebToServer};
use apas::registry::SessionManager;
use apas::storage::StoredMessage;

fn registry_with_consumer() -> (SessionManager, ConsumerState) {
    let mut m = SessionManager::new();
    m.register_web(50);
    (m, ConsumerState::new())
}

#[test]
fn unauthenticated_consumer_is_refused() {
    let (mut m, mut cs) = registry_with_consumer();
    let r = m.handle_web_message(50, &mut cs, WebToServer::AttachSession { session_id: 7 }, 1, 0);
    assert_eq!(r, WebEffect::Nothing);
    let r = m.handle_web_message(50, &mut cs, WebToServer::ListSessions, 1, 0);
    assert_eq!(r, WebEffect::Nothing);
    let not_auth = ServerToWeb::Error { message: "Not authenticated".to_string() };
    assert_eq!(m.take_web_outbound(50), vec![not_auth.clone(), not_auth]);
    assert!(m.get_session(7).is_none());
}

#[test]
fn authentication_then_checked_attach() {
    let (mut m, mut cs) = registry_with_consumer();
    let r = m.handle_web_message(50, &mut cs, WebToServer::Authenticate { token: "jwt".to_string() }, 1, 0);
    assert_eq!(r, WebEffect::CheckCredential { token: "jwt".to_string() });
    m.authenticated(50, &mut cs, Ok(300));
    assert_eq!(cs.user_id, Some(300));
    let r = m.handle_web_message(50, &mut cs, WebToServer::AttachSession { session_id: 7 }, 1, 0);
    assert_eq!(r, WebEffect::CheckAccess { user_id: 300, session_id: 7 });
    assert!(!m.attach_checked(50, &mut cs, 7, false));
    assert_eq!(cs.session_id, None);
    assert!(m.get_session(7).is_none());
    assert!(m.attach_checked(50, &mut cs, 7, true));
    assert_eq!(cs.session_id, Some(7));
    assert_eq!(
        m.take_web_outbound(50),
        vec![
            ServerToWeb::Authenticated { user_id: 300 },
            ServerToWeb::Error { message: "Access denied".to_string() },
            ServerToWeb::SessionStarted { session_id: 7, pane_type: None },
            ServerToWeb::SessionStatus { status: SessionStatus::Connected },
        ]
    );
}

#[test]
fn failed_authentication_is_reported() {
    let (mut m, mut cs) = registry_with_consumer();
    m.authenticated(50, &mut cs, Err("expired".to_string()));
    assert_eq!(cs.user_id, None);
    assert_eq!(m.take_web_outbound(50), vec![ServerToWeb::AuthenticationFailed { reason: "expired".to_string() }]);
}

#[test]
fn started_session_gets_an_online_producer() {
    let (mut m, mut cs) = registry_with_consumer();
    m.register_cli(1, 300);
    m.authenticated(50, &mut cs, Ok(300));
    m.take_web_outbound(50);
    let r = m.handle_web_message(50, &mut cs, WebToServer::StartSession { cli_client_id: None }, 42, 0);
    assert_eq!(r, WebEffect::Nothing);
    assert_eq!(cs.session_id, Some(42));
    let s = m.get_session(42).unwrap();
    assert_eq!(s.cli_client_id, Some(1));
    assert_eq!(s.user_id, 300);
    assert_eq!(m.take_cli_outbound(1), vec![ServerToCli::SessionAssigned { session_id: 42, working_dir: None }]);
    assert_eq!(
        m.take_web_outbound(50),
        vec![
            ServerToWeb::SessionStarted { session_id: 42, pane_type: None },
            ServerToWeb::SessionStatus { status: SessionStatus::Connected },
        ]
    );
}

#[test]
fn started_session_without_producer_is_pending() {
    let (mut m, mut cs) = registry_with_consumer();
    m.authenticated(50, &mut cs, Ok(300));
    m.take_web_outbound(50);
    m.handle_web_message(50, &mut cs, WebToServer::StartSession { cli_client_id: None }, 42, 0);
    assert_eq!(m.get_session(42).unwrap().cli_client_id, None);
    assert_eq!(
        m.take_web_outbound(50),
        vec![
            ServerToWeb::SessionStarted { session_id: 42, pane_type: None },
            ServerToWeb::SessionStatus { status: SessionStatus::Pending },
        ]
    );
}

#[test]
fn approvals_and_history_requests() {
    let (mut m, mut cs) = registry_with_consumer();
    m.register_cli(1, 300);
    m.create_cli_session(7, 1);
    m.handle_web_message(50, &mut cs, WebToServer::ResumeSession { session_id: 7 }, 1, 0);
    m.handle_web_message(50, &mut cs, WebToServer::Approve { tool_call_id: "t".to_string() }, 1, 0);
    m.handle_web_message(50, &mut cs, WebToServer::Reject { tool_call_id: "t".to_string() }, 1, 0);
    assert_eq!(
        m.take_cli_outbound(1),
        vec![
            ServerToCli::Input { session_id: 7, data: "y".to_string() },
            ServerToCli::Input { session_id: 7, data: "n".to_string() },
        ]
    );
    let r = m.handle_web_message(
        50,
        &mut cs,
        WebToServer::GetSessionMessages { session_id: 7, limit: None, before_id: None },
        1,
        0,
    );
    assert_eq!(r, WebEffect::LoadHistory { session_id: 7, limit: 100, before_id: None });
}

#[test]
fn history_page_is_sent_as_message_infos() {
    let (mut m, _) = registry_with_consumer();
    let page = vec![StoredMessage {
        id: "m1".to_string(),
        role: "user".to_string(),
        content: "hi".to_string(),
        message_type: "text".to_string(),
        created_at: "t1".to_string(),
        pane_type: None,
    }];
    assert!(m.send_history(50, 7, page, true));
    assert_eq!(
        m.take_web_outbound(50),
        vec![ServerToWeb::SessionMessages {
            session_id: 7,
            messages: vec![MessageInfo {
                id: "m1".to_string(),
                role: "user".to_string(),
                content: "hi".to_string(),
                message_type: "text".to_string(),
                created_at: Some("t1".to_string()),
            }],
            has_more: true,
        }]
    );
    assert!(m.send_history(50, 7, Vec::new(), false));
    assert!(!m.send_history(51, 7, Vec::new(), false));
}
