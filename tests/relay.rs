use apas::messages::{
    CliClientStatus, CliToServer, ClaudeAssistantMessage, ClaudeContentBlock, ClaudeStreamMessage, PaneType, ServerToCli,
    ServerToWeb, SessionStatus, WebToServer,
};
use apas::consumer::{ConsumerState, WebEffect};
use apas::registry::{SessionManager, OUTBOX_CAPACITY};
use apas::server::{registration_outcome, stored_message_of, CliEffect, RegistrationOutcome};
use apas::storage::{paginate, StoredMessage};

fn stored(id: &str) -> StoredMessage {
    StoredMessage {
        id: id.to_string(),
        role: "assistant".to_string(),
        content: format!("content {}", id),
        message_type: "text".to_string(),
        created_at: "2026-01-01T00:00:00Z".to_string(),
        pane_type: None,
    }
}

#[test]
fn reattach_keeps_consumer_and_adds_no_record() {
    let mut m = SessionManager::new();
    m.register_cli(1, 100);
    m.register_cli(2, 100);
    m.register_web(50);
    m.create_cli_session(7, 1);
    assert!(m.attach_web_to_session(7, 50));
    m.create_cli_session(7, 2);
    let s = m.get_session(7).unwrap();
    assert_eq!(s.cli_client_id, Some(2));
    assert_eq!(s.web_connection_id, Some(50));
    m.create_cli_session(7, 2);
    let s = m.get_session(7).unwrap();
    assert_eq!(s.cli_client_id, Some(2));
    assert_eq!(s.web_connection_id, Some(50));
    assert_eq!(m.get_cli_session_ids(2), vec![7]);
    assert_eq!(m.get_cli_active_session(1), Some(7));
}

#[test]
fn routing_reaches_only_the_bound_consumer() {
    let mut m = SessionManager::new();
    m.register_web(50);
    m.register_web(51);
    m.register_cli(1, 100);
    m.register_cli(2, 100);
    m.create_cli_session(10, 1);
    m.create_cli_session(20, 2);
    m.attach_web_to_session(10, 50);
    m.attach_web_to_session(20, 51);
    assert!(m.route_to_web(10, ServerToWeb::output("for a".to_string())));
    assert!(m.route_to_cli(10, ServerToCli::Heartbeat));
    assert_eq!(m.take_web_outbound(51), Vec::<ServerToWeb>::new());
    assert_eq!(m.take_web_outbound(50), vec![ServerToWeb::output("for a".to_string())]);
    assert_eq!(m.take_cli_outbound(1), vec![ServerToCli::Heartbeat]);
    assert_eq!(m.take_cli_outbound(2), Vec::<ServerToCli>::new());
}

#[test]
fn attach_resurrects_unknown_session() {
    let mut m = SessionManager::new();
    m.register_web(50);
    assert!(m.attach_web_to_session(9, 50));
    let s = m.get_session(9).unwrap();
    assert_eq!(s.cli_client_id, None);
    assert_eq!(s.web_connection_id, Some(50));
    assert_eq!(s.user_id, 0);
    assert!(!m.is_session_active(9));
    m.register_cli(3, 100);
    m.create_cli_session(9, 3);
    let s = m.get_session(9).unwrap();
    assert_eq!(s.cli_client_id, Some(3));
    assert_eq!(s.web_connection_id, Some(50));
    assert!(m.is_session_active(9));
}

#[test]
fn unregistered_producer_is_no_longer_routed_to() {
    let mut m = SessionManager::new();
    m.register_cli(1, 100);
    m.create_cli_session(7, 1);
    m.create_cli_session(8, 1);
    assert!(m.route_to_cli(7, ServerToCli::Heartbeat));
    m.unregister_cli(1);
    assert!(!m.route_to_cli(7, ServerToCli::Heartbeat));
    assert!(!m.route_to_cli(8, ServerToCli::Heartbeat));
    assert!(m.get_session(7).is_some());
    assert_eq!(m.get_online_cli_ids(), Vec::<u128>::new());
    m.register_cli(4, 100);
    m.create_cli_session(7, 4);
    assert!(m.route_to_cli(7, ServerToCli::Heartbeat));
    assert_eq!(m.take_cli_outbound(4), vec![ServerToCli::Heartbeat]);
}

#[test]
fn unregistering_consumer_clears_its_bindings_only() {
    let mut m = SessionManager::new();
    m.register_cli(1, 100);
    m.register_web(50);
    m.create_cli_session(7, 1);
    m.attach_web_to_session(7, 50);
    m.unregister_web(50);
    let s = m.get_session(7).unwrap();
    assert_eq!(s.web_connection_id, None);
    assert_eq!(s.cli_client_id, Some(1));
    assert!(!m.route_to_web(7, ServerToWeb::output("x".to_string())));
}

#[test]
fn unregistered_producer_cannot_bind() {
    let mut m = SessionManager::new();
    m.create_cli_session(7, 1);
    assert!(m.get_session(7).is_none());
    m.create_session(8, 100, 50);
    assert!(!m.assign_cli_to_session(8, 1));
    m.register_cli(1, 100);
    assert!(m.assign_cli_to_session(8, 1));
    assert!(!m.assign_cli_to_session(99, 1));
    assert_eq!(m.get_session(8).unwrap().cli_client_id, Some(1));
}

#[test]
fn full_queue_drops_messages() {
    let mut m = SessionManager::new();
    m.register_web(50);
    for _ in 0..OUTBOX_CAPACITY {
        assert!(m.send_to_web(50, ServerToWeb::output("x".to_string())));
    }
    assert!(!m.send_to_web(50, ServerToWeb::output("y".to_string())));
    assert_eq!(m.take_web_outbound(50).len(), OUTBOX_CAPACITY);
    assert!(m.send_to_web(50, ServerToWeb::output("z".to_string())));
    assert!(!m.send_to_web(51, ServerToWeb::output("z".to_string())));
}

#[test]
fn relay_scenario_register_attach_stream_disconnect() {
    let mut m = SessionManager::new();
    let register = CliToServer::Register { token: "t".to_string(), version: Some("26.02.5".to_string()) };
    match registration_outcome(&register, 1) {
        RegistrationOutcome::Accepted(ServerToCli::Registered { cli_id }) => assert_eq!(cli_id, 1),
        other => panic!("unexpected {:?}", other),
    }
    m.register_cli(1, 100);
    let effect = m.handle_cli_message(1, CliToServer::SessionStart { session_id: 7, working_dir: None, hostname: None });
    assert_eq!(effect, CliEffect::PersistSession { session_id: 7, working_dir: None, hostname: None });

    m.register_web(50);
    let mut cs = ConsumerState::new();
    m.authenticated(50, &mut cs, Ok(300));
    let effect = m.handle_web_message(50, &mut cs, WebToServer::AttachSession { session_id: 7 }, 1, 0);
    assert_eq!(effect, WebEffect::CheckAccess { user_id: 300, session_id: 7 });
    assert!(m.attach_checked(50, &mut cs, 7, true));
    let (history, has_more) = paginate(Vec::new(), None, None);
    assert!(m.send_history(50, 7, history, has_more));
    assert_eq!(
        m.take_web_outbound(50),
        vec![
            ServerToWeb::Authenticated { user_id: 300 },
            ServerToWeb::SessionStarted { session_id: 7, pane_type: None },
            ServerToWeb::SessionStatus { status: SessionStatus::Connected },
            ServerToWeb::SessionMessages { session_id: 7, messages: Vec::new(), has_more: false },
        ]
    );

    m.handle_cli_message(1, CliToServer::output(7, "hello".to_string()));
    assert_eq!(m.take_web_outbound(50), vec![ServerToWeb::output("hello".to_string())]);

    m.unregister_cli(1);
    m.handle_web_message(50, &mut cs, WebToServer::Input { text: "x".to_string(), pane_type: None }, 1, 0);
    assert_eq!(
        m.take_web_outbound(50),
        vec![ServerToWeb::Error { message: "CLI client not connected".to_string() }]
    );
}

#[test]
fn producer_messages_are_routed_and_logged() {
    let mut m = SessionManager::new();
    m.register_cli(1, 100);
    m.register_web(50);
    m.handle_cli_message(1, CliToServer::SessionStart { session_id: 7, working_dir: None, hostname: None });
    m.attach_web_to_session(7, 50);
    let effect = m.handle_cli_message(1, CliToServer::UserInput { session_id: 7, text: "hi".to_string(), pane_type: None });
    assert_eq!(effect, CliEffect::LogUserInput { session_id: 7, text: "hi".to_string() });
    let event = ClaudeStreamMessage::Assistant {
        message: ClaudeAssistantMessage {
            content: vec![ClaudeContentBlock::Text { text: "answer".to_string() }],
            model: String::new(),
            extra: "{}".to_string(),
        },
        session_id: "agent".to_string(),
        extra: "{}".to_string(),
    };
    m.handle_cli_message(1, CliToServer::StreamMessage { session_id: 7, message: event.clone(), pane_type: None });
    let effect = m.handle_cli_message(1, CliToServer::SessionEnd { session_id: 7, reason: "done".to_string() });
    assert_eq!(effect, CliEffect::MarkEnded { session_id: 7 });
    m.handle_cli_message(1, CliToServer::Heartbeat);
    assert_eq!(
        m.take_web_outbound(50),
        vec![
            ServerToWeb::UserInput { session_id: 7, text: "hi".to_string(), pane_type: None },
            ServerToWeb::StreamMessage { session_id: 7, message: event, pane_type: None },
            ServerToWeb::SessionStatus { status: SessionStatus::Ended },
        ]
    );
    assert_eq!(m.take_cli_outbound(1), vec![ServerToCli::Heartbeat]);
}

#[test]
fn consumer_input_and_signal_reach_producer() {
    let mut m = SessionManager::new();
    m.register_cli(1, 100);
    m.register_web(50);
    m.create_cli_session(7, 1);
    m.attach_web_to_session(7, 50);
    assert!(m.forward_input(50, Some(7), "go".to_string()));
    assert!(m.forward_signal(Some(7), "SIGINT".to_string()));
    assert!(!m.forward_input(50, None, "lost".to_string()));
    assert_eq!(
        m.take_cli_outbound(1),
        vec![
            ServerToCli::Input { session_id: 7, data: "go".to_string() },
            ServerToCli::Signal { session_id: 7, signal: "SIGINT".to_string() },
        ]
    );
    assert_eq!(m.take_web_outbound(50), Vec::<ServerToWeb>::new());
}

#[test]
fn history_page_takes_most_recent() {
    let all: Vec<StoredMessage> = (0..5).map(|i| stored(&i.to_string())).collect();
    let (page, more) = paginate(all.clone(), Some(2), None);
    assert!(more);
    assert_eq!(page.iter().map(|m| m.id.clone()).collect::<Vec<_>>(), vec!["3", "4"]);
    let (page, more) = paginate(all.clone(), Some(2), Some("3"));
    assert!(more);
    assert_eq!(page.iter().map(|m| m.id.clone()).collect::<Vec<_>>(), vec!["1", "2"]);
    let (page, more) = paginate(all.clone(), Some(10), Some("missing"));
    assert!(page.is_empty());
    assert!(!more);
    let (page, more) = paginate(all, None, None);
    assert_eq!(page.len(), 5);
    assert!(!more);
}

#[test]
fn producer_listing_marks_busy_producers() {
    let mut m = SessionManager::new();
    m.register_cli(1, 100);
    m.register_cli(2, 200);
    m.create_cli_session(7, 1);
    let mut all = m.get_cli_clients_info(5);
    all.sort_by_key(|c| c.id);
    assert_eq!(all.len(), 2);
    assert_eq!(all[0].id, 1);
    assert_eq!(all[0].status, CliClientStatus::Busy);
    assert_eq!(all[0].active_session, Some(7));
    assert_eq!(all[0].last_seen, Some(5));
    assert_eq!(all[1].status, CliClientStatus::Online);
    assert_eq!(all[1].active_session, None);
    let mine = m.get_cli_clients_info_for_user(200, 5);
    assert_eq!(mine.len(), 1);
    assert_eq!(mine[0].id, 2);
    assert!(m.get_cli_clients_info_for_user(300, 5).is_empty());
}

#[test]
fn producer_list_is_broadcast_to_every_consumer() {
    let mut m = SessionManager::new();
    m.register_web(50);
    m.register_web(51);
    m.register_cli(1, 100);
    m.broadcast_cli_clients_update(9);
    for w in [50u128, 51] {
        let queued = m.take_web_outbound(w);
        assert_eq!(queued.len(), 1);
        match &queued[0] {
            ServerToWeb::CliClients { clients } => {
                assert_eq!(clients.len(), 1);
                assert_eq!(clients[0].id, 1);
            }
            other => panic!("unexpected {:?}", other),
        }
    }
    m.unregister_web(50);
    m.broadcast_cli_clients_update(10);
    assert!(m.take_web_outbound(50).is_empty());
    assert_eq!(m.take_web_outbound(51).len(), 1);
}

#[test]
fn per_pane_history_keeps_recent_of_each_pane() {
    let mut all = Vec::new();
    for (id, pane) in [("a", "deadloop"), ("b", "interactive"), ("c", "deadloop"), ("d", "deadloop"), ("e", "other")] {
        let mut m = stored(id);
        m.pane_type = if pane == "other" { None } else { Some(pane.to_string()) };
        all.push(m);
    }
    let (page, more) = apas::storage::recent_per_pane(all.clone(), 2);
    assert!(more);
    assert_eq!(page.iter().map(|m| m.id.clone()).collect::<Vec<_>>(), vec!["b", "c", "d", "e"]);
    let (page, more) = apas::storage::recent_per_pane(all, 3);
    assert!(!more);
    assert_eq!(page.len(), 5);
}

#[test]
fn per_pane_history_is_sorted_by_time() {
    let mut later = stored("later");
    later.created_at = "2".to_string();
    let mut earlier = stored("earlier");
    earlier.created_at = "1".to_string();
    let mut same = stored("same");
    same.created_at = "2".to_string();
    let (page, _) = apas::storage::recent_per_pane(vec![later, earlier, same], 5);
    assert_eq!(page.iter().map(|m| m.id.clone()).collect::<Vec<_>>(), vec!["earlier", "later", "same"]);
}

#[test]
fn assistant_event_becomes_a_text_record() {
    let event = ClaudeStreamMessage::Assistant {
        message: ClaudeAssistantMessage {
            content: vec![
                ClaudeContentBlock::Text { text: "first".to_string() },
                ClaudeContentBlock::ToolResult { tool_use_id: "x".to_string(), content: "skip".to_string(), is_error: false },
                ClaudeContentBlock::ToolUse { id: "t".to_string(), name: "Read".to_string(), input: "{\"a\":1}".to_string() },
            ],
            model: String::new(),
            extra: "{}".to_string(),
        },
        session_id: "agent".to_string(),
        extra: "{}".to_string(),
    };
    let rec = stored_message_of(&event, Some(PaneType::Deadloop), "id1".to_string(), "t0".to_string(), String::new()).unwrap();
    assert_eq!(rec.role, "assistant");
    assert_eq!(rec.message_type, "text");
    assert_eq!(rec.content, "first\n[Tool: Read] {\"a\":1}");
    assert_eq!(rec.id, "id1");
    assert_eq!(rec.created_at, "t0");
    assert_eq!(rec.pane_type, Some("deadloop".to_string()));
}

#[test]
fn result_event_becomes_a_system_record() {
    let event = ClaudeStreamMessage::Result {
        subtype: "success".to_string(),
        result: "Done".to_string(),
        total_cost_usd: "0.5".to_string(),
        duration_ms: 1234,
        session_id: "agent".to_string(),
        is_error: false,
        extra: "{}".to_string(),
    };
    let rec = stored_message_of(&event, None, "id2".to_string(), "t1".to_string(), "0.5000".to_string()).unwrap();
    assert_eq!(rec.role, "system");
    assert_eq!(rec.message_type, "result");
    assert_eq!(rec.content, "success - Cost: $0.5000, Duration: 1234ms");
    assert_eq!(rec.pane_type, None);
}

#[test]
fn other_events_are_not_logged() {
    let system = ClaudeStreamMessage::System {
        subtype: "init".to_string(),
        session_id: "agent".to_string(),
        tools: vec![],
        model: "m".to_string(),
        cwd: None,
        extra: "{}".to_string(),
    };
    assert!(stored_message_of(&system, None, "i".to_string(), "t".to_string(), String::new()).is_none());
    let empty = ClaudeStreamMessage::Assistant {
        message: ClaudeAssistantMessage { content: vec![], model: String::new(), extra: "{}".to_string() },
        session_id: "agent".to_string(),
        extra: "{}".to_string(),
    };
    assert!(stored_message_of(&empty, None, "i".to_string(), "t".to_string(), String::new()).is_none());
}
