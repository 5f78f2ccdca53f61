use vstd::prelude::*;
use vstd::string::StringExecFns;
use crate::messages::{Id, MessageInfo, ServerToCli, ServerToWeb, SessionStatus, WebToServer};
use crate::registry::{SessionManager, OUTBOX_CAPACITY, delivered};
use crate::server::not_connected_reported;
use crate::storage::{DEFAULT_PAGE_LIMIT, StoredMessage};

verus! {

/// What a consumer connection remembers: the account it authenticated as
/// and the session it watches.
#[derive(Debug, Clone, Copy, PartialEq, Eq)]
pub struct ConsumerState {
    pub user_id: Option<Id>,
    pub session_id: Option<Id>,
}

impl ConsumerState {
    /// A connection that has neither authenticated nor picked a session.
    pub fn new() -> (r: ConsumerState)
        ensures
            r.user_id is None,
            r.session_id is None,
    {
        ConsumerState { user_id: None, session_id: None }
    }
}

/// Work a consumer message leaves for the connection task, which talks to
/// the account service, the metadata store and the message log.
#[derive(Debug, PartialEq)]
pub enum WebEffect {
    Nothing,
    /// Check this credential, then call `authenticated`.
    CheckCredential { token: String },
    /// Ask whether the account may watch the session, then call `attach_checked`.
    CheckAccess { user_id: Id, session_id: Id },
    /// Send the account's persisted sessions.
    ListSessions { user_id: Id },
    /// Read a history page of the session's log, then call `send_history`.
    LoadHistory { session_id: Id, limit: usize, before_id: Option<String> },
}

pub open spec fn not_authenticated_text() -> Seq<char> {
    "Not authenticated"@
}

pub open spec fn access_denied_text() -> Seq<char> {
    "Access denied"@
}

/// `m1` is `m0` after consumer `conn` was sent an error saying `text`
/// (dropped when its queue is full or it is gone).
pub open spec fn error_reported(m0: SessionManager, m1: SessionManager, conn: Id, text: Seq<char>) -> bool {
    &&& m1.sessions_view() == m0.sessions_view()
    &&& m1.producer_queues() == m0.producer_queues()
    &&& if m0.consumer_queues().contains_key(conn) && m0.consumer_queues()[conn].len() < OUTBOX_CAPACITY {
        &&& m1.consumer_queues().dom() == m0.consumer_queues().dom()
        &&& forall|c: Id| c != conn && #[trigger] m0.consumer_queues().contains_key(c)
            ==> m1.consumer_queues()[c] == m0.consumer_queues()[c]
        &&& m1.consumer_queues()[conn].drop_last() == m0.consumer_queues()[conn]
        &&& match m1.consumer_queues()[conn].last() {
            ServerToWeb::Error { message } => message@ == text,
            _ => false,
        }
    } else {
        m1.consumer_queues() == m0.consumer_queues()
    }
}

/// `m1` is `m0` after `msg` was queued for consumer `conn` (dropped when its
/// queue is full or it is gone).
pub open spec fn sent_to_consumer(m0: SessionManager, m1: SessionManager, conn: Id, msg: ServerToWeb) -> bool {
    &&& m1.sessions_view() == m0.sessions_view()
    &&& m1.producer_queues() == m0.producer_queues()
    &&& m1.consumer_queues() == if m0.consumer_queues().contains_key(conn) && m0.consumer_queues()[conn].len()
        < OUTBOX_CAPACITY {
        delivered(m0.consumer_queues(), conn, msg)
    } else {
        m0.consumer_queues()
    }
}

/// `m1` is `m0` after input `text` was routed to the producer of the watched
/// session `sid`, if there is one with room in its queue.
pub open spec fn input_routed(m0: SessionManager, m1: SessionManager, sid: Option<Id>, text: Seq<char>) -> bool {
    match sid {
        Some(s) => if m0.producer_of(s) is Some && m0.producer_queues()[m0.producer_of(s)->0].len()
            < OUTBOX_CAPACITY {
            let p = m0.producer_of(s)->0;
            &&& m1.producer_queues().dom() == m0.producer_queues().dom()
            &&& forall|c: Id| c != p && #[trigger] m0.producer_queues().contains_key(c)
                ==> m1.producer_queues()[c] == m0.producer_queues()[c]
            &&& m1.producer_queues()[p].drop_last() == m0.producer_queues()[p]
            &&& match m1.producer_queues()[p].last() {
                ServerToCli::Input { session_id, data } => session_id == s && data@ == text,
                _ => false,
            }
        } else {
            m1.producer_queues() == m0.producer_queues()
        },
        None => m1.producer_queues() == m0.producer_queues(),
    }
}

/// The history entry shown to a consumer for a logged message.
pub open spec fn message_info_of(m: StoredMessage) -> MessageInfo {
    MessageInfo {
        id: m.id,
        role: m.role,
        content: m.content,
        message_type: m.message_type,
        created_at: Some(m.created_at),
    }
}

impl SessionManager {
    fn route_input(&mut self, sid: Option<Id>, text: String)
        requires
            old(self).wf(),
        ensures
            final(self).wf(),
            input_routed(*old(self), *final(self), sid, text@),
            final(self).sessions_view() == old(self).sessions_view(),
            final(self).consumer_queues() == old(self).consumer_queues(),
            final(self).producer_sessions() == old(self).producer_sessions(),
            final(self).producer_users() == old(self).producer_users(),
    {
        if let Some(s) = sid {
            let ghost before = self.producer_queues();
            let ghost msg = ServerToCli::Input { session_id: s, data: text };
            let sent = self.route_to_cli(s, ServerToCli::Input { session_id: s, data: text });
            proof {
                if sent {
                    let p = old(self).producer_of(s)->0;
                    old(self).lemma_bound_producer_registered(s);
                    assert(self.producer_queues()[p] == before[p].push(msg));
                    assert(before[p].push(msg).drop_last() =~= before[p]);
                    assert(self.producer_queues().dom() =~= before.dom());
                }
            }
        }
    }

    fn report_error(&mut self, conn: Id, message: String) -> (r: bool)
        requires
            old(self).wf(),
        ensures
            final(self).wf(),
            error_reported(*old(self), *final(self), conn, message@),
            final(self).producer_sessions() == old(self).producer_sessions(),
            final(self).producer_users() == old(self).producer_users(),
    {
        let ghost before = self.consumer_queues();
        let ghost err = ServerToWeb::Error { message };
        let sent = self.send_to_web(conn, ServerToWeb::Error { message });
        proof {
            if sent {
                assert(self.consumer_queues()[conn] == before[conn].push(err));
                assert(before[conn].push(err).drop_last() =~= before[conn]);
                assert(self.consumer_queues().dom() =~= before.dom());
            }
        }
        sent
    }

    /// Handles one message of consumer `conn`, whose connection state is
    /// `cs`. Listing producers, starting, attaching to and listing sessions
    /// need an authenticated account; otherwise the consumer is told it is
    /// not authenticated. Input, approvals and signals go to the producer of
    /// the watched session. `fresh_session_id` names a session started here;
    /// `now_ms` stamps producer listings. Returns what the connection task
    /// must still do.
    pub fn handle_web_message(
        &mut self,
        conn: Id,
        cs: &mut ConsumerState,
        msg: WebToServer,
        fresh_session_id: Id,
        now_ms: i64,
    ) -> (r: WebEffect)
        requires
            old(self).wf(),
        ensures
            final(self).wf(),
            final(self).producer_users() == old(self).producer_users(),
            final(cs).user_id == old(cs).user_id,
            match msg {
                WebToServer::Authenticate { token } => {
                    &&& r == WebEffect::CheckCredential { token }
                    &&& *final(self) == *old(self)
                    &&& *final(cs) == *old(cs)
                },
                WebToServer::ListCliClients => {
                    &&& r == WebEffect::Nothing
                    &&& *final(cs) == *old(cs)
                    &&& final(self).sessions_view() == old(self).sessions_view()
                    &&& final(self).producer_queues() == old(self).producer_queues()
                    &&& old(cs).user_id is None ==> error_reported(
                        *old(self),
                        *final(self),
                        conn,
                        not_authenticated_text(),
                    )
                    &&& old(cs).user_id is Some ==> if old(self).consumer_queues().contains_key(conn)
                        && old(self).consumer_queues()[conn].len() < OUTBOX_CAPACITY {
                        &&& final(self).consumer_queues().dom() == old(self).consumer_queues().dom()
                        &&& forall|c: Id| c != conn && #[trigger] old(self).consumer_queues().contains_key(c)
                            ==> final(self).consumer_queues()[c] == old(self).consumer_queues()[c]
                        &&& final(self).consumer_queues()[conn].drop_last() == old(self).consumer_queues()[conn]
                        &&& match final(self).consumer_queues()[conn].last() {
                            ServerToWeb::CliClients { clients } => old(self).is_listing(
                                clients@,
                                old(cs).user_id,
                                now_ms,
                            ),
                            _ => false,
                        }
                    } else {
                        final(self).consumer_queues() == old(self).consumer_queues()
                    }
                },
                WebToServer::StartSession { cli_client_id } => {
                    &&& r == WebEffect::Nothing
                    &&& old(cs).user_id is None ==> *final(cs) == *old(cs) && error_reported(
                        *old(self),
                        *final(self),
                        conn,
                        not_authenticated_text(),
                    )
                    &&& old(cs).user_id is Some ==> {
                        &&& final(cs).session_id == Some(fresh_session_id)
                        &&& final(self).sessions_view().contains_key(fresh_session_id)
                        &&& final(self).sessions_view()[fresh_session_id].user_id == old(cs).user_id->0
                        &&& final(self).consumer_of(fresh_session_id) == Some(conn)
                        &&& (cli_client_id matches Some(c) && old(self).producer_queues().contains_key(c))
                            ==> final(self).producer_of(fresh_session_id) == cli_client_id
                        &&& (cli_client_id is None && old(self).producer_queues().dom().len() > 0)
                            ==> final(self).producer_of(fresh_session_id) is Some
                        &&& final(self).producer_of(fresh_session_id) is None ==> final(self).producer_queues()
                            == old(self).producer_queues()
                        &&& final(self).producer_of(fresh_session_id) matches Some(c) ==> final(self).producer_queues()
                            == if old(self).producer_queues()[c].len() < OUTBOX_CAPACITY {
                            delivered(
                                old(self).producer_queues(),
                                c,
                                ServerToCli::SessionAssigned { session_id: fresh_session_id, working_dir: None },
                            )
                        } else {
                            old(self).producer_queues()
                        }
                        &&& old(self).consumer_queues().contains_key(conn) && old(self).consumer_queues()[conn].len()
                            + 2 <= OUTBOX_CAPACITY ==> final(self).consumer_queues() == old(self).consumer_queues().insert(
                            conn,
                            old(self).consumer_queues()[conn].push(
                                ServerToWeb::SessionStarted { session_id: fresh_session_id, pane_type: None },
                            ).push(
                                ServerToWeb::SessionStatus {
                                    status: if final(self).producer_of(fresh_session_id) is Some {
                                        SessionStatus::Connected
                                    } else {
                                        SessionStatus::Pending
                                    },
                                },
                            ),
                        )
                        &&& !old(self).consumer_queues().contains_key(conn) ==> final(self).consumer_queues() == old(
                            self,
                        ).consumer_queues()
                    }
                },
                WebToServer::ResumeSession { session_id } => {
                    &&& r == WebEffect::Nothing
                    &&& final(cs).session_id == Some(session_id)
                    &&& *final(self) == *old(self)
                },
                WebToServer::AttachSession { session_id } => {
                    &&& *final(cs) == *old(cs)
                    &&& match old(cs).user_id {
                        Some(u) => r == WebEffect::CheckAccess { user_id: u, session_id } && *final(self)
                            == *old(self),
                        None => r == WebEffect::Nothing && error_reported(
                            *old(self),
                            *final(self),
                            conn,
                            not_authenticated_text(),
                        ),
                    }
                },
                WebToServer::Input { text, pane_type } => {
                    &&& r == WebEffect::Nothing
                    &&& *final(cs) == *old(cs)
                    &&& final(self).sessions_view() == old(self).sessions_view()
                    &&& match old(cs).session_id {
                        Some(sid) => if old(self).producer_of(sid) is Some && old(self).producer_queues()[old(
                            self,
                        ).producer_of(sid)->0].len() < OUTBOX_CAPACITY {
                            &&& final(self).producer_queues() == delivered(
                                old(self).producer_queues(),
                                old(self).producer_of(sid)->0,
                                ServerToCli::Input { session_id: sid, data: text },
                            )
                            &&& final(self).consumer_queues() == old(self).consumer_queues()
                        } else {
                            &&& final(self).producer_queues() == old(self).producer_queues()
                            &&& not_connected_reported(*old(self), *final(self), conn)
                        },
                        None => final(self).producer_queues() == old(self).producer_queues()
                            && final(self).consumer_queues() == old(self).consumer_queues(),
                    }
                },
                WebToServer::Approve { .. } => {
                    &&& r == WebEffect::Nothing
                    &&& *final(cs) == *old(cs)
                    &&& final(self).sessions_view() == old(self).sessions_view()
                    &&& final(self).consumer_queues() == old(self).consumer_queues()
                    &&& input_routed(*old(self), *final(self), old(cs).session_id, "y"@)
                },
                WebToServer::Reject { .. } => {
                    &&& r == WebEffect::Nothing
                    &&& *final(cs) == *old(cs)
                    &&& final(self).sessions_view() == old(self).sessions_view()
                    &&& final(self).consumer_queues() == old(self).consumer_queues()
                    &&& input_routed(*old(self), *final(self), old(cs).session_id, "n"@)
                },
                WebToServer::Signal { signal } => {
                    &&& r == WebEffect::Nothing
                    &&& *final(cs) == *old(cs)
                    &&& final(self).sessions_view() == old(self).sessions_view()
                    &&& final(self).consumer_queues() == old(self).consumer_queues()
                    &&& match old(cs).session_id {
                        Some(sid) => if old(self).producer_of(sid) is Some && old(self).producer_queues()[old(
                            self,
                        ).producer_of(sid)->0].len() < OUTBOX_CAPACITY {
                            final(self).producer_queues() == delivered(
                                old(self).producer_queues(),
                                old(self).producer_of(sid)->0,
                                ServerToCli::Signal { session_id: sid, signal },
                            )
                        } else {
                            final(self).producer_queues() == old(self).producer_queues()
                        },
                        None => final(self).producer_queues() == old(self).producer_queues(),
                    }
                },
                WebToServer::ListSessions => {
                    &&& *final(cs) == *old(cs)
                    &&& match old(cs).user_id {
                        Some(u) => r == WebEffect::ListSessions { user_id: u } && *final(self) == *old(self),
                        None => r == WebEffect::Nothing && error_reported(
                            *old(self),
                            *final(self),
                            conn,
                            not_authenticated_text(),
                        ),
                    }
                },
                WebToServer::GetSessionMessages { session_id, limit, before_id } => {
                    &&& r == WebEffect::LoadHistory {
                        session_id,
                        limit: match limit {
                            Some(l) => l,
                            None => DEFAULT_PAGE_LIMIT,
                        },
                        before_id,
                    }
                    &&& *final(cs) == *old(cs)
                    &&& *final(self) == *old(self)
                },
            },
    {
        match msg {
            WebToServer::Authenticate { token } => WebEffect::CheckCredential { token },
            WebToServer::ListCliClients => {
                match cs.user_id {
                    Some(uid) => {
                        let clients = self.get_cli_clients_info_for_user(uid, now_ms);
                        let ghost before = self.consumer_queues();
                        let ghost msg = ServerToWeb::CliClients { clients };
                        let sent = self.send_to_web(conn, ServerToWeb::CliClients { clients });
                        proof {
                            if sent {
                                assert(self.consumer_queues()[conn] == before[conn].push(msg));
                                assert(before[conn].push(msg).drop_last() =~= before[conn]);
                                assert(self.consumer_queues().dom() =~= before.dom());
                            }
                        }
                    },
                    None => {
                        self.report_error(conn, String::from_str("Not authenticated"));
                    },
                }
                WebEffect::Nothing
            },
            WebToServer::StartSession { cli_client_id } => {
                match cs.user_id {
                    Some(uid) => {
                        self.start_session(conn, uid, cli_client_id, fresh_session_id);
                        cs.session_id = Some(fresh_session_id);
                    },
                    None => {
                        self.report_error(conn, String::from_str("Not authenticated"));
                    },
                }
                WebEffect::Nothing
            },
            WebToServer::ResumeSession { session_id } => {
                cs.session_id = Some(session_id);
                WebEffect::Nothing
            },
            WebToServer::AttachSession { session_id } => match cs.user_id {
                Some(uid) => WebEffect::CheckAccess { user_id: uid, session_id },
                None => {
                    self.report_error(conn, String::from_str("Not authenticated"));
                    WebEffect::Nothing
                },
            },
            WebToServer::Input { text, pane_type: _ } => {
                self.forward_input(conn, cs.session_id, text);
                WebEffect::Nothing
            },
            WebToServer::Approve { .. } => {
                self.route_input(cs.session_id, String::from_str("y"));
                WebEffect::Nothing
            },
            WebToServer::Reject { .. } => {
                self.route_input(cs.session_id, String::from_str("n"));
                WebEffect::Nothing
            },
            WebToServer::Signal { signal } => {
                self.forward_signal(cs.session_id, signal);
                WebEffect::Nothing
            },
            WebToServer::ListSessions => match cs.user_id {
                Some(uid) => WebEffect::ListSessions { user_id: uid },
                None => {
                    self.report_error(conn, String::from_str("Not authenticated"));
                    WebEffect::Nothing
                },
            },
            WebToServer::GetSessionMessages { session_id, limit, before_id } => WebEffect::LoadHistory {
                session_id,
                limit: match limit {
                    Some(l) => l,
                    None => DEFAULT_PAGE_LIMIT,
                },
                before_id,
            },
        }
    }

    /// Starts session `sid` for account `uid` watched by consumer `conn`, with
    /// the named producer or else some registered one, and tells both sides.
    fn start_session(&mut self, conn: Id, uid: Id, cli_client_id: Option<Id>, sid: Id)
        requires
            old(self).wf(),
        ensures
            final(self).wf(),
            final(self).producer_users() == old(self).producer_users(),
            final(self).sessions_view().contains_key(sid),
            final(self).sessions_view()[sid].user_id == uid,
            final(self).consumer_of(sid) == Some(conn),
            (cli_client_id matches Some(c) && old(self).producer_queues().contains_key(c))
                ==> final(self).producer_of(sid) == cli_client_id,
            (cli_client_id is None && old(self).producer_queues().dom().len() > 0) ==> final(self).producer_of(
                sid,
            ) is Some,
            final(self).producer_of(sid) is None ==> final(self).producer_queues() == old(self).producer_queues(),
            final(self).producer_of(sid) matches Some(c) ==> final(self).producer_queues() == if old(
                self,
            ).producer_queues()[c].len() < OUTBOX_CAPACITY {
                delivered(old(self).producer_queues(), c, ServerToCli::SessionAssigned { session_id: sid, working_dir: None })
            } else {
                old(self).producer_queues()
            },
            old(self).consumer_queues().contains_key(conn) && old(self).consumer_queues()[conn].len() + 2
                <= OUTBOX_CAPACITY ==> final(self).consumer_queues() == old(self).consumer_queues().insert(
                conn,
                old(self).consumer_queues()[conn].push(ServerToWeb::SessionStarted { session_id: sid, pane_type: None }).push(
                    ServerToWeb::SessionStatus {
                        status: if final(self).producer_of(sid) is Some {
                            SessionStatus::Connected
                        } else {
                            SessionStatus::Pending
                        },
                    },
                ),
            ),
            !old(self).consumer_queues().contains_key(conn) ==> final(self).consumer_queues() == old(
                self,
            ).consumer_queues(),
    {
        self.create_session(sid, uid, conn);
        let online = self.get_online_cli_ids();
        let chosen = match cli_client_id {
            Some(c) => Some(c),
            None => if online.len() > 0 {
                Some(online[0])
            } else {
                None
            },
        };
        proof {
            if cli_client_id is None {
                if online@.len() > 0 {
                    assert(online@.to_set().contains(online@[0]));
                } else {
                    assert(online@.to_set() =~= Set::<Id>::empty());
                }
            }
        }
        let mut assigned = false;
        if let Some(c) = chosen {
            assigned = self.assign_cli_to_session(sid, c);
            if assigned {
                self.send_to_cli(c, ServerToCli::SessionAssigned { session_id: sid, working_dir: None });
            }
        }
        self.send_to_web(conn, ServerToWeb::SessionStarted { session_id: sid, pane_type: None });
        let status = if assigned {
            SessionStatus::Connected
        } else {
            SessionStatus::Pending
        };
        self.send_to_web(conn, ServerToWeb::SessionStatus { status });
    }

    /// Records the account service's answer for consumer `conn`: on success
    /// the connection is authenticated as that account and told so; on
    /// failure it is told why.
    pub fn authenticated(&mut self, conn: Id, cs: &mut ConsumerState, result: Result<Id, String>)
        requires
            old(self).wf(),
        ensures
            final(self).wf(),
            final(self).producer_users() == old(self).producer_users(),
            final(cs).session_id == old(cs).session_id,
            match result {
                Ok(uid) => final(cs).user_id == Some(uid) && sent_to_consumer(
                    *old(self),
                    *final(self),
                    conn,
                    ServerToWeb::Authenticated { user_id: uid },
                ),
                Err(reason) => final(cs).user_id == old(cs).user_id && sent_to_consumer(
                    *old(self),
                    *final(self),
                    conn,
                    ServerToWeb::AuthenticationFailed { reason },
                ),
            },
    {
        match result {
            Ok(uid) => {
                cs.user_id = Some(uid);
                self.send_to_web(conn, ServerToWeb::Authenticated { user_id: uid });
            },
            Err(reason) => {
                self.send_to_web(conn, ServerToWeb::AuthenticationFailed { reason });
            },
        }
    }

    /// Records the metadata store's answer to whether consumer `conn` may
    /// watch `sid`. When it may, it is attached (told the session started
    /// and is connected) and watches `sid`; otherwise it is told access is
    /// denied and nothing is bound. Returns whether it was attached.
    pub fn attach_checked(&mut self, conn: Id, cs: &mut ConsumerState, sid: Id, allowed: bool) -> (r: bool)
        requires
            old(self).wf(),
        ensures
            final(self).wf(),
            final(self).producer_users() == old(self).producer_users(),
            final(self).producer_queues() == old(self).producer_queues(),
            r == allowed,
            final(cs).user_id == old(cs).user_id,
            allowed ==> final(cs).session_id == Some(sid) && final(self).consumer_of(sid) == Some(conn)
                && final(self).producer_of(sid) == old(self).producer_of(sid),
            allowed && old(self).consumer_queues().contains_key(conn) && old(self).consumer_queues()[conn].len() + 2
                <= OUTBOX_CAPACITY ==> final(self).consumer_queues() == old(self).consumer_queues().insert(
                conn,
                old(self).consumer_queues()[conn].push(ServerToWeb::SessionStarted { session_id: sid, pane_type: None }).push(
                    ServerToWeb::SessionStatus { status: SessionStatus::Connected },
                ),
            ),
            allowed && !old(self).consumer_queues().contains_key(conn) ==> final(self).consumer_queues() == old(
                self,
            ).consumer_queues(),
            !allowed ==> *final(cs) == *old(cs) && error_reported(
                *old(self),
                *final(self),
                conn,
                access_denied_text(),
            ),
    {
        if allowed {
            self.attach_consumer(conn, sid);
            cs.session_id = Some(sid);
            true
        } else {
            self.report_error(conn, String::from_str("Access denied"));
            false
        }
    }

    /// Sends consumer `conn` a page of the history of `sid`.
    pub fn send_history(&mut self, conn: Id, sid: Id, page: Vec<StoredMessage>, has_more: bool) -> (r: bool)
        requires
            old(self).wf(),
        ensures
            final(self).wf(),
            final(self).producer_users() == old(self).producer_users(),
            final(self).sessions_view() == old(self).sessions_view(),
            final(self).producer_queues() == old(self).producer_queues(),
            r == (old(self).consumer_queues().contains_key(conn) && old(self).consumer_queues()[conn].len()
                < OUTBOX_CAPACITY),
            r ==> final(self).consumer_queues().dom() == old(self).consumer_queues().dom()
                && final(self).consumer_queues()[conn].drop_last() == old(self).consumer_queues()[conn]
                && match final(self).consumer_queues()[conn].last() {
                ServerToWeb::SessionMessages { session_id, messages, has_more: more } => session_id == sid
                    && more == has_more && messages@ == page@.map_values(|m: StoredMessage| message_info_of(m)),
                _ => false,
            },
            !r ==> final(self).consumer_queues() == old(self).consumer_queues(),
    {
        let mut rest = page;
        let ghost orig = rest@;
        let mut messages: Vec<MessageInfo> = Vec::new();
        let n = rest.len();
        let mut i: usize = 0;
        while i < n
            invariant
                n == orig.len(),
                0 <= i <= n,
                rest@ == orig.subrange(i as int, n as int),
                messages@ == orig.subrange(0, i as int).map_values(|m: StoredMessage| message_info_of(m)),
            decreases n - i,
        {
            let m = rest.remove(0);
            assert(m == orig[i as int]);
            assert(rest@ =~= orig.subrange(i + 1, n as int));
            messages.push(
                MessageInfo {
                    id: m.id,
                    role: m.role,
                    content: m.content,
                    message_type: m.message_type,
                    created_at: Some(m.created_at),
                },
            );
            assert(messages@ =~= orig.subrange(0, i + 1).map_values(|m: StoredMessage| message_info_of(m)));
            i = i + 1;
        }
        assert(orig.subrange(0, n as int) == orig);
        let ghost before = self.consumer_queues();
        let ghost msg = ServerToWeb::SessionMessages { session_id: sid, messages, has_more };
        let sent = self.send_to_web(conn, ServerToWeb::SessionMessages { session_id: sid, messages, has_more });
        proof {
            if sent {
                assert(self.consumer_queues()[conn] == before[conn].push(msg));
                assert(before[conn].push(msg).drop_last() =~= before[conn]);
                assert(self.consumer_queues().dom() =~= before.dom());
            }
        }
        sent
    }
}

} // verus!
