use vstd::prelude::*;
use vstd::string::StringExecFns;
use crate::chars::{chars_of, string_from_chars};
use crate::messages::{
    ClaudeContentBlock, ClaudeStreamMessage, CliToServer, Id, PaneType, ServerToCli, ServerToWeb, SessionStatus,
};
use crate::storage::StoredMessage;
use crate::registry::{SessionManager, OUTBOX_CAPACITY, announced, delivered};
use crate::version::{MIN_CLIENT_VERSION, is_version_supported, version_supported};

verus! {

/// What the server does with the first messages of a producer connection.
#[derive(Debug, PartialEq)]
pub enum RegistrationOutcome {
    /// Not a registration: ignore it and keep waiting for one.
    Ignored,
    /// The version is too old: send this one reply, then close the connection.
    Rejected(ServerToCli),
    /// Registered: send this reply; the connection may now announce sessions.
    Accepted(ServerToCli),
}

/// The version text a producer reported, or `unknown` when it gave none.
pub open spec fn reported_version(version: Option<String>) -> Seq<char> {
    match version {
        Some(v) => v@,
        None => "unknown"@,
    }
}

/// The outcome of registration message `msg` when the server would give the
/// new connection id `new_cli_id`.
pub open spec fn registration_spec(msg: CliToServer, new_cli_id: Id, r: RegistrationOutcome) -> bool {
    match msg {
        CliToServer::Register { token, version } => {
            if version_supported(reported_version(version), MIN_CLIENT_VERSION@) {
                r == RegistrationOutcome::Accepted(ServerToCli::Registered { cli_id: new_cli_id })
            } else {
                match r {
                    RegistrationOutcome::Rejected(ServerToCli::VersionUnsupported { client_version, min_version }) =>
                        client_version@ == reported_version(version) && min_version@ == MIN_CLIENT_VERSION@,
                    _ => false,
                }
            }
        },
        _ => r == RegistrationOutcome::Ignored,
    }
}

/// Decides the reply to a message that arrives before a producer is
/// registered. The version check comes before anything else; `new_cli_id` is
/// the id the connection gets when accepted.
pub fn registration_outcome(msg: &CliToServer, new_cli_id: Id) -> (r: RegistrationOutcome)
    ensures
        registration_spec(*msg, new_cli_id, r),
{
    match msg {
        CliToServer::Register { token: _, version } => {
            let reported = match version {
                Some(v) => v.clone(),
                None => String::from_str("unknown"),
            };
            if is_version_supported(reported.as_str()) {
                RegistrationOutcome::Accepted(ServerToCli::Registered { cli_id: new_cli_id })
            } else {
                RegistrationOutcome::Rejected(
                    ServerToCli::VersionUnsupported {
                        client_version: reported,
                        min_version: String::from_str(MIN_CLIENT_VERSION),
                    },
                )
            }
        },
        _ => RegistrationOutcome::Ignored,
    }
}

/// Version gate: a producer whose reported version parses and is below the
/// minimum gets exactly one reply, `VersionUnsupported`, after which the
/// connection closes; it is never sent `Registered`.
pub proof fn lemma_version_gate(token: String, v: String, new_cli_id: Id, r: RegistrationOutcome)
    requires
        !version_supported(v@, MIN_CLIENT_VERSION@),
        registration_spec(CliToServer::Register { token, version: Some(v) }, new_cli_id, r),
    ensures
        r matches RegistrationOutcome::Rejected(ServerToCli::VersionUnsupported { .. }),
        !(r matches RegistrationOutcome::Accepted(_)),
{
}

/// What the connection task must still do outside the registry after a
/// producer message was handled.
#[derive(Debug, PartialEq)]
pub enum CliEffect {
    /// Nothing.
    Nothing,
    /// Persist the announced session as active.
    PersistSession { session_id: Id, working_dir: Option<String>, hostname: Option<String> },
    /// Append the producer-typed prompt to the session's log.
    LogUserInput { session_id: Id, text: String },
    /// Mark the session ended in storage.
    MarkEnded { session_id: Id },
}

impl SessionManager {
    /// Handles one message of registered producer `cli_id`: announcements
    /// update the registry, outputs and events go to the session's consumer
    /// (dropped from the live path when none is bound), and a heartbeat is
    /// answered. Returns the storage work that remains.
    pub fn handle_cli_message(&mut self, cli_id: Id, msg: CliToServer) -> (r: CliEffect)
        requires
            old(self).wf(),
        ensures
            final(self).wf(),
            final(self).producer_users() == old(self).producer_users(),
            match msg {
                CliToServer::SessionStart { session_id, working_dir, hostname } => {
                    &&& r == CliEffect::PersistSession { session_id, working_dir, hostname }
                    &&& old(self).producer_queues().contains_key(cli_id) ==> final(self).sessions_view()
                        == old(self).sessions_view().insert(
                        session_id,
                        announced(old(self).sessions_view(), session_id, cli_id),
                    )
                    &&& !old(self).producer_queues().contains_key(cli_id) ==> final(self).sessions_view()
                        == old(self).sessions_view()
                    &&& final(self).consumer_queues() == old(self).consumer_queues()
                    &&& final(self).producer_queues() == old(self).producer_queues()
                },
                CliToServer::Output { session_id, data, output_type, pane_type } => {
                    &&& r == CliEffect::Nothing
                    &&& routed_to_consumer(
                        *old(self),
                        *final(self),
                        session_id,
                        ServerToWeb::Output { content: data, output_type, pane_type },
                    )
                },
                CliToServer::StreamMessage { session_id, message, pane_type } => {
                    &&& r == CliEffect::Nothing
                    &&& routed_to_consumer(
                        *old(self),
                        *final(self),
                        session_id,
                        ServerToWeb::StreamMessage { session_id, message, pane_type },
                    )
                },
                CliToServer::UserInput { session_id, text, pane_type } => {
                    &&& r == CliEffect::LogUserInput { session_id, text }
                    &&& routed_to_consumer(
                        *old(self),
                        *final(self),
                        session_id,
                        ServerToWeb::UserInput { session_id, text, pane_type },
                    )
                },
                CliToServer::SessionEnd { session_id, reason } => {
                    &&& r == CliEffect::MarkEnded { session_id }
                    &&& routed_to_consumer(
                        *old(self),
                        *final(self),
                        session_id,
                        ServerToWeb::SessionStatus { status: SessionStatus::Ended },
                    )
                },
                CliToServer::Heartbeat => {
                    &&& r == CliEffect::Nothing
                    &&& final(self).sessions_view() == old(self).sessions_view()
                    &&& final(self).consumer_queues() == old(self).consumer_queues()
                    &&& final(self).producer_queues() == if old(self).producer_queues().contains_key(cli_id)
                        && old(self).producer_queues()[cli_id].len() < OUTBOX_CAPACITY {
                        delivered(old(self).producer_queues(), cli_id, ServerToCli::Heartbeat)
                    } else {
                        old(self).producer_queues()
                    }
                },
                CliToServer::Register { .. } => {
                    &&& r == CliEffect::Nothing
                    &&& final(self).sessions_view() == old(self).sessions_view()
                    &&& final(self).consumer_queues() == old(self).consumer_queues()
                    &&& final(self).producer_queues() == old(self).producer_queues()
                },
            },
    {
        match msg {
            CliToServer::SessionStart { session_id, working_dir, hostname } => {
                self.create_cli_session(session_id, cli_id);
                CliEffect::PersistSession { session_id, working_dir, hostname }
            },
            CliToServer::Output { session_id, data, output_type, pane_type } => {
                self.route_to_web(session_id, ServerToWeb::Output { content: data, output_type, pane_type });
                CliEffect::Nothing
            },
            CliToServer::StreamMessage { session_id, message, pane_type } => {
                self.route_to_web(session_id, ServerToWeb::StreamMessage { session_id, message, pane_type });
                CliEffect::Nothing
            },
            CliToServer::UserInput { session_id, text, pane_type } => {
                let logged = text.clone();
                self.route_to_web(session_id, ServerToWeb::UserInput { session_id, text, pane_type });
                CliEffect::LogUserInput { session_id, text: logged }
            },
            CliToServer::SessionEnd { session_id, reason: _ } => {
                self.route_to_web(session_id, ServerToWeb::SessionStatus { status: SessionStatus::Ended });
                CliEffect::MarkEnded { session_id }
            },
            CliToServer::Heartbeat => {
                self.send_to_cli(cli_id, ServerToCli::Heartbeat);
                CliEffect::Nothing
            },
            CliToServer::Register { .. } => CliEffect::Nothing,
        }
    }

    /// Input typed by consumer `connection_id`, which watches `session_id`
    /// (if any), goes to the session's producer. When it cannot be delivered
    /// the consumer is sent an error saying the producer is not connected.
    /// Returns whether the input reached the producer's queue.
    pub fn forward_input(&mut self, connection_id: Id, session_id: Option<Id>, text: String) -> (r: bool)
        requires
            old(self).wf(),
        ensures
            final(self).wf(),
            final(self).sessions_view() == old(self).sessions_view(),
            final(self).producer_users() == old(self).producer_users(),
            match session_id {
                Some(sid) => {
                    &&& r == (old(self).producer_of(sid) is Some && old(self).producer_queues()[old(
                        self,
                    ).producer_of(sid)->0].len() < OUTBOX_CAPACITY)
                    &&& final(self).producer_queues() == if r {
                        delivered(
                            old(self).producer_queues(),
                            old(self).producer_of(sid)->0,
                            ServerToCli::Input { session_id: sid, data: text },
                        )
                    } else {
                        old(self).producer_queues()
                    }
                    &&& r ==> final(self).consumer_queues() == old(self).consumer_queues()
                    &&& !r ==> not_connected_reported(*old(self), *final(self), connection_id)
                },
                None => {
                    &&& !r
                    &&& final(self).producer_queues() == old(self).producer_queues()
                    &&& final(self).consumer_queues() == old(self).consumer_queues()
                },
            },
    {
        match session_id {
            Some(sid) => {
                let sent = self.route_to_cli(sid, ServerToCli::Input { session_id: sid, data: text });
                if !sent {
                    let ghost before = self.consumer_queues();
                    let message = not_connected_message();
                    let ghost err = ServerToWeb::Error { message };
                    self.send_to_web(connection_id, ServerToWeb::Error { message });
                    proof {
                        if before.contains_key(connection_id) && before[connection_id].len() < OUTBOX_CAPACITY {
                            assert(self.consumer_queues()[connection_id] == before[connection_id].push(err));
                            assert(before[connection_id].push(err).drop_last() =~= before[connection_id]);
                            assert(self.consumer_queues().dom() =~= before.dom());
                        }
                    }
                }
                sent
            },
            None => false,
        }
    }

    /// A signal from consumer watching `session_id` goes to the session's
    /// producer. Returns whether it reached the producer's queue.
    pub fn forward_signal(&mut self, session_id: Option<Id>, signal: String) -> (r: bool)
        requires
            old(self).wf(),
        ensures
            final(self).wf(),
            final(self).sessions_view() == old(self).sessions_view(),
            final(self).consumer_queues() == old(self).consumer_queues(),
            final(self).producer_users() == old(self).producer_users(),
            match session_id {
                Some(sid) => {
                    &&& r == (old(self).producer_of(sid) is Some && old(self).producer_queues()[old(
                        self,
                    ).producer_of(sid)->0].len() < OUTBOX_CAPACITY)
                    &&& final(self).producer_queues() == if r {
                        delivered(
                            old(self).producer_queues(),
                            old(self).producer_of(sid)->0,
                            ServerToCli::Signal { session_id: sid, signal },
                        )
                    } else {
                        old(self).producer_queues()
                    }
                },
                None => !r && final(self).producer_queues() == old(self).producer_queues(),
            },
    {
        match session_id {
            Some(sid) => self.route_to_cli(sid, ServerToCli::Signal { session_id: sid, signal }),
            None => false,
        }
    }

    /// Attaches consumer `connection_id` to `session_id` (access was checked
    /// by the caller) and tells it the session started and is connected.
    pub fn attach_consumer(&mut self, connection_id: Id, session_id: Id)
        requires
            old(self).wf(),
        ensures
            final(self).wf(),
            final(self).consumer_of(session_id) == Some(connection_id),
            final(self).producer_of(session_id) == old(self).producer_of(session_id),
            final(self).producer_queues() == old(self).producer_queues(),
            final(self).producer_users() == old(self).producer_users(),
            old(self).consumer_queues().contains_key(connection_id)
                && old(self).consumer_queues()[connection_id].len() + 2 <= OUTBOX_CAPACITY
                ==> final(self).consumer_queues() == old(self).consumer_queues().insert(
                connection_id,
                old(self).consumer_queues()[connection_id].push(
                    ServerToWeb::SessionStarted { session_id, pane_type: None },
                ).push(ServerToWeb::SessionStatus { status: SessionStatus::Connected }),
            ),
            !old(self).consumer_queues().contains_key(connection_id) ==> final(self).consumer_queues()
                == old(self).consumer_queues(),
    {
        self.attach_web_to_session(session_id, connection_id);
        self.send_to_web(connection_id, ServerToWeb::SessionStarted { session_id, pane_type: None });
        self.send_to_web(connection_id, ServerToWeb::SessionStatus { status: SessionStatus::Connected });
    }
}

/// The error text a consumer gets when its session has no producer.
pub open spec fn not_connected_text() -> Seq<char> {
    "CLI client not connected"@
}

fn not_connected_message() -> (r: String)
    ensures
        r@ == not_connected_text(),
{
    String::from_str("CLI client not connected")
}

/// `m1` is `m0` after `msg` was routed to the consumer of session `sid`.
pub open spec fn routed_to_consumer(m0: SessionManager, m1: SessionManager, sid: Id, msg: ServerToWeb) -> bool {
    let ok = m0.consumer_of(sid) is Some && m0.consumer_queues().contains_key(m0.consumer_of(sid)->0)
        && m0.consumer_queues()[m0.consumer_of(sid)->0].len() < OUTBOX_CAPACITY;
    &&& m1.sessions_view() == m0.sessions_view()
    &&& m1.producer_queues() == m0.producer_queues()
    &&& m1.consumer_queues() == if ok {
        delivered(m0.consumer_queues(), m0.consumer_of(sid)->0, msg)
    } else {
        m0.consumer_queues()
    }
}

/// `m1` is `m0` after consumer `conn` was sent the not-connected error
/// (dropped when its queue is full or it is gone).
pub open spec fn not_connected_reported(m0: SessionManager, m1: SessionManager, conn: Id) -> bool {
    if m0.consumer_queues().contains_key(conn) && m0.consumer_queues()[conn].len() < OUTBOX_CAPACITY {
        &&& m1.consumer_queues().dom() == m0.consumer_queues().dom()
        &&& forall|c: Id| c != conn && #[trigger] m0.consumer_queues().contains_key(c)
            ==> m1.consumer_queues()[c] == m0.consumer_queues()[c]
        &&& m1.consumer_queues()[conn].len() == m0.consumer_queues()[conn].len() + 1
        &&& m1.consumer_queues()[conn].drop_last() == m0.consumer_queues()[conn]
        &&& match m1.consumer_queues()[conn].last() {
            ServerToWeb::Error { message } => message@ == not_connected_text(),
            _ => false,
        }
    } else {
        m1.consumer_queues() == m0.consumer_queues()
    }
}


/// What a logged message holds: id, role, content, type, creation time and
/// pane, as text.
pub open spec fn stored_view(m: StoredMessage) -> (Seq<char>, Seq<char>, Seq<char>, Seq<char>, Seq<char>, Option<Seq<char>>) {
    (
        m.id@,
        m.role@,
        m.content@,
        m.message_type@,
        m.created_at@,
        match m.pane_type {
            Some(p) => Some(p@),
            None => None,
        },
    )
}

pub open spec fn opt_stored_view(m: Option<StoredMessage>) -> Option<(Seq<char>, Seq<char>, Seq<char>, Seq<char>, Seq<char>, Option<Seq<char>>)> {
    match m {
        Some(s) => Some(stored_view(s)),
        None => None,
    }
}

/// The name a pane is logged under.
pub open spec fn pane_name(pane: Option<PaneType>) -> Option<Seq<char>> {
    match pane {
        Some(PaneType::Deadloop) => Some("deadloop"@),
        Some(PaneType::Interactive) => Some("interactive"@),
        None => None,
    }
}

/// The logged line of a content block: a text block's text, a tool use as
/// `[Tool: name] input`; tool results are not logged.
pub open spec fn block_line(b: ClaudeContentBlock) -> Option<Seq<char>> {
    match b {
        ClaudeContentBlock::Text { text } => Some(text@),
        ClaudeContentBlock::ToolUse { id, name, input } => Some("[Tool: "@ + name@ + "] "@ + input@),
        ClaudeContentBlock::ToolResult { .. } => None,
    }
}

/// The logged lines of `blocks`, in order.
pub open spec fn block_lines(blocks: Seq<ClaudeContentBlock>) -> Seq<Seq<char>>
    decreases blocks.len(),
{
    if blocks.len() == 0 {
        Seq::empty()
    } else {
        let prev = block_lines(blocks.drop_last());
        match block_line(blocks.last()) {
            Some(l) => prev.push(l),
            None => prev,
        }
    }
}

/// `lines` joined with line breaks.
pub open spec fn join_lines(lines: Seq<Seq<char>>) -> Seq<char>
    decreases lines.len(),
{
    if lines.len() == 0 {
        Seq::empty()
    } else if lines.len() == 1 {
        lines[0]
    } else {
        join_lines(lines.drop_last()) + "\n"@ + lines.last()
    }
}

pub open spec fn digit_of(d: nat) -> char {
    if d == 0 { '0' } else if d == 1 { '1' } else if d == 2 { '2' } else if d == 3 { '3' } else if d == 4 {
        '4'
    } else if d == 5 { '5' } else if d == 6 { '6' } else if d == 7 { '7' } else if d == 8 { '8' } else { '9' }
}

/// The decimal digits of `n`.
pub open spec fn decimal(n: nat) -> Seq<char>
    decreases n,
{
    if n < 10 {
        seq![digit_of(n)]
    } else {
        decimal(n / 10).push(digit_of(n % 10))
    }
}

/// The log record of agent event `message` of pane `pane`, with id `id`,
/// time `created_at` and the cost written as `cost_text`: the text and tool
/// uses of an assistant message (if it has any), one per line, as an
/// assistant text record; a final result as a system result record
/// `subtype - Cost: $cost, Duration: Nms`; nothing for other events.
pub open spec fn stored_of(
    message: ClaudeStreamMessage,
    pane: Option<PaneType>,
    id: Seq<char>,
    created_at: Seq<char>,
    cost_text: Seq<char>,
) -> Option<(Seq<char>, Seq<char>, Seq<char>, Seq<char>, Seq<char>, Option<Seq<char>>)> {
    match message {
        ClaudeStreamMessage::Assistant { message, .. } => {
            let lines = block_lines(message.content@);
            if lines.len() == 0 {
                None
            } else {
                Some((id, "assistant"@, join_lines(lines), "text"@, created_at, pane_name(pane)))
            }
        },
        ClaudeStreamMessage::Result { subtype, duration_ms, .. } => Some(
            (
                id,
                "system"@,
                subtype@ + " - Cost: $"@ + cost_text + ", Duration: "@ + decimal(duration_ms as nat) + "ms"@,
                "result"@,
                created_at,
                pane_name(pane),
            ),
        ),
        _ => None,
    }
}

fn append_str(out: &mut Vec<char>, s: &str)
    ensures
        final(out)@ == old(out)@ + s@,
{
    let mut cs = chars_of(s);
    out.append(&mut cs);
}

fn digit_char(d: u64) -> (r: char)
    requires
        d < 10,
    ensures
        r == digit_of(d as nat),
{
    if d == 0 { '0' } else if d == 1 { '1' } else if d == 2 { '2' } else if d == 3 { '3' } else if d == 4 {
        '4'
    } else if d == 5 { '5' } else if d == 6 { '6' } else if d == 7 { '7' } else if d == 8 { '8' } else { '9' }
}

fn push_decimal(out: &mut Vec<char>, n: u64)
    ensures
        final(out)@ == old(out)@ + decimal(n as nat),
    decreases n,
{
    if n >= 10 {
        push_decimal(out, n / 10);
    }
    out.push(digit_char(n % 10));
    proof {
        if n >= 10 {
            assert(decimal(n as nat) == decimal((n / 10) as nat).push(digit_of((n % 10) as nat)));
        }
    }
    assert(final(out)@ =~= old(out)@ + decimal(n as nat));
}

fn pane_string(pane: Option<PaneType>) -> (r: Option<String>)
    ensures
        match r {
            Some(s) => pane_name(pane) == Some(s@),
            None => pane_name(pane) is None,
        },
{
    match pane {
        Some(PaneType::Deadloop) => Some(String::from_str("deadloop")),
        Some(PaneType::Interactive) => Some(String::from_str("interactive")),
        None => None,
    }
}

/// The log record the router appends for an agent event, if any: see
/// `stored_of`. `id` and `created_at` are the record's fresh id and time,
/// `cost_text` the event's cost as it is to be shown.
pub fn stored_message_of(
    message: &ClaudeStreamMessage,
    pane: Option<PaneType>,
    id: String,
    created_at: String,
    cost_text: String,
) -> (r: Option<StoredMessage>)
    ensures
        opt_stored_view(r) == stored_of(*message, pane, id@, created_at@, cost_text@),
{
    match message {
        ClaudeStreamMessage::Assistant { message: m, .. } => {
            let blocks = &m.content;
            let mut out: Vec<char> = Vec::new();
            let mut count: usize = 0;
            let mut i: usize = 0;
            while i < blocks.len()
                invariant
                    0 <= i <= blocks@.len(),
                    count <= i,
                    count as int == block_lines(blocks@.subrange(0, i as int)).len(),
                    out@ == join_lines(block_lines(blocks@.subrange(0, i as int))),
                decreases blocks@.len() - i,
            {
                let ghost prev = block_lines(blocks@.subrange(0, i as int));
                proof {
                    assert(blocks@.subrange(0, i + 1).drop_last() == blocks@.subrange(0, i as int));
                    assert(blocks@.subrange(0, i + 1).last() == blocks@[i as int]);
                }
                let mut line: Vec<char> = Vec::new();
                let mut has_line = true;
                match &blocks[i] {
                    ClaudeContentBlock::Text { text } => {
                        append_str(&mut line, text.as_str());
                    },
                    ClaudeContentBlock::ToolUse { id: _, name, input } => {
                        append_str(&mut line, "[Tool: ");
                        append_str(&mut line, name.as_str());
                        append_str(&mut line, "] ");
                        append_str(&mut line, input.as_str());
                    },
                    ClaudeContentBlock::ToolResult { .. } => {
                        has_line = false;
                    },
                }
                if has_line {
                    if count > 0 {
                        out.push('\n');
                    }
                    let ghost before = out@;
                    out.append(&mut line);
                    proof {
                        let l = block_line(blocks@[i as int])->0;
                        let next = prev.push(l);
                        assert(next.drop_last() == prev);
                        if count > 0 {
                            reveal_strlit("\n");
                            assert(out@ =~= join_lines(prev) + "\n"@ + l);
                        } else {
                            assert(out@ =~= l);
                        }
                    }
                    count = count + 1;
                }
                i = i + 1;
            }
            assert(blocks@.subrange(0, blocks@.len() as int) == blocks@);
            if count == 0 {
                None
            } else {
                Some(
                    StoredMessage {
                        id,
                        role: String::from_str("assistant"),
                        content: string_from_chars(&out),
                        message_type: String::from_str("text"),
                        created_at,
                        pane_type: pane_string(pane),
                    },
                )
            }
        },
        ClaudeStreamMessage::Result { subtype, duration_ms, .. } => {
            let mut out: Vec<char> = Vec::new();
            append_str(&mut out, subtype.as_str());
            append_str(&mut out, " - Cost: $");
            append_str(&mut out, cost_text.as_str());
            append_str(&mut out, ", Duration: ");
            push_decimal(&mut out, *duration_ms);
            append_str(&mut out, "ms");
            Some(
                StoredMessage {
                    id,
                    role: String::from_str("system"),
                    content: string_from_chars(&out),
                    message_type: String::from_str("result"),
                    created_at,
                    pane_type: pane_string(pane),
                },
            )
        },
        _ => None,
    }
}

} // verus!
