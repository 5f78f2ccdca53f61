use vstd::prelude::*;
use std::collections::HashMap;
use crate::messages::{CliClientInfo, CliClientStatus, Id, ServerToCli, ServerToWeb};

verus! {

broadcast use vstd::std_specs::hash::group_hash_axioms;

/// How many messages a connection's outbound queue holds before sends to it fail.
pub const OUTBOX_CAPACITY: usize = 32;

/// The in-memory record of a session: who owns it and which producer and
/// consumer connections are bound to it.
#[derive(Debug, Clone, Copy, PartialEq, Eq)]
pub struct SessionState {
    pub session_id: Id,
    /// The owning account; zero until reconciled for producer-initiated sessions.
    pub user_id: Id,
    pub cli_client_id: Option<Id>,
    pub web_connection_id: Option<Id>,
}

/// `s` with its producer binding cleared when it points at `cli_id`.
pub open spec fn without_producer(s: SessionState, cli_id: Id) -> SessionState {
    if s.cli_client_id == Some(cli_id) {
        SessionState { cli_client_id: None, ..s }
    } else {
        s
    }
}

/// `s` with its consumer binding cleared when it points at `web_id`.
pub open spec fn without_consumer(s: SessionState, web_id: Id) -> SessionState {
    if s.web_connection_id == Some(web_id) {
        SessionState { web_connection_id: None, ..s }
    } else {
        s
    }
}

/// The queues `queues` after `msg` was appended to the queue of `id`.
pub open spec fn delivered<T>(queues: Map<Id, Seq<T>>, id: Id, msg: T) -> Map<Id, Seq<T>> {
    queues.insert(id, queues[id].push(msg))
}

/// The record of session `sid` after producer `cli_id` announces it.
pub open spec fn announced(sessions: Map<Id, SessionState>, sid: Id, cli_id: Id) -> SessionState {
    if sessions.contains_key(sid) {
        SessionState { cli_client_id: Some(cli_id), ..sessions[sid] }
    } else {
        SessionState { session_id: sid, user_id: 0, cli_client_id: Some(cli_id), web_connection_id: None }
    }
}

/// The record of session `sid` after consumer `web_id` attaches to it.
pub open spec fn attached(sessions: Map<Id, SessionState>, sid: Id, web_id: Id) -> SessionState {
    if sessions.contains_key(sid) {
        SessionState { web_connection_id: Some(web_id), ..sessions[sid] }
    } else {
        SessionState { session_id: sid, user_id: 0, cli_client_id: None, web_connection_id: Some(web_id) }
    }
}

/// Appending `x` to a sequence adds exactly `x` to what it contains, and
/// keeps it free of duplicates when `x` was not there.
pub proof fn lemma_push_unique(s: Seq<Id>, x: Id)
    ensures
        forall|c: Id| #[trigger] s.push(x).contains(c) <==> (s.contains(c) || c == x),
        s.no_duplicates() && !s.contains(x) ==> s.push(x).no_duplicates(),
{
    assert forall|c: Id| #[trigger] s.push(x).contains(c) <==> (s.contains(c) || c == x) by {
        if s.contains(c) {
            let i = choose|i: int| 0 <= i < s.len() && s[i] == c;
            assert(s.push(x)[i] == c);
        }
        if c == x {
            assert(s.push(x)[s.len() as int] == c);
        }
        if s.push(x).contains(c) {
            let i = choose|i: int| 0 <= i < s.len() + 1 && s.push(x)[i] == c;
            if i < s.len() {
                assert(s[i] == c);
            }
        }
    }
}

/// `v` without `x`, in order.
fn without_id(v: &Vec<Id>, x: Id) -> (r: Vec<Id>)
    requires
        v@.no_duplicates(),
    ensures
        r@.no_duplicates(),
        forall|c: Id| #[trigger] r@.contains(c) <==> (v@.contains(c) && c != x),
{
    let mut kept: Vec<Id> = Vec::new();
    let mut j: usize = 0;
    while j < v.len()
        invariant
            0 <= j <= v@.len(),
            v@.no_duplicates(),
            kept@.no_duplicates(),
            forall|c: Id| #[trigger] kept@.contains(c) <==> (v@.subrange(0, j as int).contains(c) && c != x),
        decreases v@.len() - j,
    {
        let c = v[j];
        let ghost prefix = v@.subrange(0, j as int);
        proof {
            assert(v@.subrange(0, j + 1) == prefix.push(c));
            lemma_push_unique(prefix, c);
            lemma_push_unique(kept@, c);
            if kept@.contains(c) {
                let k = choose|k: int| 0 <= k < prefix.len() && prefix[k] == c;
                assert(v@[k] == v@[j as int]);
            }
        }
        if c != x {
            kept.push(c);
        }
        j = j + 1;
    }
    assert(v@.subrange(0, v@.len() as int) == v@);
    kept
}

/// The connection registry and session router of the relay server.
///
/// Producers and consumers are known by opaque ids. Each registered
/// connection has a bounded outbound queue, which the transport side drains.
/// Sessions refer to their producer and consumer by id only.
pub struct SessionManager {
    sessions: HashMap<Id, SessionState>,
    /// The keys of `sessions`, each once.
    session_ids: Vec<Id>,
    cli_senders: HashMap<Id, Vec<ServerToCli>>,
    /// The keys of `cli_senders`, each once.
    cli_ids: Vec<Id>,
    web_senders: HashMap<Id, Vec<ServerToWeb>>,
    /// The keys of `web_senders`, each once.
    web_ids: Vec<Id>,
    /// For each producer, the sessions it announced, oldest first.
    cli_sessions: HashMap<Id, Vec<Id>>,
    /// For each producer, its owning account.
    cli_users: HashMap<Id, Id>,
}

impl SessionManager {
    /// The sessions held in memory.
    pub closed spec fn sessions_view(&self) -> Map<Id, SessionState> {
        self.sessions@
    }

    /// The registered producer connections and their queued outbound messages.
    pub closed spec fn producer_queues(&self) -> Map<Id, Seq<ServerToCli>> {
        self.cli_senders@.map_values(|q: Vec<ServerToCli>| q@)
    }

    /// The registered consumer connections and their queued outbound messages.
    pub closed spec fn consumer_queues(&self) -> Map<Id, Seq<ServerToWeb>> {
        self.web_senders@.map_values(|q: Vec<ServerToWeb>| q@)
    }

    /// For each registered producer, the sessions it announced, oldest first.
    pub closed spec fn producer_sessions(&self) -> Map<Id, Seq<Id>> {
        self.cli_sessions@.map_values(|q: Vec<Id>| q@)
    }

    /// For each registered producer, its owning account.
    pub closed spec fn producer_users(&self) -> Map<Id, Id> {
        self.cli_users@
    }

    pub closed spec fn wf(&self) -> bool {
        &&& forall|sid: Id| #[trigger]
            self.sessions@.contains_key(sid) ==> self.sessions@[sid].session_id == sid
        &&& self.session_ids@.no_duplicates()
        &&& forall|sid: Id|
            self.sessions@.contains_key(sid) <==> #[trigger] self.session_ids@.contains(sid)
        &&& self.cli_ids@.no_duplicates()
        &&& forall|c: Id| self.cli_senders@.contains_key(c) <==> #[trigger] self.cli_ids@.contains(c)
        &&& self.web_ids@.no_duplicates()
        &&& forall|w: Id| self.web_senders@.contains_key(w) <==> #[trigger] self.web_ids@.contains(w)
        &&& forall|c: Id| #[trigger]
            self.cli_senders@.contains_key(c) <==> #[trigger] self.cli_sessions@.contains_key(c)
        &&& forall|c: Id| #[trigger]
            self.cli_sessions@.contains_key(c) ==> self.cli_sessions@[c]@.no_duplicates()
        &&& forall|sid: Id| #[trigger]
            self.sessions@.contains_key(sid) ==> match self.sessions@[sid].cli_client_id {
                Some(c) => self.cli_senders@.contains_key(c),
                None => true,
            }
        &&& forall|c: Id| #[trigger]
            self.cli_senders@.contains_key(c) ==> self.cli_senders@[c]@.len() <= OUTBOX_CAPACITY
        &&& forall|w: Id| #[trigger]
            self.web_senders@.contains_key(w) ==> self.web_senders@[w]@.len() <= OUTBOX_CAPACITY
    }

    /// The producer bound to session `sid`, if any; such a binding always
    /// names a registered producer.
    pub open spec fn producer_of(&self, sid: Id) -> Option<Id> {
        if self.sessions_view().contains_key(sid) {
            self.sessions_view()[sid].cli_client_id
        } else {
            None
        }
    }

    /// The consumer bound to session `sid`, if any.
    pub open spec fn consumer_of(&self, sid: Id) -> Option<Id> {
        if self.sessions_view().contains_key(sid) {
            self.sessions_view()[sid].web_connection_id
        } else {
            None
        }
    }

    /// Each producer's list of announced sessions names every session once.
    pub proof fn lemma_session_lists_unique(&self, c: Id)
        requires
            self.wf(),
            self.producer_sessions().contains_key(c),
        ensures
            self.producer_sessions()[c].no_duplicates(),
    {
    }

    /// A bound producer is always a registered one.
    pub proof fn lemma_bound_producer_registered(&self, sid: Id)
        requires
            self.wf(),
            self.producer_of(sid) is Some,
        ensures
            self.producer_queues().contains_key(self.producer_of(sid)->0),
    {
    }

    /// An empty registry.
    pub fn new() -> (r: SessionManager)
        ensures
            r.wf(),
            r.sessions_view() == Map::<Id, SessionState>::empty(),
            r.producer_queues() == Map::<Id, Seq<ServerToCli>>::empty(),
            r.consumer_queues() == Map::<Id, Seq<ServerToWeb>>::empty(),
            r.producer_sessions() == Map::<Id, Seq<Id>>::empty(),
            r.producer_users() == Map::<Id, Id>::empty(),
    {
        let r = SessionManager {
            sessions: HashMap::new(),
            session_ids: Vec::new(),
            cli_senders: HashMap::new(),
            cli_ids: Vec::new(),
            web_senders: HashMap::new(),
            web_ids: Vec::new(),
            cli_sessions: HashMap::new(),
            cli_users: HashMap::new(),
        };
        assert(r.producer_queues() =~= Map::<Id, Seq<ServerToCli>>::empty());
        assert(r.consumer_queues() =~= Map::<Id, Seq<ServerToWeb>>::empty());
        assert(r.producer_sessions() =~= Map::<Id, Seq<Id>>::empty());
        r
    }

    /// Registers a producer connection owned by account `user_id`, with an
    /// empty outbound queue. A producer registered again keeps the list of
    /// sessions it announced.
    pub fn register_cli(&mut self, cli_id: Id, user_id: Id)
        requires
            old(self).wf(),
        ensures
            final(self).wf(),
            final(self).producer_queues() == old(self).producer_queues().insert(cli_id, Seq::empty()),
            final(self).producer_users() == old(self).producer_users().insert(cli_id, user_id),
            final(self).producer_sessions() == if old(self).producer_sessions().contains_key(cli_id) {
                old(self).producer_sessions()
            } else {
                old(self).producer_sessions().insert(cli_id, Seq::empty())
            },
            final(self).consumer_queues() == old(self).consumer_queues(),
            final(self).sessions_view() == old(self).sessions_view(),
    {
        if !self.cli_senders.contains_key(&cli_id) {
            proof {
                lemma_push_unique(self.cli_ids@, cli_id);
            }
            self.cli_ids.push(cli_id);
        }
        self.cli_senders.insert(cli_id, Vec::new());
        if !self.cli_sessions.contains_key(&cli_id) {
            self.cli_sessions.insert(cli_id, Vec::new());
        }
        self.cli_users.insert(cli_id, user_id);
        assert(self.producer_queues() =~= old(self).producer_queues().insert(cli_id, Seq::empty()));
        assert(self.producer_sessions() =~= if old(self).producer_sessions().contains_key(cli_id) {
            old(self).producer_sessions()
        } else {
            old(self).producer_sessions().insert(cli_id, Seq::empty())
        });
    }

    /// Registers a consumer connection with an empty outbound queue.
    pub fn register_web(&mut self, connection_id: Id)
        requires
            old(self).wf(),
        ensures
            final(self).wf(),
            final(self).consumer_queues() == old(self).consumer_queues().insert(connection_id, Seq::empty()),
            final(self).producer_queues() == old(self).producer_queues(),
            final(self).producer_sessions() == old(self).producer_sessions(),
            final(self).producer_users() == old(self).producer_users(),
            final(self).sessions_view() == old(self).sessions_view(),
    {
        if !self.web_senders.contains_key(&connection_id) {
            proof {
                lemma_push_unique(self.web_ids@, connection_id);
            }
            self.web_ids.push(connection_id);
        }
        self.web_senders.insert(connection_id, Vec::new());
        assert(self.consumer_queues() =~= old(self).consumer_queues().insert(connection_id, Seq::empty()));
    }

    /// Queues `msg` for producer `cli_id`. Fails, dropping the message, when
    /// the producer is not registered or its queue is full.
    pub fn send_to_cli(&mut self, cli_id: Id, msg: ServerToCli) -> (r: bool)
        requires
            old(self).wf(),
        ensures
            final(self).wf(),
            r == (old(self).producer_queues().contains_key(cli_id)
                && old(self).producer_queues()[cli_id].len() < OUTBOX_CAPACITY),
            final(self).producer_queues() == if r {
                delivered(old(self).producer_queues(), cli_id, msg)
            } else {
                old(self).producer_queues()
            },
            final(self).consumer_queues() == old(self).consumer_queues(),
            final(self).producer_sessions() == old(self).producer_sessions(),
            final(self).producer_users() == old(self).producer_users(),
            final(self).sessions_view() == old(self).sessions_view(),
    {
        match self.cli_senders.remove(&cli_id) {
            Some(mut q) => {
                let ok = q.len() < OUTBOX_CAPACITY;
                if ok {
                    q.push(msg);
                }
                self.cli_senders.insert(cli_id, q);
                proof {
                    if ok {
                        assert(self.producer_queues() =~= delivered(old(self).producer_queues(), cli_id, msg));
                    } else {
                        assert(self.cli_senders@ =~= old(self).cli_senders@);
                    }
                }
                ok
            },
            None => false,
        }
    }

    /// Queues `msg` for consumer `connection_id`. Fails, dropping the message,
    /// when the consumer is not registered or its queue is full.
    pub fn send_to_web(&mut self, connection_id: Id, msg: ServerToWeb) -> (r: bool)
        requires
            old(self).wf(),
        ensures
            final(self).wf(),
            r == (old(self).consumer_queues().contains_key(connection_id)
                && old(self).consumer_queues()[connection_id].len() < OUTBOX_CAPACITY),
            final(self).consumer_queues() == if r {
                delivered(old(self).consumer_queues(), connection_id, msg)
            } else {
                old(self).consumer_queues()
            },
            final(self).producer_queues() == old(self).producer_queues(),
            final(self).producer_sessions() == old(self).producer_sessions(),
            final(self).producer_users() == old(self).producer_users(),
            final(self).sessions_view() == old(self).sessions_view(),
    {
        match self.web_senders.remove(&connection_id) {
            Some(mut q) => {
                let ok = q.len() < OUTBOX_CAPACITY;
                if ok {
                    q.push(msg);
                }
                self.web_senders.insert(connection_id, q);
                proof {
                    if ok {
                        assert(self.consumer_queues() =~= delivered(old(self).consumer_queues(), connection_id, msg));
                    } else {
                        assert(self.web_senders@ =~= old(self).web_senders@);
                    }
                }
                ok
            },
            None => false,
        }
    }

    /// Stores `st` under its own id; the id list grows only for a new id.
    fn put_session(&mut self, st: SessionState)
        requires
            old(self).wf(),
            match st.cli_client_id {
                Some(c) => old(self).producer_queues().contains_key(c),
                None => true,
            },
        ensures
            final(self).wf(),
            final(self).sessions_view() == old(self).sessions_view().insert(st.session_id, st),
            final(self).producer_queues() == old(self).producer_queues(),
            final(self).consumer_queues() == old(self).consumer_queues(),
            final(self).producer_sessions() == old(self).producer_sessions(),
            final(self).producer_users() == old(self).producer_users(),
    {
        let sid = st.session_id;
        if !self.sessions.contains_key(&sid) {
            proof {
                lemma_push_unique(self.session_ids@, sid);
            }
            self.session_ids.push(sid);
        }
        self.sessions.insert(sid, st);
    }

    /// Adds `sid` to the sessions announced by producer `cli_id`, once.
    fn track_session(&mut self, cli_id: Id, sid: Id)
        requires
            old(self).wf(),
        ensures
            final(self).wf(),
            final(self).producer_sessions() == if old(self).producer_sessions().contains_key(cli_id)
                && !old(self).producer_sessions()[cli_id].contains(sid) {
                old(self).producer_sessions().insert(cli_id, old(self).producer_sessions()[cli_id].push(sid))
            } else {
                old(self).producer_sessions()
            },
            final(self).sessions_view() == old(self).sessions_view(),
            final(self).producer_queues() == old(self).producer_queues(),
            final(self).consumer_queues() == old(self).consumer_queues(),
            final(self).producer_users() == old(self).producer_users(),
    {
        match self.cli_sessions.remove(&cli_id) {
            Some(mut list) => {
                let mut found = false;
                let mut i: usize = 0;
                while i < list.len()
                    invariant
                        0 <= i <= list@.len(),
                        found == list@.subrange(0, i as int).contains(sid),
                    decreases list@.len() - i,
                {
                    if list[i] == sid {
                        found = true;
                    }
                    proof {
                        let next = list@.subrange(0, i + 1);
                        assert(next == list@.subrange(0, i as int).push(list@[i as int]));
                        lemma_push_unique(list@.subrange(0, i as int), list@[i as int]);
                    }
                    i = i + 1;
                }
                assert(list@.subrange(0, list@.len() as int) == list@);
                let ghost before = list@;
                if !found {
                    proof {
                        lemma_push_unique(before, sid);
                    }
                    list.push(sid);
                }
                self.cli_sessions.insert(cli_id, list);
                proof {
                    if !found {
                        assert(self.producer_sessions() =~= old(self).producer_sessions().insert(
                            cli_id,
                            before.push(sid),
                        ));
                    } else {
                        assert(self.cli_sessions@ =~= old(self).cli_sessions@);
                    }
                }
            },
            None => {},
        }
    }

    /// Hands over the messages queued for producer `cli_id`, oldest first,
    /// and empties its queue.
    pub fn take_cli_outbound(&mut self, cli_id: Id) -> (r: Vec<ServerToCli>)
        requires
            old(self).wf(),
        ensures
            final(self).wf(),
            old(self).producer_queues().contains_key(cli_id) ==> r@ == old(self).producer_queues()[cli_id]
                && final(self).producer_queues() == old(self).producer_queues().insert(cli_id, Seq::empty()),
            !old(self).producer_queues().contains_key(cli_id) ==> r@ == Seq::<ServerToCli>::empty()
                && final(self).producer_queues() == old(self).producer_queues(),
            final(self).consumer_queues() == old(self).consumer_queues(),
            final(self).producer_sessions() == old(self).producer_sessions(),
            final(self).producer_users() == old(self).producer_users(),
            final(self).sessions_view() == old(self).sessions_view(),
    {
        match self.cli_senders.remove(&cli_id) {
            Some(q) => {
                self.cli_senders.insert(cli_id, Vec::new());
                assert(self.producer_queues() =~= old(self).producer_queues().insert(cli_id, Seq::empty()));
                q
            },
            None => Vec::new(),
        }
    }

    /// Hands over the messages queued for consumer `connection_id`, oldest
    /// first, and empties its queue.
    pub fn take_web_outbound(&mut self, connection_id: Id) -> (r: Vec<ServerToWeb>)
        requires
            old(self).wf(),
        ensures
            final(self).wf(),
            old(self).consumer_queues().contains_key(connection_id) ==> r@ == old(self).consumer_queues()[connection_id]
                && final(self).consumer_queues() == old(self).consumer_queues().insert(connection_id, Seq::empty()),
            !old(self).consumer_queues().contains_key(connection_id) ==> r@ == Seq::<ServerToWeb>::empty()
                && final(self).consumer_queues() == old(self).consumer_queues(),
            final(self).producer_queues() == old(self).producer_queues(),
            final(self).producer_sessions() == old(self).producer_sessions(),
            final(self).producer_users() == old(self).producer_users(),
            final(self).sessions_view() == old(self).sessions_view(),
    {
        match self.web_senders.remove(&connection_id) {
            Some(q) => {
                self.web_senders.insert(connection_id, Vec::new());
                assert(self.consumer_queues() =~= old(self).consumer_queues().insert(connection_id, Seq::empty()));
                q
            },
            None => Vec::new(),
        }
    }

    /// Removes producer `cli_id`: its queue, owner and session list go, and
    /// every session bound to it loses that binding. Sessions themselves and
    /// their consumer bindings stay.
    pub fn unregister_cli(&mut self, cli_id: Id)
        requires
            old(self).wf(),
        ensures
            final(self).wf(),
            final(self).sessions_view().dom() == old(self).sessions_view().dom(),
            forall|sid: Id| #[trigger] final(self).sessions_view().contains_key(sid)
                ==> final(self).sessions_view()[sid] == without_producer(old(self).sessions_view()[sid], cli_id),
            final(self).producer_queues() == old(self).producer_queues().remove(cli_id),
            final(self).producer_sessions() == old(self).producer_sessions().remove(cli_id),
            final(self).producer_users() == old(self).producer_users().remove(cli_id),
            final(self).consumer_queues() == old(self).consumer_queues(),
    {
        let n = self.session_ids.len();
        let mut i: usize = 0;
        while i < n
            invariant
                self.wf(),
                n == self.session_ids@.len(),
                0 <= i <= n,
                self.session_ids@ == old(self).session_ids@,
                self.cli_senders@ == old(self).cli_senders@,
                self.cli_ids@ == old(self).cli_ids@,
                self.web_senders@ == old(self).web_senders@,
                self.web_ids@ == old(self).web_ids@,
                self.cli_sessions@ == old(self).cli_sessions@,
                self.cli_users@ == old(self).cli_users@,
                self.sessions@.dom() == old(self).sessions@.dom(),
                forall|sid: Id| #[trigger] self.sessions@.contains_key(sid) ==> self.sessions@[sid] == if
                    self.session_ids@.subrange(0, i as int).contains(sid) {
                    without_producer(old(self).sessions@[sid], cli_id)
                } else {
                    old(self).sessions@[sid]
                },
            decreases n - i,
        {
            let sid = self.session_ids[i];
            let ghost prefix = self.session_ids@.subrange(0, i as int);
            proof {
                assert(self.session_ids@.subrange(0, i + 1) == prefix.push(sid));
                lemma_push_unique(prefix, sid);
                assert(self.session_ids@.contains(sid));
            }
            let st = *self.sessions.get(&sid).unwrap();
            match st.cli_client_id {
                Some(c) => {
                    if c == cli_id {
                        self.sessions.insert(sid, SessionState { cli_client_id: None, ..st });
                    }
                },
                None => {},
            }
            i = i + 1;
        }
        assert(self.session_ids@.subrange(0, n as int) == self.session_ids@);
        assert(self.sessions@.dom() =~= old(self).sessions@.dom());
        self.cli_senders.remove(&cli_id);
        self.cli_sessions.remove(&cli_id);
        self.cli_users.remove(&cli_id);
        let kept = without_id(&self.cli_ids, cli_id);
        self.cli_ids = kept;
        assert(self.producer_queues() =~= old(self).producer_queues().remove(cli_id));
        assert(self.producer_sessions() =~= old(self).producer_sessions().remove(cli_id));
        assert forall|sid: Id| #[trigger] self.sessions@.contains_key(sid) implies match self.sessions@[sid].cli_client_id {
            Some(c) => self.cli_senders@.contains_key(c),
            None => true,
        } by {
            assert(old(self).sessions@.contains_key(sid));
        }
    }

    /// Removes consumer `connection_id`: its queue goes and every session
    /// bound to it loses that binding. Producer bindings stay.
    pub fn unregister_web(&mut self, connection_id: Id)
        requires
            old(self).wf(),
        ensures
            final(self).wf(),
            final(self).sessions_view().dom() == old(self).sessions_view().dom(),
            forall|sid: Id| #[trigger] final(self).sessions_view().contains_key(sid)
                ==> final(self).sessions_view()[sid] == without_consumer(old(self).sessions_view()[sid], connection_id),
            final(self).consumer_queues() == old(self).consumer_queues().remove(connection_id),
            final(self).producer_queues() == old(self).producer_queues(),
            final(self).producer_sessions() == old(self).producer_sessions(),
            final(self).producer_users() == old(self).producer_users(),
    {
        self.web_senders.remove(&connection_id);
        self.web_ids = without_id(&self.web_ids, connection_id);
        let ghost ids = self.web_ids@;
        let n = self.session_ids.len();
        let mut i: usize = 0;
        while i < n
            invariant
                self.wf(),
                n == self.session_ids@.len(),
                0 <= i <= n,
                self.session_ids@ == old(self).session_ids@,
                self.cli_senders@ == old(self).cli_senders@,
                self.cli_ids@ == old(self).cli_ids@,
                self.web_senders@ == old(self).web_senders@.remove(connection_id),
                self.web_ids@ == ids,
                self.cli_sessions@ == old(self).cli_sessions@,
                self.cli_users@ == old(self).cli_users@,
                self.sessions@.dom() == old(self).sessions@.dom(),
                forall|sid: Id| #[trigger] self.sessions@.contains_key(sid) ==> self.sessions@[sid] == if
                    self.session_ids@.subrange(0, i as int).contains(sid) {
                    without_consumer(old(self).sessions@[sid], connection_id)
                } else {
                    old(self).sessions@[sid]
                },
            decreases n - i,
        {
            let sid = self.session_ids[i];
            let ghost prefix = self.session_ids@.subrange(0, i as int);
            proof {
                assert(self.session_ids@.subrange(0, i + 1) == prefix.push(sid));
                lemma_push_unique(prefix, sid);
                assert(self.session_ids@.contains(sid));
            }
            let st = *self.sessions.get(&sid).unwrap();
            match st.web_connection_id {
                Some(w) => {
                    if w == connection_id {
                        self.sessions.insert(sid, SessionState { web_connection_id: None, ..st });
                    }
                },
                None => {},
            }
            i = i + 1;
        }
        assert(self.session_ids@.subrange(0, n as int) == self.session_ids@);
        assert(self.sessions@.dom() =~= old(self).sessions@.dom());
        assert(self.consumer_queues() =~= old(self).consumer_queues().remove(connection_id));
    }

    /// Creates session `session_id` for a consumer that asked for one: owned
    /// by `user_id`, bound to consumer `web_connection_id`, with no producer.
    pub fn create_session(&mut self, session_id: Id, user_id: Id, web_connection_id: Id)
        requires
            old(self).wf(),
        ensures
            final(self).wf(),
            final(self).sessions_view() == old(self).sessions_view().insert(
                session_id,
                SessionState { session_id, user_id, cli_client_id: None, web_connection_id: Some(web_connection_id) },
            ),
            final(self).producer_queues() == old(self).producer_queues(),
            final(self).consumer_queues() == old(self).consumer_queues(),
            final(self).producer_sessions() == old(self).producer_sessions(),
            final(self).producer_users() == old(self).producer_users(),
    {
        self.put_session(
            SessionState { session_id, user_id, cli_client_id: None, web_connection_id: Some(web_connection_id) },
        );
    }

    /// Binds registered producer `cli_id` to the existing session
    /// `session_id`. Fails, changing nothing, when the session is unknown or
    /// the producer is not registered.
    pub fn assign_cli_to_session(&mut self, session_id: Id, cli_id: Id) -> (r: bool)
        requires
            old(self).wf(),
        ensures
            final(self).wf(),
            r == (old(self).sessions_view().contains_key(session_id)
                && old(self).producer_queues().contains_key(cli_id)),
            r ==> final(self).sessions_view() == old(self).sessions_view().insert(
                session_id,
                SessionState { cli_client_id: Some(cli_id), ..old(self).sessions_view()[session_id] },
            ),
            r ==> final(self).producer_sessions() == if !old(self).producer_sessions()[cli_id].contains(session_id) {
                old(self).producer_sessions().insert(cli_id, old(self).producer_sessions()[cli_id].push(session_id))
            } else {
                old(self).producer_sessions()
            },
            !r ==> final(self).sessions_view() == old(self).sessions_view()
                && final(self).producer_sessions() == old(self).producer_sessions(),
            final(self).producer_queues() == old(self).producer_queues(),
            final(self).consumer_queues() == old(self).consumer_queues(),
            final(self).producer_users() == old(self).producer_users(),
    {
        if !self.cli_senders.contains_key(&cli_id) {
            return false;
        }
        match self.sessions.get(&session_id) {
            Some(existing) => {
                let st = *existing;
                self.put_session(SessionState { cli_client_id: Some(cli_id), ..st });
                self.track_session(cli_id, session_id);
                true
            },
            None => false,
        }
    }

    /// Announces session `session_id` for producer `cli_id` (creates it or
    /// updates it). A new session is created with no owner, this producer and
    /// no consumer; an existing one gets this producer as its binding (the
    /// last announcement wins) and keeps its owner and consumer. An
    /// unregistered producer changes nothing.
    pub fn create_cli_session(&mut self, session_id: Id, cli_id: Id)
        requires
            old(self).wf(),
        ensures
            final(self).wf(),
            old(self).producer_queues().contains_key(cli_id) ==> final(self).sessions_view()
                == old(self).sessions_view().insert(session_id, announced(old(self).sessions_view(), session_id, cli_id)),
            old(self).producer_queues().contains_key(cli_id)
                && !old(self).producer_sessions()[cli_id].contains(session_id)
                ==> final(self).producer_sessions() == old(self).producer_sessions().insert(
                cli_id,
                old(self).producer_sessions()[cli_id].push(session_id),
            ),
            !(old(self).producer_queues().contains_key(cli_id)
                && !old(self).producer_sessions()[cli_id].contains(session_id))
                ==> final(self).producer_sessions() == old(self).producer_sessions(),
            !old(self).producer_queues().contains_key(cli_id) ==> final(self).sessions_view()
                == old(self).sessions_view(),
            old(self).producer_queues().contains_key(cli_id) ==> final(self).producer_sessions().contains_key(cli_id)
                && final(self).producer_sessions()[cli_id].contains(session_id)
                && final(self).producer_sessions()[cli_id].no_duplicates(),
            final(self).producer_queues() == old(self).producer_queues(),
            final(self).consumer_queues() == old(self).consumer_queues(),
            final(self).producer_users() == old(self).producer_users(),
    {
        if !self.cli_senders.contains_key(&cli_id) {
            return;
        }
        let st = match self.sessions.get(&session_id) {
            Some(existing) => SessionState { cli_client_id: Some(cli_id), ..*existing },
            None => SessionState { session_id, user_id: 0, cli_client_id: Some(cli_id), web_connection_id: None },
        };
        self.put_session(st);
        let ghost mid = self.producer_sessions();
        self.track_session(cli_id, session_id);
        proof {
            assert(mid.contains_key(cli_id));
            if !mid[cli_id].contains(session_id) {
                let l = mid[cli_id].push(session_id);
                assert(self.producer_sessions()[cli_id] == l);
                assert(l[mid[cli_id].len() as int] == session_id);
            }
        }
    }

    /// Binds consumer `web_connection_id` to session `session_id`. A session
    /// unknown in memory is created with no owner and no producer. Always
    /// succeeds; the producer binding of an existing session stays.
    pub fn attach_web_to_session(&mut self, session_id: Id, web_connection_id: Id) -> (r: bool)
        requires
            old(self).wf(),
        ensures
            final(self).wf(),
            r,
            final(self).sessions_view() == old(self).sessions_view().insert(
                session_id,
                attached(old(self).sessions_view(), session_id, web_connection_id),
            ),
            final(self).producer_queues() == old(self).producer_queues(),
            final(self).consumer_queues() == old(self).consumer_queues(),
            final(self).producer_sessions() == old(self).producer_sessions(),
            final(self).producer_users() == old(self).producer_users(),
    {
        let st = match self.sessions.get(&session_id) {
            Some(existing) => SessionState { web_connection_id: Some(web_connection_id), ..*existing },
            None => SessionState {
                session_id,
                user_id: 0,
                cli_client_id: None,
                web_connection_id: Some(web_connection_id),
            },
        };
        self.put_session(st);
        true
    }

    /// The session producer `cli_id` announced last, if any.
    pub fn get_cli_active_session(&self, cli_id: Id) -> (r: Option<Id>)
        requires
            self.wf(),
        ensures
            r == if self.producer_sessions().contains_key(cli_id) && self.producer_sessions()[cli_id].len() > 0 {
                Some(self.producer_sessions()[cli_id].last())
            } else {
                None
            },
    {
        match self.cli_sessions.get(&cli_id) {
            Some(list) => {
                if list.len() > 0 {
                    Some(list[list.len() - 1])
                } else {
                    None
                }
            },
            None => None,
        }
    }

    /// The sessions producer `cli_id` announced, oldest first.
    pub fn get_cli_session_ids(&self, cli_id: Id) -> (r: Vec<Id>)
        requires
            self.wf(),
        ensures
            r@ == if self.producer_sessions().contains_key(cli_id) {
                self.producer_sessions()[cli_id]
            } else {
                Seq::empty()
            },
    {
        match self.cli_sessions.get(&cli_id) {
            Some(list) => list.clone(),
            None => Vec::new(),
        }
    }

    /// A copy of the record of session `session_id`.
    pub fn get_session(&self, session_id: Id) -> (r: Option<SessionState>)
        requires
            self.wf(),
        ensures
            r == if self.sessions_view().contains_key(session_id) {
                Some(self.sessions_view()[session_id])
            } else {
                None
            },
    {
        match self.sessions.get(&session_id) {
            Some(st) => Some(*st),
            None => None,
        }
    }

    /// Whether session `session_id` has a connected producer.
    pub fn is_session_active(&self, session_id: Id) -> (r: bool)
        requires
            self.wf(),
        ensures
            r == (self.producer_of(session_id) is Some),
            r ==> self.producer_queues().contains_key(self.producer_of(session_id)->0),
    {
        match self.sessions.get(&session_id) {
            Some(st) => st.cli_client_id.is_some(),
            None => false,
        }
    }

    /// The registered producers.
    pub fn get_online_cli_ids(&self) -> (r: Vec<Id>)
        requires
            self.wf(),
        ensures
            r@.no_duplicates(),
            r@.to_set() == self.producer_queues().dom(),
    {
        let r = self.cli_ids.clone();
        assert(r@.to_set() =~= self.producer_queues().dom());
        r
    }

    /// Delivers `msg` from a consumer to the producer bound to session
    /// `session_id`. Returns false, changing nothing, when the session is
    /// unknown, has no producer, or the producer's queue is full.
    pub fn route_to_cli(&mut self, session_id: Id, msg: ServerToCli) -> (r: bool)
        requires
            old(self).wf(),
        ensures
            final(self).wf(),
            r == (old(self).producer_of(session_id) is Some
                && old(self).producer_queues()[old(self).producer_of(session_id)->0].len() < OUTBOX_CAPACITY),
            final(self).producer_queues() == if r {
                delivered(old(self).producer_queues(), old(self).producer_of(session_id)->0, msg)
            } else {
                old(self).producer_queues()
            },
            final(self).consumer_queues() == old(self).consumer_queues(),
            final(self).producer_sessions() == old(self).producer_sessions(),
            final(self).producer_users() == old(self).producer_users(),
            final(self).sessions_view() == old(self).sessions_view(),
    {
        let target = match self.sessions.get(&session_id) {
            Some(st) => st.cli_client_id,
            None => None,
        };
        match target {
            Some(cli_id) => self.send_to_cli(cli_id, msg),
            None => false,
        }
    }

    /// Delivers `msg` from a producer to the consumer bound to session
    /// `session_id`. Returns false, changing nothing, when the session is
    /// unknown, has no consumer, the consumer is gone, or its queue is full.
    pub fn route_to_web(&mut self, session_id: Id, msg: ServerToWeb) -> (r: bool)
        requires
            old(self).wf(),
        ensures
            final(self).wf(),
            r == (old(self).consumer_of(session_id) is Some
                && old(self).consumer_queues().contains_key(old(self).consumer_of(session_id)->0)
                && old(self).consumer_queues()[old(self).consumer_of(session_id)->0].len() < OUTBOX_CAPACITY),
            final(self).consumer_queues() == if r {
                delivered(old(self).consumer_queues(), old(self).consumer_of(session_id)->0, msg)
            } else {
                old(self).consumer_queues()
            },
            final(self).producer_queues() == old(self).producer_queues(),
            final(self).producer_sessions() == old(self).producer_sessions(),
            final(self).producer_users() == old(self).producer_users(),
            final(self).sessions_view() == old(self).sessions_view(),
    {
        let target = match self.sessions.get(&session_id) {
            Some(st) => st.web_connection_id,
            None => None,
        };
        match target {
            Some(web_id) => self.send_to_web(web_id, msg),
            None => false,
        }
    }
    /// How producer `c` is listed to consumers at time `now_ms`: busy when
    /// it announced a session (the last one is its active session), online
    /// otherwise.
    pub open spec fn client_info(&self, c: Id, now_ms: i64) -> CliClientInfo {
        let active = if self.producer_sessions().contains_key(c) && self.producer_sessions()[c].len() > 0 {
            Some(self.producer_sessions()[c].last())
        } else {
            None
        };
        CliClientInfo {
            id: c,
            name: None,
            status: if active is Some { CliClientStatus::Busy } else { CliClientStatus::Online },
            last_seen: Some(now_ms),
            active_session: active,
        }
    }

    /// Whether producer `c` is listed for account filter `user`.
    pub open spec fn listed_for(&self, c: Id, user: Option<Id>) -> bool {
        &&& self.producer_queues().contains_key(c)
        &&& match user {
            Some(u) => self.producer_users().contains_key(c) && self.producer_users()[c] == u,
            None => true,
        }
    }

    /// `r` lists, each once and in no particular order, exactly the producers
    /// listed for account filter `user`, as they stand at time `now_ms`.
    pub open spec fn is_listing(&self, r: Seq<CliClientInfo>, user: Option<Id>, now_ms: i64) -> bool {
        &&& forall|i: int| 0 <= i < r.len() ==> self.listed_for(#[trigger] r[i].id, user) && r[i]
            == self.client_info(r[i].id, now_ms)
        &&& forall|c: Id| self.listed_for(c, user) ==> exists|i: int| 0 <= i < r.len() && #[trigger] r[i].id == c
        &&& forall|a: int, b: int| 0 <= a < b < r.len() ==> r[a].id != r[b].id
    }

    /// Whether `m` lists all registered producers as `is_listing` says.
    pub open spec fn is_client_list(&self, m: ServerToWeb, now_ms: i64) -> bool {
        match m {
            ServerToWeb::CliClients { clients } => self.is_listing(clients@, None, now_ms),
            _ => false,
        }
    }

    proof fn lemma_listing_same(&self, other: SessionManager, r: Seq<CliClientInfo>, user: Option<Id>, now_ms: i64)
        requires
            self.producer_queues() == other.producer_queues(),
            self.producer_sessions() == other.producer_sessions(),
            self.producer_users() == other.producer_users(),
        ensures
            self.is_listing(r, user, now_ms) == other.is_listing(r, user, now_ms),
    {
        assert forall|c: Id| #[trigger] self.listed_for(c, user) == other.listed_for(c, user) by {}
        assert forall|c: Id| #[trigger] self.client_info(c, now_ms) == other.client_info(c, now_ms) by {}
        if self.is_listing(r, user, now_ms) {
            assert forall|c: Id| other.listed_for(c, user) implies exists|i: int| 0 <= i < r.len() && #[trigger] r[i].id == c by {
                assert(self.listed_for(c, user));
            }
        }
        if other.is_listing(r, user, now_ms) {
            assert forall|c: Id| self.listed_for(c, user) implies exists|i: int| 0 <= i < r.len() && #[trigger] r[i].id == c by {
                assert(other.listed_for(c, user));
            }
        }
    }

    fn clients_info(&self, user: Option<Id>, now_ms: i64) -> (r: Vec<CliClientInfo>)
        requires
            self.wf(),
        ensures
            self.is_listing(r@, user, now_ms),
    {
        let mut r: Vec<CliClientInfo> = Vec::new();
        let mut j: usize = 0;
        while j < self.cli_ids.len()
            invariant
                self.wf(),
                0 <= j <= self.cli_ids@.len(),
                forall|i: int| 0 <= i < r@.len() ==> self.listed_for(#[trigger] r@[i].id, user) && r@[i]
                    == self.client_info(r@[i].id, now_ms) && self.cli_ids@.subrange(0, j as int).contains(r@[i].id),
                forall|c: Id| self.listed_for(c, user) && #[trigger] self.cli_ids@.subrange(0, j as int).contains(c)
                    ==> exists|i: int| 0 <= i < r@.len() && #[trigger] r@[i].id == c,
                forall|a: int, b: int| 0 <= a < b < r@.len() ==> r@[a].id != r@[b].id,
            decreases self.cli_ids@.len() - j,
        {
            let c = self.cli_ids[j];
            let ghost prefix = self.cli_ids@.subrange(0, j as int);
            proof {
                assert(self.cli_ids@.subrange(0, j + 1) == prefix.push(c));
                lemma_push_unique(prefix, c);
                assert(self.cli_ids@.contains(c));
                if prefix.contains(c) {
                    let k = choose|k: int| 0 <= k < prefix.len() && prefix[k] == c;
                    assert(self.cli_ids@[k] == self.cli_ids@[j as int]);
                }
            }
            let listed = match user {
                Some(u) => match self.cli_users.get(&c) {
                    Some(owner) => *owner == u,
                    None => false,
                },
                None => true,
            };
            if listed {
                let active = self.get_cli_active_session(c);
                let status = match active {
                    Some(_) => CliClientStatus::Busy,
                    None => CliClientStatus::Online,
                };
                let ghost before = r@;
                r.push(CliClientInfo { id: c, name: None, status, last_seen: Some(now_ms), active_session: active });
                proof {
                    assert(r@[before.len() as int].id == c);
                    assert forall|c2: Id| self.listed_for(c2, user) && #[trigger] self.cli_ids@.subrange(0, j + 1).contains(c2)
                        implies exists|i: int| 0 <= i < r@.len() && #[trigger] r@[i].id == c2 by {
                        if c2 != c {
                            let i = choose|i: int| 0 <= i < before.len() && #[trigger] before[i].id == c2;
                            assert(r@[i].id == c2);
                        }
                    }
                }
            }
            j = j + 1;
        }
        proof {
            assert(self.cli_ids@.subrange(0, self.cli_ids@.len() as int) == self.cli_ids@);
            assert forall|c: Id| self.listed_for(c, user) implies exists|i: int|
                0 <= i < r@.len() && #[trigger] r@[i].id == c by {
                assert(self.cli_ids@.contains(c));
                assert(self.cli_ids@.subrange(0, self.cli_ids@.len() as int).contains(c));
            }
        }
        r
    }

    /// All registered producers as listed to consumers at time `now_ms`, each once.
    pub fn get_cli_clients_info(&self, now_ms: i64) -> (r: Vec<CliClientInfo>)
        requires
            self.wf(),
        ensures
            self.is_listing(r@, None, now_ms),
    {
        self.clients_info(None, now_ms)
    }

    /// The registered producers owned by account `user_id`, as listed to
    /// consumers at time `now_ms`, each once.
    pub fn get_cli_clients_info_for_user(&self, user_id: Id, now_ms: i64) -> (r: Vec<CliClientInfo>)
        requires
            self.wf(),
        ensures
            self.is_listing(r@, Some(user_id), now_ms),
    {
        self.clients_info(Some(user_id), now_ms)
    }

    /// Queues the current producer list for every registered consumer whose
    /// queue has room.
    pub fn broadcast_cli_clients_update(&mut self, now_ms: i64)
        requires
            old(self).wf(),
        ensures
            final(self).wf(),
            final(self).sessions_view() == old(self).sessions_view(),
            final(self).producer_queues() == old(self).producer_queues(),
            final(self).producer_sessions() == old(self).producer_sessions(),
            final(self).producer_users() == old(self).producer_users(),
            final(self).consumer_queues().dom() == old(self).consumer_queues().dom(),
            forall|w: Id| #[trigger] final(self).consumer_queues().contains_key(w) ==> {
                ||| final(self).consumer_queues()[w] == old(self).consumer_queues()[w]
                ||| (final(self).consumer_queues()[w].drop_last() == old(self).consumer_queues()[w]
                    && old(self).is_client_list(final(self).consumer_queues()[w].last(), now_ms))
            },
            forall|w: Id| #[trigger] old(self).consumer_queues().contains_key(w)
                && old(self).consumer_queues()[w].len() < OUTBOX_CAPACITY
                ==> final(self).consumer_queues()[w].len() == old(self).consumer_queues()[w].len() + 1,
    {
        let ids = self.web_ids.clone();
        let mut j: usize = 0;
        while j < ids.len()
            invariant
                self.wf(),
                0 <= j <= ids@.len(),
                ids@ == old(self).web_ids@,
                ids@.no_duplicates(),
                self.sessions_view() == old(self).sessions_view(),
                self.producer_queues() == old(self).producer_queues(),
                self.producer_sessions() == old(self).producer_sessions(),
                self.producer_users() == old(self).producer_users(),
                self.consumer_queues().dom() == old(self).consumer_queues().dom(),
                forall|w: Id| #[trigger] self.consumer_queues().contains_key(w) ==> {
                    ||| (self.consumer_queues()[w] == old(self).consumer_queues()[w]
                        && !ids@.subrange(0, j as int).contains(w))
                    ||| (self.consumer_queues()[w] == old(self).consumer_queues()[w]
                        && old(self).consumer_queues()[w].len() >= OUTBOX_CAPACITY)
                    ||| (self.consumer_queues()[w].drop_last() == old(self).consumer_queues()[w]
                        && self.consumer_queues()[w].len() == old(self).consumer_queues()[w].len() + 1
                        && old(self).is_client_list(self.consumer_queues()[w].last(), now_ms)
                        && ids@.subrange(0, j as int).contains(w))
                },
            decreases ids@.len() - j,
        {
            let w = ids[j];
            let ghost prefix = ids@.subrange(0, j as int);
            let ghost before = self.consumer_queues();
            proof {
                assert(ids@.subrange(0, j + 1) == prefix.push(w));
                lemma_push_unique(prefix, w);
                if prefix.contains(w) {
                    let k = choose|k: int| 0 <= k < prefix.len() && prefix[k] == w;
                    assert(ids@[k] == ids@[j as int]);
                }
                assert(ids@.contains(w));
            }
            let clients = self.get_cli_clients_info(now_ms);
            proof {
                self.lemma_listing_same(*old(self), clients@, None, now_ms);
            }
            let ghost msg = ServerToWeb::CliClients { clients };
            let sent = self.send_to_web(w, ServerToWeb::CliClients { clients });
            proof {
                if sent {
                    assert(self.consumer_queues()[w] == before[w].push(msg));
                    assert(before[w].push(msg).drop_last() =~= before[w]);
                    assert(self.consumer_queues().dom() =~= before.dom());
                }
                assert(!prefix.contains(w));
                assert forall|w2: Id| #[trigger] self.consumer_queues().contains_key(w2) implies {
                    ||| (self.consumer_queues()[w2] == old(self).consumer_queues()[w2]
                        && !ids@.subrange(0, j + 1).contains(w2))
                    ||| (self.consumer_queues()[w2] == old(self).consumer_queues()[w2]
                        && old(self).consumer_queues()[w2].len() >= OUTBOX_CAPACITY)
                    ||| (self.consumer_queues()[w2].drop_last() == old(self).consumer_queues()[w2]
                        && self.consumer_queues()[w2].len() == old(self).consumer_queues()[w2].len() + 1
                        && old(self).is_client_list(self.consumer_queues()[w2].last(), now_ms)
                        && ids@.subrange(0, j + 1).contains(w2))
                } by {
                    assert(before.contains_key(w2));
                    if w2 != w {
                        assert(self.consumer_queues()[w2] == before[w2]);
                    } else {
                        assert(before[w] == old(self).consumer_queues()[w]);
                    }
                }
            }
            j = j + 1;
        }
        proof {
            assert(ids@.subrange(0, ids@.len() as int) == ids@);
        }
    }

}


/// Idempotent reattach: when a registered producer announces session `sid`
/// and then a registered producer announces it again (`create_cli_session`
/// twice), the consumer binding is the one the session had before, the
/// second announcement adds no record, and the last producer is bound.
pub proof fn lemma_reattach_keeps_consumer(
    m0: SessionManager,
    m1: SessionManager,
    m2: SessionManager,
    sid: Id,
    p1: Id,
    p2: Id,
)
    requires
        m0.wf(),
        m0.producer_queues().contains_key(p1),
        m1.producer_queues().contains_key(p2),
        m1.sessions_view() == m0.sessions_view().insert(sid, announced(m0.sessions_view(), sid, p1)),
        m2.sessions_view() == m1.sessions_view().insert(sid, announced(m1.sessions_view(), sid, p2)),
    ensures
        m2.consumer_of(sid) == m0.consumer_of(sid),
        m2.sessions_view().dom() == m1.sessions_view().dom(),
        m2.producer_of(sid) == Some(p2),
{
    assert(m2.sessions_view().dom() =~= m1.sessions_view().dom());
}

/// Routing isolation: for sessions `a` and `b` bound to different consumers,
/// a message routed from `a`'s consumer to its producer (`route_to_cli`)
/// leaves every consumer queue as it was, and one routed to `a`'s consumer
/// (`route_to_web`) leaves `b`'s consumer queue as it was.
pub proof fn lemma_routing_isolation(
    m0: SessionManager,
    m1: SessionManager,
    m2: SessionManager,
    a: Id,
    b: Id,
    to_cli: ServerToCli,
    to_web: ServerToWeb,
    r1: bool,
    r2: bool,
)
    requires
        m0.wf(),
        m0.consumer_of(b) is Some,
        m0.consumer_of(a) != m0.consumer_of(b),
        m0.consumer_queues().contains_key(m0.consumer_of(b)->0),
        // m1 and r1 come from `m0.route_to_cli(a, to_cli)`.
        m1.consumer_queues() == m0.consumer_queues(),
        m1.sessions_view() == m0.sessions_view(),
        // m2 and r2 come from `m1.route_to_web(a, to_web)`.
        m2.consumer_queues() == if r2 {
            delivered(m1.consumer_queues(), m1.consumer_of(a)->0, to_web)
        } else {
            m1.consumer_queues()
        },
        r2 ==> m1.consumer_of(a) is Some,
    ensures
        m1.consumer_queues()[m0.consumer_of(b)->0] == m0.consumer_queues()[m0.consumer_of(b)->0],
        m2.consumer_queues()[m0.consumer_of(b)->0] == m0.consumer_queues()[m0.consumer_of(b)->0],
{
}

/// Resurrection: a consumer attaching to a session unknown in memory
/// (`attach_web_to_session`) gets a session with no producer, and a later
/// announcement by a registered producer (`create_cli_session`) binds it
/// while the consumer binding stays.
pub proof fn lemma_resurrection(
    m0: SessionManager,
    m1: SessionManager,
    m2: SessionManager,
    sid: Id,
    w: Id,
    p: Id,
)
    requires
        m0.wf(),
        !m0.sessions_view().contains_key(sid),
        m1.sessions_view() == m0.sessions_view().insert(sid, attached(m0.sessions_view(), sid, w)),
        m1.producer_queues().contains_key(p),
        m2.sessions_view() == m1.sessions_view().insert(sid, announced(m1.sessions_view(), sid, p)),
    ensures
        m1.sessions_view().contains_key(sid),
        m1.producer_of(sid) is None,
        m1.consumer_of(sid) == Some(w),
        m2.producer_of(sid) == Some(p),
        m2.consumer_of(sid) == Some(w),
{
}

/// Disconnect cleanup: after producer `p` is unregistered (`unregister_cli`),
/// no session is bound to it, and routing to any session that was bound to
/// it (`route_to_cli`) returns false and queues nothing.
pub proof fn lemma_disconnect_cleanup(
    m0: SessionManager,
    m1: SessionManager,
    m2: SessionManager,
    p: Id,
    sid: Id,
    msg: ServerToCli,
    r: bool,
)
    requires
        m0.wf(),
        m0.producer_of(sid) == Some(p),
        // m1 comes from `m0.unregister_cli(p)`.
        m1.wf(),
        m1.sessions_view().dom() == m0.sessions_view().dom(),
        forall|s: Id| #[trigger] m1.sessions_view().contains_key(s)
            ==> m1.sessions_view()[s] == without_producer(m0.sessions_view()[s], p),
        // m2 and r come from `m1.route_to_cli(sid, msg)`.
        r == (m1.producer_of(sid) is Some
            && m1.producer_queues()[m1.producer_of(sid)->0].len() < OUTBOX_CAPACITY),
        m2.producer_queues() == if r {
            delivered(m1.producer_queues(), m1.producer_of(sid)->0, msg)
        } else {
            m1.producer_queues()
        },
    ensures
        m1.producer_of(sid) is None,
        forall|s: Id| #[trigger] m1.producer_of(s) != Some(p),
        !r,
        m2.producer_queues() == m1.producer_queues(),
{
    assert(m1.sessions_view().contains_key(sid));
    assert forall|s: Id| #[trigger] m1.producer_of(s) != Some(p) by {
        if m1.sessions_view().contains_key(s) {
            assert(m1.sessions_view()[s] == without_producer(m0.sessions_view()[s], p));
        }
    }
}

} // verus!
