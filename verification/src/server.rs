//! The decisions of the WebSocket server.
//!
//! The server keeps a table of live sessions, keyed by the token that the
//! session table hands out. The accept loop and the per-connection readers
//! perform the I/O; they report what happened as events, and the functions
//! here decide what is to be done next.
use vstd::prelude::*;
use core::time::Duration;
use slab::Slab;
use async_std::future::TimeoutError;
use async_tungstenite::tungstenite::Error as WsError;
use crate::error::Error;
use crate::slab_ops::{
    slab_keys, slab_vacant, slab_wf, vacant_after_insert, slab_new, slab_len, slab_contains,
    slab_insert, slab_remove, lemma_insert_keeps_wf, lemma_remove_keeps_wf,
};

verus! {

/// The key of a live session in the session table.
pub type Token = usize;

/// How long a client may stay silent by default, in seconds.
pub const DEFAULT_TIMEOUT_SECS: u64 = 3600;

/// The duration that `Duration::from_secs` builds from a number of seconds.
pub uninterp spec fn duration_of_secs(secs: u64) -> Duration;

/// `Duration::from_secs`; its result is named `duration_of_secs(secs)`.
#[verifier::external_body]
fn duration_from_secs(secs: u64) -> (d: Duration)
    ensures
        d == duration_of_secs(secs),
{
    Duration::from_secs(secs)
}

/// The server's state: its live sessions and its settings.
pub struct Server {
    sessions: Slab<()>,
    capacity: usize,
    timeout: Duration,
}

/// The abstract state of a server.
pub struct ServerView {
    /// The tokens of the live sessions.
    pub sessions: Set<Token>,
    /// The tokens to hand out, in order: freed tokens, most recently freed
    /// first, then the first token never used.
    pub free: Seq<Token>,
    /// The largest number of sessions the server admits.
    pub capacity: usize,
    /// How long a client may stay silent before its reader gives up.
    pub timeout: Duration,
}

impl ServerView {
    /// What holds of the session table in every state.
    pub open spec fn wf(self) -> bool {
        slab_wf(self.sessions, self.free)
    }

    /// The token that the next admitted connection gets.
    pub open spec fn next_token(self) -> Token {
        self.free[0]
    }
}

impl View for Server {
    type V = ServerView;

    closed spec fn view(&self) -> ServerView {
        ServerView {
            sessions: slab_keys(self.sessions),
            free: slab_vacant(self.sessions),
            capacity: self.capacity,
            timeout: self.timeout,
        }
    }
}

/// What the accept loop and the readers report to the server.
pub enum ServerEvent {
    /// A TCP connection came in.
    Connect,
    /// The reader of a session stopped, for the given reason if any.
    Die { token: Token, reason: Option<Error> },
    /// The reader of a session received a non-empty message.
    ReceiveMessage { token: Token },
    /// The listener reported an error.
    Failure(Error),
}

/// What the server decides to do about an event.
pub enum ServerAction {
    /// The server is full: shut the new connection down.
    Reject,
    /// The connection was admitted under this token: start its reader.
    Accept { token: Token },
    /// The session under this token was removed.
    Close { token: Token },
    /// Send the received message back through the session's writer.
    Echo { token: Token },
    /// Report the listener's error.
    Report(Error),
}

/// An event can be handled when the session it names, if any, is live.
pub open spec fn event_enabled(s: ServerView, e: ServerEvent) -> bool {
    match e {
        ServerEvent::Die { token, .. } => s.sessions.contains(token),
        ServerEvent::ReceiveMessage { token } => s.sessions.contains(token),
        _ => true,
    }
}

/// The server goes from `pre` to `post` on event `e` and decides `a`.
pub open spec fn transition(pre: ServerView, e: ServerEvent, post: ServerView, a: ServerAction) -> bool {
    &&& post.capacity == pre.capacity
    &&& post.timeout == pre.timeout
    &&& post.wf()
    &&& match e {
        ServerEvent::Connect => if pre.capacity <= pre.sessions.len() {
            a == ServerAction::Reject && post == pre
        } else {
            &&& a == (ServerAction::Accept { token: pre.next_token() })
            &&& post.sessions == pre.sessions.insert(pre.next_token())
            &&& post.free == vacant_after_insert(pre.free)
        },
        ServerEvent::Die { token, .. } => {
            &&& a == (ServerAction::Close { token })
            &&& post.sessions == pre.sessions.remove(token)
            &&& post.free == seq![token].add(pre.free)
        },
        ServerEvent::ReceiveMessage { token } => a == (ServerAction::Echo { token }) && post == pre,
        ServerEvent::Failure(err) => a == ServerAction::Report(err) && post == pre,
    }
}

impl Server {
    #[verifier::type_invariant]
    spec fn inv(self) -> bool {
        slab_wf(slab_keys(self.sessions), slab_vacant(self.sessions))
    }

    /// A server with no sessions, no limit on their number, and an hour of timeout.
    pub fn new() -> (s: Self)
        ensures
            s@.sessions == Set::<Token>::empty(),
            s@.free == seq![0usize],
            s@.capacity == usize::MAX,
            s@.timeout == duration_of_secs(DEFAULT_TIMEOUT_SECS),
            s@.wf(),
    {
        Server {
            sessions: slab_new(),
            capacity: usize::MAX,
            timeout: duration_from_secs(DEFAULT_TIMEOUT_SECS),
        }
    }

    /// The same server, admitting at most `capacity` sessions.
    pub fn with_capacity(self, capacity: usize) -> (s: Self)
        ensures
            s@ == (ServerView { capacity, ..self@ }),
            s@.wf(),
    {
        proof {
            use_type_invariant(&self);
        }
        let mut s = self;
        s.capacity = capacity;
        s
    }

    /// The same server, with the given timeout for silent clients.
    pub fn with_timeout(self, timeout: Duration) -> (s: Self)
        ensures
            s@ == (ServerView { timeout, ..self@ }),
            s@.wf(),
    {
        proof {
            use_type_invariant(&self);
        }
        let mut s = self;
        s.timeout = timeout;
        s
    }

    /// The largest number of sessions this server admits.
    pub fn capacity(&self) -> (c: usize)
        ensures
            c == self@.capacity,
            self@.wf(),
    {
        proof {
            use_type_invariant(self);
        }
        self.capacity
    }

    /// How long a client may stay silent.
    pub fn timeout(&self) -> (d: Duration)
        ensures
            d == self@.timeout,
            self@.wf(),
    {
        proof {
            use_type_invariant(self);
        }
        self.timeout
    }

    /// The number of live sessions.
    pub fn session_count(&self) -> (n: usize)
        ensures
            n == self@.sessions.len(),
            self@.wf(),
    {
        proof {
            use_type_invariant(self);
        }
        slab_len(&self.sessions)
    }

    /// Whether the token names a live session.
    pub fn is_live(&self, token: Token) -> (b: bool)
        ensures
            b == self@.sessions.contains(token),
            self@.wf(),
    {
        proof {
            use_type_invariant(self);
        }
        slab_contains(&self.sessions, token)
    }

    /// Decides what to do about an event, and updates the session table.
    ///
    /// A connection is turned away when the table already holds `capacity`
    /// sessions; otherwise it gets the next token. A dying reader's session
    /// is removed. A received message goes back to its own session.
    pub fn handle(&mut self, event: ServerEvent) -> (a: ServerAction)
        requires
            event_enabled(old(self)@, event),
        ensures
            old(self)@.wf(),
            transition(old(self)@, event, final(self)@, a),
    {
        proof {
            use_type_invariant(&*self);
        }
        match event {
            ServerEvent::Connect => {
                let n = slab_len(&self.sessions);
                if self.capacity <= n {
                    ServerAction::Reject
                } else {
                    let mut sessions = slab_new();
                    core::mem::swap(&mut sessions, &mut self.sessions);
                    let ghost keys0 = slab_keys(sessions);
                    let ghost vacant0 = slab_vacant(sessions);
                    let token = slab_insert(&mut sessions);
                    proof {
                        lemma_insert_keeps_wf(keys0, vacant0);
                    }
                    self.sessions = sessions;
                    ServerAction::Accept { token }
                }
            },
            ServerEvent::Die { token, reason: _ } => {
                let mut sessions = slab_new();
                core::mem::swap(&mut sessions, &mut self.sessions);
                proof {
                    lemma_remove_keeps_wf(slab_keys(sessions), slab_vacant(sessions), token);
                }
                slab_remove(&mut sessions, token);
                self.sessions = sessions;
                ServerAction::Close { token }
            },
            ServerEvent::ReceiveMessage { token } => ServerAction::Echo { token },
            ServerEvent::Failure(err) => ServerAction::Report(err),
        }
    }
}

/// The server never holds more sessions than its capacity, once it started within it.
pub proof fn lemma_capacity_respected(pre: ServerView, e: ServerEvent, post: ServerView, a: ServerAction)
    requires
        pre.wf(),
        pre.sessions.len() <= pre.capacity,
        transition(pre, e, post, a),
    ensures
        post.sessions.len() <= post.capacity,
{
    match e {
        ServerEvent::Connect => {},
        ServerEvent::Die { token, .. } => {
            if pre.sessions.contains(token) {
                assert(post.sessions.len() == pre.sessions.len() - 1);
            } else {
                assert(post.sessions =~= pre.sessions);
            }
        },
        _ => {},
    }
}

/// Along any run of a server that started without sessions, every state
/// holds at most `capacity` sessions.
pub proof fn lemma_capacity_respected_along_run(
    states: Seq<ServerView>,
    events: Seq<ServerEvent>,
    actions: Seq<ServerAction>,
)
    requires
        states.len() == events.len() + 1,
        actions.len() == events.len(),
        states[0].wf(),
        states[0].sessions == Set::<Token>::empty(),
        forall|i: int|
            0 <= i < events.len() ==> transition(
                #[trigger] states[i],
                events[i],
                states[i + 1],
                actions[i],
            ),
    ensures
        forall|i: int| 0 <= i < states.len() ==> (#[trigger] states[i]).sessions.len() <= states[i].capacity,
    decreases events.len(),
{
    if events.len() > 0 {
        let n = events.len() - 1;
        lemma_capacity_respected_along_run(states.take(n + 1), events.take(n), actions.take(n));
        assert(states.take(n + 1)[n as int] == states[n as int]);
        if n > 0 {
            assert(transition(states[n - 1], events[n - 1], states[n as int], actions[n - 1]));
        }
        lemma_capacity_respected(states[n as int], events[n as int], states[n + 1], actions[n as int]);
        assert forall|i: int| 0 <= i < states.len() implies (#[trigger] states[i]).sessions.len()
            <= states[i].capacity by {
            if i <= n {
                assert(states.take(n + 1)[i] == states[i]);
            }
        }
    }
}

/// A token handed out to a new connection is not the token of any session
/// that was live, and it names a live session afterwards.
pub proof fn lemma_accepted_token_fresh(pre: ServerView, post: ServerView, token: Token)
    requires
        pre.wf(),
        transition(pre, ServerEvent::Connect, post, ServerAction::Accept { token }),
    ensures
        token == pre.next_token(),
        !pre.sessions.contains(token),
        post.sessions.contains(token),
        post.sessions.len() == pre.sessions.len() + 1,
{
}

/// Closing the session that was just admitted gives back the session table
/// as it was, and the same token is handed out to the next connection.
pub proof fn lemma_accept_then_close(
    s0: ServerView,
    s1: ServerView,
    s2: ServerView,
    token: Token,
    reason: Option<Error>,
)
    requires
        s0.wf(),
        transition(s0, ServerEvent::Connect, s1, ServerAction::Accept { token }),
        transition(s1, ServerEvent::Die { token, reason }, s2, ServerAction::Close { token }),
    ensures
        s2.sessions == s0.sessions,
        s2.next_token() == s0.next_token(),
        s2.capacity == s0.capacity,
{
    assert(s2.sessions =~= s0.sessions);
}

/// A server that is full turns every connection away and stays as it is.
pub proof fn lemma_full_server_rejects(pre: ServerView, post: ServerView, a: ServerAction)
    requires
        pre.capacity <= pre.sessions.len(),
        transition(pre, ServerEvent::Connect, post, a),
    ensures
        a == ServerAction::Reject,
        post == pre,
{
}

/// A server below its capacity admits every connection: it hands out a
/// token that names no live session, under which the session is live
/// afterwards, and the table grows by exactly that session.
pub proof fn lemma_server_below_capacity_accepts(pre: ServerView, post: ServerView, a: ServerAction)
    requires
        pre.wf(),
        pre.sessions.len() < pre.capacity,
        transition(pre, ServerEvent::Connect, post, a),
    ensures
        a is Accept,
        !pre.sessions.contains(a->Accept_token),
        post.sessions == pre.sessions.insert(a->Accept_token),
        post.sessions.len() == pre.sessions.len() + 1,
{
}

/// A received message goes back to the live session that sent it and to no
/// other, and the session table is left as it was.
pub proof fn lemma_echo_goes_to_sender(
    pre: ServerView,
    token: Token,
    post: ServerView,
    a: ServerAction,
)
    requires
        event_enabled(pre, ServerEvent::ReceiveMessage { token }),
        transition(pre, ServerEvent::ReceiveMessage { token }, post, a),
    ensures
        a is Echo,
        a->Echo_token == token,
        post.sessions.contains(a->Echo_token),
        forall|other: Token| other != token ==> a != (ServerAction::Echo { token: other }),
        post.sessions == pre.sessions,
        post.free == pre.free,
{
}

/// A listener error is reported as it came and touches no session: every
/// live session stays live, no token is freed, and the next connection gets
/// the token it would have got before the error.
pub proof fn lemma_failure_leaves_sessions(pre: ServerView, err: Error, post: ServerView, a: ServerAction)
    requires
        transition(pre, ServerEvent::Failure(err), post, a),
    ensures
        a == ServerAction::Report(err),
        forall|t: Token| pre.sessions.contains(t) <==> post.sessions.contains(t),
        post.sessions.len() == pre.sessions.len(),
        post.next_token() == pre.next_token(),
        post.free == pre.free,
{
}

/// What a connection's reader observes.
pub enum ReaderEvent {
    /// The WebSocket handshake failed.
    HandshakeFailed(WsError),
    /// The server queued a message for this client.
    Outgoing,
    /// The server dropped this session's writer.
    OutgoingClosed,
    /// A message of this many bytes came in from the client.
    Incoming { len: usize },
    /// Reading from the client failed.
    IncomingFailed(WsError),
    /// The client stayed silent for longer than the timeout.
    TimedOut(TimeoutError),
    /// The client closed the stream.
    IncomingEnd,
}

/// What a connection's reader does next.
pub enum ReaderAction {
    /// Send the queued message to the client and go on.
    Send,
    /// Stop reading, without reporting to the server.
    Stop,
    /// Pass the received message on to the server and go on.
    Forward,
    /// Report the session as dead to the server, then stop.
    Die(Option<Error>),
}

/// The reader's decision for each event.
pub open spec fn reader_decision(e: ReaderEvent) -> ReaderAction {
    match e {
        ReaderEvent::HandshakeFailed(err) => ReaderAction::Die(Some(Error::WebsocketError(err))),
        ReaderEvent::Outgoing => ReaderAction::Send,
        ReaderEvent::OutgoingClosed => ReaderAction::Stop,
        ReaderEvent::Incoming { len } => if len > 0 {
            ReaderAction::Forward
        } else {
            ReaderAction::Die(None)
        },
        ReaderEvent::IncomingFailed(err) => ReaderAction::Die(Some(Error::WebsocketError(err))),
        ReaderEvent::TimedOut(err) => ReaderAction::Die(Some(Error::TimeoutError(err))),
        ReaderEvent::IncomingEnd => ReaderAction::Die(None),
    }
}

/// Whether the reader's loop ends after this action.
pub open spec fn reader_stops(a: ReaderAction) -> bool {
    a is Stop || a is Die
}

/// Decides what a connection's reader does about what it observed.
///
/// An empty message counts as the client leaving; failures and timeouts are
/// reported with their cause.
pub fn reader_step(event: ReaderEvent) -> (a: ReaderAction)
    ensures
        a == reader_decision(event),
{
    match event {
        ReaderEvent::HandshakeFailed(err) => ReaderAction::Die(Some(Error::from(err))),
        ReaderEvent::Outgoing => ReaderAction::Send,
        ReaderEvent::OutgoingClosed => ReaderAction::Stop,
        ReaderEvent::Incoming { len } => if len > 0 {
            ReaderAction::Forward
        } else {
            ReaderAction::Die(None)
        },
        ReaderEvent::IncomingFailed(err) => ReaderAction::Die(Some(Error::from(err))),
        ReaderEvent::TimedOut(err) => ReaderAction::Die(Some(Error::from(err))),
        ReaderEvent::IncomingEnd => ReaderAction::Die(None),
    }
}

/// The actions a reader takes on the events it observes, in order: one per
/// event, up to and including the first that ends its loop.
pub open spec fn reader_run(events: Seq<ReaderEvent>) -> Seq<ReaderAction>
    decreases events.len(),
{
    if events.len() == 0 {
        Seq::empty()
    } else if reader_stops(reader_decision(events[0])) {
        seq![reader_decision(events[0])]
    } else {
        seq![reader_decision(events[0])] + reader_run(events.drop_first())
    }
}

/// Whatever a reader observes, it acts on each event with `reader_step`'s
/// decision until its loop ends, and only the last action ends it: every
/// report of a death to the server is the reader's last action, so a reader
/// forwards messages and then reports its death at most once.
pub proof fn lemma_reader_run_dies_last(events: Seq<ReaderEvent>)
    ensures
        reader_run(events).len() <= events.len(),
        events.len() > 0 ==> reader_run(events).len() > 0,
        forall|i: int|
            0 <= i < reader_run(events).len() ==> #[trigger] reader_run(events)[i] == reader_decision(events[i]),
        forall|i: int|
            0 <= i < reader_run(events).len() - 1 ==> !reader_stops(#[trigger] reader_run(events)[i]),
        forall|i: int|
            0 <= i < reader_run(events).len() && (#[trigger] reader_run(events)[i]) is Die ==> i == reader_run(events).len() - 1,
    decreases events.len(),
{
    if events.len() > 0 && !reader_stops(reader_decision(events[0])) {
        let rest = events.drop_first();
        lemma_reader_run_dies_last(rest);
        let r = reader_run(events);
        assert forall|i: int| 1 <= i < r.len() implies r[i] == reader_run(rest)[i - 1] by {}
        assert forall|i: int| 0 <= i < r.len() implies #[trigger] r[i] == reader_decision(events[i]) by {
            if i > 0 {
                assert(r[i] == reader_run(rest)[i - 1]);
                assert(rest[i - 1] == events[i]);
            }
        }
        assert forall|i: int| 0 <= i < r.len() - 1 implies !reader_stops(#[trigger] r[i]) by {
            if i > 0 {
                assert(r[i] == reader_run(rest)[i - 1]);
            }
        }
        assert forall|i: int| 0 <= i < r.len() && (#[trigger] r[i]) is Die implies i == r.len() - 1 by {
            if i > 0 {
                assert(r[i] == reader_run(rest)[i - 1]);
            }
        }
    }
}

/// Every non-empty message from the client, of any length, is passed on to
/// the server and the reader goes on; only an empty one counts as the client
/// leaving.
pub proof fn lemma_reader_forwards_every_message(len: usize)
    ensures
        len > 0 ==> reader_decision(ReaderEvent::Incoming { len }) == ReaderAction::Forward,
        len > 0 ==> !reader_stops(reader_decision(ReaderEvent::Incoming { len })),
        len == 0 ==> reader_decision(ReaderEvent::Incoming { len }) == ReaderAction::Die(None),
{
}

/// A reader reports its session to the server at most once: every report
/// of death ends its loop, and so does the writer being dropped.
pub proof fn lemma_reader_die_is_final(e: ReaderEvent)
    ensures
        reader_decision(e) is Die ==> reader_stops(reader_decision(e)),
        reader_decision(e) is Forward ==> (e matches ReaderEvent::Incoming { len } && len > 0),
{
}

} // verus!
