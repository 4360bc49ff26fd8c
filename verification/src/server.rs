//! The server's decisions on one incoming connection: the challenge round
//! when a secret is set, then either opening the public port and
//! announcing each visitor, or splicing a visitor with the tunnel the client
//! opened for it.

use crate::auth::{accepts, derived_key, lemma_own_response_accepted, response_tag, server_verdict, Authenticator, HandshakeError};
use crate::client::optional_key;
use crate::message::{is_v4_id, new_v4_id, ClientMessage, ServerMessage};
use vstd::prelude::*;

verus! {

/// Why binding the public port failed.
#[derive(Debug, Clone, Copy, PartialEq, Eq)]
pub enum BindFailure {
    /// The port is already in use.
    AddrInUse,
    /// The process may not bind the port.
    PermissionDenied,
    /// Any other failure.
    Other,
}

impl BindFailure {
    /// The text of the failure.
    pub open spec fn text(self) -> Seq<char> {
        match self {
            BindFailure::AddrInUse => "端口已被占用"@,
            BindFailure::PermissionDenied => "权限不足"@,
            BindFailure::Other => "绑定端口失败"@,
        }
    }

    /// The text of the failure, as reported to the client.
    pub fn message(&self) -> (text: String)
        ensures
            text@ == self.text(),
    {
        match self {
            BindFailure::AddrInUse => String::from_str("端口已被占用"),
            BindFailure::PermissionDenied => String::from_str("权限不足"),
            BindFailure::Other => String::from_str("绑定端口失败"),
        }
    }
}

/// Why the server ends a connection early.
#[derive(Debug, Clone, PartialEq, Eq)]
pub enum Refusal {
    /// A challenge round failed.
    Handshake(HandshakeError),
    /// The public port could not be bound.
    Bind(BindFailure),
    /// The client's command is not one the server knows.
    UnexpectedMessage,
    /// No visitor waits under the id the client accepted.
    UnknownConnection,
    /// Sending, receiving or accepting failed; the error's text.
    Failure(String),
}

impl Refusal {
    /// The text of the refusal.
    pub open spec fn text(self) -> Seq<char> {
        match self {
            Refusal::Handshake(e) => e.text(),
            Refusal::Bind(f) => f.text(),
            Refusal::UnexpectedMessage => "unexpected message"@,
            Refusal::UnknownConnection => "invalid connection id"@,
            Refusal::Failure(m) => m@,
        }
    }

    /// The text of the refusal, as sent in `ServerMessage::Error` or logged.
    pub fn message(&self) -> (text: String)
        ensures
            text@ == self.text(),
    {
        match self {
            Refusal::Handshake(e) => e.message(),
            Refusal::Bind(f) => f.message(),
            Refusal::UnexpectedMessage => String::from_str("unexpected message"),
            Refusal::UnknownConnection => String::from_str("invalid connection id"),
            Refusal::Failure(m) => m.clone(),
        }
    }
}

/// Where a connection to the server stands.
#[derive(Debug, Clone, Copy, PartialEq, Eq)]
pub enum ServerPhase {
    /// Accepted, nothing exchanged yet.
    Start,
    /// The challenge has been sent; waiting for the answer.
    Authenticating { challenge: u128 },
    /// Waiting for the client's command.
    AwaitCommand,
    /// Binding the public port.
    Binding { port: u16 },
    /// The public port is open; accepting visitors.
    Listening { port: u16 },
    /// Splicing the visitor with this id with the connection.
    Forwarding { id: u128 },
    /// Nothing more happens on this connection.
    Closed,
}

/// What happened on a connection to the server.
#[derive(Debug, Clone, PartialEq, Eq)]
pub enum ServerEvent {
    /// The connection has been accepted.
    Opened,
    /// The message awaited arrived (`None`: the client closed the connection).
    Received(Option<ClientMessage>),
    /// Sending the last message, or receiving, failed: the error's text.
    Failed(String),
    /// The public port is bound.
    ListenerOpened,
    /// The public port could not be bound.
    ListenerRefused(BindFailure),
    /// A visitor connected to the public port.
    Incoming,
    /// No visitor connected within the accept timeout.
    AcceptTimedOut,
    /// Accepting a visitor failed: the error's text.
    AcceptFailed(String),
    /// No visitor waits under the id to forward.
    VisitorMissing,
    /// The splice of visitor and tunnel has ended.
    Spliced,
}

/// What the server does next on a connection.
#[derive(Debug, Clone, PartialEq, Eq)]
pub enum ServerAction {
    /// Send this message, then receive the reply within the network timeout.
    Exchange(ServerMessage),
    /// Receive the next message within the network timeout.
    Receive,
    /// Bind the public port.
    OpenListener(u16),
    /// Send `Hello(port)`, repeating the port the client asked for, then
    /// accept visitors on the public port.
    Grant(u16),
    /// Keep the visitor just accepted under this id, send `Connection(id)`,
    /// then accept the next visitor.
    Publish(u128),
    /// Accept the next visitor.
    Accept,
    /// Take the visitor kept under this id and splice it with this connection.
    Forward(u128),
    /// Send `Error` with the refusal's text, then close normally.
    Reply(Refusal),
    /// Close normally.
    Close,
    /// Close with the refusal as error.
    Abort(Refusal),
}

/// Whether `event` is one a connection can meet in `phase`.
pub open spec fn server_event_fits(phase: ServerPhase, event: ServerEvent) -> bool {
    match phase {
        ServerPhase::Start => event is Opened,
        ServerPhase::Authenticating { .. } | ServerPhase::AwaitCommand => event is Received
            || event is Failed,
        ServerPhase::Binding { .. } => event is ListenerOpened || event is ListenerRefused,
        ServerPhase::Listening { .. } => event is Incoming || event is AcceptTimedOut || event is AcceptFailed
            || event is Failed,
        ServerPhase::Forwarding { .. } => event is VisitorMissing || event is Spliced || event is Failed,
        ServerPhase::Closed => false,
    }
}

/// Whether a server holding `key` can be in `phase`: the challenge round
/// happens only when it has a key.
pub open spec fn phase_fits_key(key: Option<Seq<u8>>, phase: ServerPhase) -> bool {
    phase is Authenticating ==> key is Some
}

/// The transition of a connection: for a server holding `key` (none without a
/// secret), on `event` in `phase`, with `fresh` as the id for a new challenge
/// or visitor. Events that do not fit the phase close the connection.
pub open spec fn server_step(key: Option<Seq<u8>>, phase: ServerPhase, event: ServerEvent, fresh: u128) -> (ServerPhase, ServerAction) {
    match (phase, event) {
        (ServerPhase::Start, ServerEvent::Opened) => match key {
            Some(_) => (ServerPhase::Authenticating { challenge: fresh }, ServerAction::Exchange(ServerMessage::Challenge(fresh))),
            None => (ServerPhase::AwaitCommand, ServerAction::Receive),
        },
        (ServerPhase::Authenticating { challenge }, ServerEvent::Received(reply)) => match server_verdict(key->0, challenge, reply) {
            Ok(()) => (ServerPhase::AwaitCommand, ServerAction::Receive),
            Err(e) => (ServerPhase::Closed, ServerAction::Abort(Refusal::Handshake(e))),
        },
        (ServerPhase::Authenticating { .. }, ServerEvent::Failed(m)) => (ServerPhase::Closed, ServerAction::Abort(Refusal::Failure(m))),
        (ServerPhase::AwaitCommand, ServerEvent::Received(command)) => match command {
            Some(ClientMessage::Hello(port)) => (ServerPhase::Binding { port }, ServerAction::OpenListener(port)),
            Some(ClientMessage::Accept(id)) => (ServerPhase::Forwarding { id }, ServerAction::Forward(id)),
            Some(ClientMessage::ChallengeResponse(_)) | Some(ClientMessage::HeartBeat) => (ServerPhase::Closed, ServerAction::Close),
            None => (ServerPhase::Closed, ServerAction::Reply(Refusal::UnexpectedMessage)),
        },
        (ServerPhase::AwaitCommand, ServerEvent::Failed(m)) => (ServerPhase::Closed, ServerAction::Abort(Refusal::Failure(m))),
        (ServerPhase::Binding { port }, ServerEvent::ListenerOpened) => (ServerPhase::Listening { port }, ServerAction::Grant(port)),
        (ServerPhase::Binding { .. }, ServerEvent::ListenerRefused(f)) => (ServerPhase::Closed, ServerAction::Reply(Refusal::Bind(f))),
        (ServerPhase::Listening { port }, ServerEvent::Incoming) => (ServerPhase::Listening { port }, ServerAction::Publish(fresh)),
        (ServerPhase::Listening { port }, ServerEvent::AcceptTimedOut) => (ServerPhase::Listening { port }, ServerAction::Accept),
        (ServerPhase::Listening { .. }, ServerEvent::AcceptFailed(m)) => (ServerPhase::Closed, ServerAction::Reply(Refusal::Failure(m))),
        (ServerPhase::Listening { .. }, ServerEvent::Failed(m)) => (ServerPhase::Closed, ServerAction::Abort(Refusal::Failure(m))),
        (ServerPhase::Forwarding { .. }, ServerEvent::VisitorMissing) => (ServerPhase::Closed, ServerAction::Reply(Refusal::UnknownConnection)),
        (ServerPhase::Forwarding { .. }, ServerEvent::Spliced) => (ServerPhase::Closed, ServerAction::Close),
        (ServerPhase::Forwarding { .. }, ServerEvent::Failed(m)) => (ServerPhase::Closed, ServerAction::Abort(Refusal::Failure(m))),
        _ => (ServerPhase::Closed, ServerAction::Close),
    }
}

/// Phases in which the connection has passed authentication (or needed none).
pub open spec fn is_authenticated(phase: ServerPhase) -> bool {
    phase is AwaitCommand || phase is Binding || phase is Listening || phase is Forwarding
}

/// The phase reached from `start` after `events`, `fresh[i]` being the id
/// drawn for `events[i]`.
pub open spec fn phase_after(key: Option<Seq<u8>>, start: ServerPhase, events: Seq<ServerEvent>, fresh: Seq<u128>) -> ServerPhase
    decreases events.len(),
{
    if events.len() == 0 {
        start
    } else {
        server_step(key, phase_after(key, start, events.drop_last(), fresh.drop_last()), events.last(), fresh.last()).0
    }
}

/// A step keeps the challenge round to servers that hold a key.
pub proof fn lemma_step_fits_key(key: Option<Seq<u8>>, phase: ServerPhase, event: ServerEvent, fresh: u128)
    requires
        phase_fits_key(key, phase),
    ensures
        phase_fits_key(key, server_step(key, phase, event, fresh).0),
{
}

/// Once closed, a connection stays closed and does nothing.
pub proof fn lemma_closed_is_final(key: Option<Seq<u8>>, event: ServerEvent, fresh: u128)
    ensures
        server_step(key, ServerPhase::Closed, event, fresh) == (ServerPhase::Closed, ServerAction::Close),
{
}

/// Without a secret the server asks no challenge: the first step waits for
/// the client's command.
pub proof fn lemma_no_secret_no_challenge(fresh: u128)
    ensures
        server_step(None, ServerPhase::Start, ServerEvent::Opened, fresh) == (ServerPhase::AwaitCommand, ServerAction::Receive),
{
}

/// With a secret, a connection only reaches the command phases through an
/// accepted answer to the challenge.
pub proof fn lemma_commands_need_answer(key: Seq<u8>, phase: ServerPhase, event: ServerEvent, fresh: u128)
    requires
        !is_authenticated(phase),
        is_authenticated(server_step(Some(key), phase, event, fresh).0),
    ensures
        phase matches ServerPhase::Authenticating { challenge } && event matches ServerEvent::Received(Some(ClientMessage::ChallengeResponse(tag)))
            && accepts(key, challenge, tag@),
{
}

/// With a secret, every run of a connection that reaches a command phase
/// contains an accepted answer to the challenge that was sent.
pub proof fn lemma_authenticated_runs(key: Seq<u8>, events: Seq<ServerEvent>, fresh: Seq<u128>)
    requires
        fresh.len() == events.len(),
        is_authenticated(phase_after(Some(key), ServerPhase::Start, events, fresh)),
    ensures
        exists|i: int|
            0 <= i < events.len() && {
                &&& #[trigger] phase_after(Some(key), ServerPhase::Start, events.take(i), fresh.take(i)) matches ServerPhase::Authenticating { challenge }
                &&& events[i] matches ServerEvent::Received(Some(ClientMessage::ChallengeResponse(tag)))
                &&& accepts(key, challenge, tag@)
            },
    decreases events.len(),
{
    let n = events.len() - 1;
    let before = phase_after(Some(key), ServerPhase::Start, events.drop_last(), fresh.drop_last());
    assert(events.take(n) =~= events.drop_last());
    assert(fresh.take(n) =~= fresh.drop_last());
    if is_authenticated(before) {
        lemma_authenticated_runs(key, events.drop_last(), fresh.drop_last());
        let i = choose|i: int|
            0 <= i < events.drop_last().len() && {
                &&& #[trigger] phase_after(Some(key), ServerPhase::Start, events.drop_last().take(i), fresh.drop_last().take(i)) matches ServerPhase::Authenticating { challenge }
                &&& events.drop_last()[i] matches ServerEvent::Received(Some(ClientMessage::ChallengeResponse(tag)))
                &&& accepts(key, challenge, tag@)
            };
        assert(events.drop_last().take(i) =~= events.take(i));
        assert(fresh.drop_last().take(i) =~= fresh.take(i));
        assert(events.drop_last()[i] == events[i]);
    } else {
        lemma_commands_need_answer(key, before, events.last(), fresh.last());
        assert(events[n] == events.last());
    }
}

/// A client holding the same secret passes the challenge round by answering
/// the challenge with its tag: the server then waits for its command.
pub proof fn lemma_shared_secret_passes(server_secret: Seq<char>, client_secret: Seq<char>, challenge: u128, answer: ClientMessage, fresh: u128)
    requires
        server_secret == client_secret,
        answer matches ClientMessage::ChallengeResponse(tag) && tag@ == response_tag(derived_key(client_secret), challenge),
    ensures
        server_step(Some(derived_key(server_secret)), ServerPhase::Authenticating { challenge }, ServerEvent::Received(Some(answer)), fresh)
            == (ServerPhase::AwaitCommand, ServerAction::Receive),
{
    lemma_own_response_accepted(derived_key(client_secret), challenge);
}

/// The challenge sent when a connection opens on a server with a key is the
/// freshly drawn id, and the server then waits for its answer.
pub proof fn lemma_challenge_is_fresh(key: Seq<u8>, fresh: u128)
    ensures
        server_step(Some(key), ServerPhase::Start, ServerEvent::Opened, fresh) == (
            ServerPhase::Authenticating { challenge: fresh },
            ServerAction::Exchange(ServerMessage::Challenge(fresh)),
        ),
{
}

/// The answer to the challenge decides, whatever it is: an accepted tag leads
/// to the command phase, a wrong tag or any other message aborts the
/// connection with the matching handshake error.
pub proof fn lemma_answer_outcome(key: Seq<u8>, challenge: u128, reply: Option<ClientMessage>, fresh: u128)
    ensures
        server_step(Some(key), ServerPhase::Authenticating { challenge }, ServerEvent::Received(reply), fresh) == (
            match reply {
                Some(ClientMessage::ChallengeResponse(tag)) => if accepts(key, challenge, tag@) {
                    (ServerPhase::AwaitCommand, ServerAction::Receive)
                } else {
                    (ServerPhase::Closed, ServerAction::Abort(Refusal::Handshake(HandshakeError::InvalidResponse)))
                },
                _ => (ServerPhase::Closed, ServerAction::Abort(Refusal::Handshake(HandshakeError::UnexpectedMessage))),
            }
        ),
{
}

/// Binding the port asked for decides the reply: once bound, the server
/// grants that same port; when the bind fails, whatever the key and the
/// failure, the server reports the failure to the client and closes.
pub proof fn lemma_bind_outcome(key: Option<Seq<u8>>, port: u16, failure: BindFailure, fresh: u128)
    ensures
        server_step(key, ServerPhase::Binding { port }, ServerEvent::ListenerOpened, fresh) == (
            ServerPhase::Listening { port },
            ServerAction::Grant(port),
        ),
        server_step(key, ServerPhase::Binding { port }, ServerEvent::ListenerRefused(failure), fresh) == (
            ServerPhase::Closed,
            ServerAction::Reply(Refusal::Bind(failure)),
        ),
{
}

/// A port is granted only right after that very port was bound.
pub proof fn lemma_grant_only_after_bind(key: Option<Seq<u8>>, phase: ServerPhase, event: ServerEvent, fresh: u128, port: u16)
    requires
        server_step(key, phase, event, fresh).1 == ServerAction::Grant(port),
    ensures
        phase == (ServerPhase::Binding { port }),
        event == ServerEvent::ListenerOpened,
{
}

/// The client's commands, whatever the key: `Hello(port)` binds exactly the
/// port asked for, `Accept(id)` forwards exactly visitor `id`, and the end of
/// the stream is answered with "unexpected message".
pub proof fn lemma_commands(key: Option<Seq<u8>>, port: u16, id: u128, fresh: u128)
    ensures
        server_step(key, ServerPhase::AwaitCommand, ServerEvent::Received(Some(ClientMessage::Hello(port))), fresh) == (
            ServerPhase::Binding { port },
            ServerAction::OpenListener(port),
        ),
        server_step(key, ServerPhase::AwaitCommand, ServerEvent::Received(Some(ClientMessage::Accept(id))), fresh) == (
            ServerPhase::Forwarding { id },
            ServerAction::Forward(id),
        ),
        server_step(key, ServerPhase::AwaitCommand, ServerEvent::Received(None), fresh) == (
            ServerPhase::Closed,
            ServerAction::Reply(Refusal::UnexpectedMessage),
        ),
{
}

/// A port is bound only at the client's request for that port, and a
/// visitor is forwarded only at the client's acceptance of that visitor.
pub proof fn lemma_actions_follow_commands(key: Option<Seq<u8>>, phase: ServerPhase, event: ServerEvent, fresh: u128)
    ensures
        server_step(key, phase, event, fresh).1 matches ServerAction::OpenListener(port) ==> phase == ServerPhase::AwaitCommand
            && event == ServerEvent::Received(Some(ClientMessage::Hello(port))),
        server_step(key, phase, event, fresh).1 matches ServerAction::Forward(id) ==> phase == ServerPhase::AwaitCommand
            && event == ServerEvent::Received(Some(ClientMessage::Accept(id))),
{
}

/// While listening, each visitor is published under the freshly drawn id,
/// and a visitor is published only when one has been accepted.
pub proof fn lemma_visitors_published(key: Option<Seq<u8>>, port: u16, phase: ServerPhase, event: ServerEvent, fresh: u128)
    ensures
        server_step(key, ServerPhase::Listening { port }, ServerEvent::Incoming, fresh) == (
            ServerPhase::Listening { port },
            ServerAction::Publish(fresh),
        ),
        server_step(key, phase, event, fresh).1 matches ServerAction::Publish(id) ==> id == fresh && event == ServerEvent::Incoming
            && phase is Listening,
{
}

/// A visitor id with no waiting visitor is answered "invalid connection id",
/// and a finished splice closes the connection normally.
pub proof fn lemma_forward_outcome(key: Option<Seq<u8>>, id: u128, fresh: u128)
    ensures
        server_step(key, ServerPhase::Forwarding { id }, ServerEvent::VisitorMissing, fresh) == (
            ServerPhase::Closed,
            ServerAction::Reply(Refusal::UnknownConnection),
        ),
        server_step(key, ServerPhase::Forwarding { id }, ServerEvent::Spliced, fresh) == (ServerPhase::Closed, ServerAction::Close),
{
}

/// A failure of the transport is passed on with its own text: before the
/// commands and while splicing it ends the connection with that error; while
/// listening, a failed accept is reported to the client and a failed send
/// ends the connection.
pub proof fn lemma_failures_keep_their_text(key: Option<Seq<u8>>, challenge: u128, port: u16, id: u128, m: String, fresh: u128)
    ensures
        server_step(key, ServerPhase::Authenticating { challenge }, ServerEvent::Failed(m), fresh) == (
            ServerPhase::Closed,
            ServerAction::Abort(Refusal::Failure(m)),
        ),
        server_step(key, ServerPhase::AwaitCommand, ServerEvent::Failed(m), fresh) == (
            ServerPhase::Closed,
            ServerAction::Abort(Refusal::Failure(m)),
        ),
        server_step(key, ServerPhase::Listening { port }, ServerEvent::AcceptFailed(m), fresh) == (
            ServerPhase::Closed,
            ServerAction::Reply(Refusal::Failure(m)),
        ),
        server_step(key, ServerPhase::Listening { port }, ServerEvent::Failed(m), fresh) == (
            ServerPhase::Closed,
            ServerAction::Abort(Refusal::Failure(m)),
        ),
        server_step(key, ServerPhase::Listening { port }, ServerEvent::AcceptTimedOut, fresh) == (
            ServerPhase::Listening { port },
            ServerAction::Accept,
        ),
        server_step(key, ServerPhase::Forwarding { id }, ServerEvent::Failed(m), fresh) == (
            ServerPhase::Closed,
            ServerAction::Abort(Refusal::Failure(m)),
        ),
{
}

/// The server side of the tunnel: holds the key derived from the secret, if any.
pub struct Server {
    auth: Option<Authenticator>,
}

impl View for Server {
    type V = Option<Seq<u8>>;

    closed spec fn view(&self) -> Option<Seq<u8>> {
        match self.auth {
            Some(a) => Some(a@),
            None => None,
        }
    }
}

impl Server {
    /// A server that authenticates clients with `key` when there is one.
    pub fn new(key: Option<&str>) -> (server: Self)
        ensures
            server@ == optional_key(match key {
                Some(k) => Some(k@),
                None => None,
            }),
    {
        let auth = match key {
            Some(k) => Some(Authenticator::new(k)),
            None => None,
        };
        Server { auth }
    }

    /// Whether `event` may be fed to `step` in `phase`.
    pub fn can_step(&self, phase: ServerPhase, event: &ServerEvent) -> (fits: bool)
        ensures
            fits == (server_event_fits(phase, *event) && phase_fits_key(self@, phase)),
    {
        let event_fits = match phase {
            ServerPhase::Start => matches!(event, ServerEvent::Opened),
            ServerPhase::Authenticating { .. } | ServerPhase::AwaitCommand => matches!(
                event,
                ServerEvent::Received(_) | ServerEvent::Failed(_)
            ),
            ServerPhase::Binding { .. } => matches!(event, ServerEvent::ListenerOpened | ServerEvent::ListenerRefused(_)),
            ServerPhase::Listening { .. } => matches!(
                event,
                ServerEvent::Incoming | ServerEvent::AcceptTimedOut | ServerEvent::AcceptFailed(_) | ServerEvent::Failed(_)
            ),
            ServerPhase::Forwarding { .. } => matches!(
                event,
                ServerEvent::VisitorMissing | ServerEvent::Spliced | ServerEvent::Failed(_)
            ),
            ServerPhase::Closed => false,
        };
        let key_fits = match phase {
            ServerPhase::Authenticating { .. } => self.auth.is_some(),
            _ => true,
        };
        event_fits && key_fits
    }

    /// The transition of a connection on `event` in `phase`, with `fresh` as
    /// the id of a new challenge or visitor.
    pub fn step(&self, phase: ServerPhase, event: ServerEvent, fresh: u128) -> (next: (ServerPhase, ServerAction))
        requires
            server_event_fits(phase, event),
            phase_fits_key(self@, phase),
        ensures
            next == server_step(self@, phase, event, fresh),
    {
        match phase {
            ServerPhase::Start => match &self.auth {
                Some(_) => (ServerPhase::Authenticating { challenge: fresh }, ServerAction::Exchange(ServerMessage::Challenge(fresh))),
                None => (ServerPhase::AwaitCommand, ServerAction::Receive),
            },
            ServerPhase::Authenticating { challenge } => match event {
                ServerEvent::Received(reply) => match self.verdict(challenge, &reply) {
                    Ok(()) => (ServerPhase::AwaitCommand, ServerAction::Receive),
                    Err(e) => (ServerPhase::Closed, ServerAction::Abort(Refusal::Handshake(e))),
                },
                ServerEvent::Failed(m) => (ServerPhase::Closed, ServerAction::Abort(Refusal::Failure(m))),
                _ => (ServerPhase::Closed, ServerAction::Close),
            },
            ServerPhase::AwaitCommand => match event {
                ServerEvent::Received(command) => match command {
                    Some(ClientMessage::Hello(port)) => (ServerPhase::Binding { port }, ServerAction::OpenListener(port)),
                    Some(ClientMessage::Accept(id)) => (ServerPhase::Forwarding { id }, ServerAction::Forward(id)),
                    Some(ClientMessage::ChallengeResponse(_)) | Some(ClientMessage::HeartBeat) => (ServerPhase::Closed, ServerAction::Close),
                    None => (ServerPhase::Closed, ServerAction::Reply(Refusal::UnexpectedMessage)),
                },
                ServerEvent::Failed(m) => (ServerPhase::Closed, ServerAction::Abort(Refusal::Failure(m))),
                _ => (ServerPhase::Closed, ServerAction::Close),
            },
            ServerPhase::Binding { port } => match event {
                ServerEvent::ListenerOpened => (ServerPhase::Listening { port }, ServerAction::Grant(port)),
                ServerEvent::ListenerRefused(f) => (ServerPhase::Closed, ServerAction::Reply(Refusal::Bind(f))),
                _ => (ServerPhase::Closed, ServerAction::Close),
            },
            ServerPhase::Listening { port } => match event {
                ServerEvent::Incoming => (ServerPhase::Listening { port }, ServerAction::Publish(fresh)),
                ServerEvent::AcceptTimedOut => (ServerPhase::Listening { port }, ServerAction::Accept),
                ServerEvent::AcceptFailed(m) => (ServerPhase::Closed, ServerAction::Reply(Refusal::Failure(m))),
                ServerEvent::Failed(m) => (ServerPhase::Closed, ServerAction::Abort(Refusal::Failure(m))),
                _ => (ServerPhase::Closed, ServerAction::Close),
            },
            ServerPhase::Forwarding { .. } => match event {
                ServerEvent::VisitorMissing => (ServerPhase::Closed, ServerAction::Reply(Refusal::UnknownConnection)),
                ServerEvent::Spliced => (ServerPhase::Closed, ServerAction::Close),
                ServerEvent::Failed(m) => (ServerPhase::Closed, ServerAction::Abort(Refusal::Failure(m))),
                _ => (ServerPhase::Closed, ServerAction::Close),
            },
            ServerPhase::Closed => (ServerPhase::Closed, ServerAction::Close),
        }
    }

    /// The transition of a connection on `event` in `phase`, drawing a fresh
    /// random version-4 UUID for a new challenge or visitor.
    pub fn advance(&self, phase: ServerPhase, event: ServerEvent) -> (next: (ServerPhase, ServerAction))
        requires
            server_event_fits(phase, event),
            phase_fits_key(self@, phase),
        ensures
            exists|fresh: u128| is_v4_id(fresh) && next == server_step(self@, phase, event, fresh),
    {
        let fresh = new_v4_id();
        self.step(phase, event, fresh)
    }

    /// The verdict on the reply to a challenge (unexpected without a key).
    fn verdict(&self, challenge: u128, reply: &Option<ClientMessage>) -> (verdict: Result<(), HandshakeError>)
        requires
            self@ is Some,
        ensures
            verdict == server_verdict(self@->0, challenge, *reply),
    {
        match &self.auth {
            Some(auth) => auth.server_handshake(challenge, reply),
            None => Err(HandshakeError::UnexpectedMessage),
        }
    }
}

} // verus!
