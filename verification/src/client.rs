//! The client's decisions: authenticating, asking the server for a public
//! port, reacting to the server's notices, and opening a tunnel for each
//! visitor the server announces.

use crate::auth::{derived_key, response_tag, Authenticator, HandshakeError};
use crate::forward::{decimal_string, decimal_text, lemma_port_text_roundtrip, parse_u16_text};
use crate::message::{ClientMessage, ServerMessage};
use vstd::prelude::*;

verus! {

/// What a client is configured with: the local host and port to expose, the
/// port to ask for on the server, and the key derived from the secret, if any.
pub struct ClientView {
    /// The local host that tunnels connect to.
    pub host: Seq<char>,
    /// The local port that tunnels connect to.
    pub local_port: u16,
    /// The public port: asked for, then granted by the server.
    pub remote_port: u16,
    /// The key derived from the secret, if any.
    pub key: Option<Seq<u8>>,
}

/// The key derived from an optional secret.
pub open spec fn optional_key(secret: Option<Seq<char>>) -> Option<Seq<u8>> {
    match secret {
        Some(s) => Some(derived_key(s)),
        None => None,
    }
}

/// Why the client gave up on the connection to the server.
#[derive(Debug, Clone, PartialEq, Eq)]
pub enum ClientError {
    /// The authentication handshake failed.
    Handshake(HandshakeError),
    /// The server answered the request for a port with an error (held here).
    ServerError(String),
    /// The server sent a challenge, but the client has no secret.
    AuthenticationRequired,
    /// The server answered with another message than `Hello`.
    UnexpectedMessage,
    /// The server closed the connection.
    UnexpectedEof,
}

impl ClientError {
    /// The text of the error.
    pub open spec fn text(self) -> Seq<char> {
        match self {
            ClientError::Handshake(e) => e.text(),
            ClientError::ServerError(m) => "server error: "@ + m@,
            ClientError::AuthenticationRequired => "server requires authentication, but no client secret was provided"@,
            ClientError::UnexpectedMessage => "unexpected initial non-hello message"@,
            ClientError::UnexpectedEof => "unexpected EOF"@,
        }
    }

    /// The text of the error, as shown to the user.
    pub fn message(&self) -> (text: String)
        ensures
            text@ == self.text(),
    {
        match self {
            ClientError::Handshake(e) => e.message(),
            ClientError::ServerError(m) => String::from_str("server error: ").concat(m.as_str()),
            ClientError::AuthenticationRequired => String::from_str(
                "server requires authentication, but no client secret was provided",
            ),
            ClientError::UnexpectedMessage => String::from_str("unexpected initial non-hello message"),
            ClientError::UnexpectedEof => String::from_str("unexpected EOF"),
        }
    }
}

/// Where the control connection to the server stands.
#[derive(Debug, Clone, Copy, PartialEq, Eq)]
pub enum ControlPhase {
    /// Connected, nothing exchanged yet.
    Start,
    /// Waiting for the server's challenge.
    Authenticating,
    /// `Hello` sent; waiting for the server's answer.
    AwaitingHello,
    /// The public port is open; waiting for the server's notices.
    Listening,
    /// Nothing more happens on this connection.
    Closed,
}

/// What happened on the control connection.
#[derive(Debug, Clone, PartialEq, Eq)]
pub enum ControlEvent {
    /// The connection to the server has been opened.
    Connected,
    /// The message awaited arrived (`None`: the server closed the connection).
    Received(Option<ServerMessage>),
}

/// What the client does next on the control connection.
#[derive(Debug, Clone, PartialEq, Eq)]
pub enum ControlAction {
    /// Wait for the next message; `true`: within the network timeout.
    Receive(bool),
    /// Send these messages in order, then wait for the next message within
    /// the network timeout.
    Send(Vec<ClientMessage>),
    /// The server granted the public port (held here): the port asked for,
    /// or, when 0 was asked for, the port its `Hello` names. From now on wait
    /// for its notices without a timeout.
    Established(u16),
    /// Log this warning and wait for the next notice.
    Warn(String),
    /// Log this error from the server and wait for the next notice.
    ReportError(String),
    /// Open a tunnel for the visitor with this id, and wait for the next notice.
    OpenTunnel(u128),
    /// Give up with this error.
    Fail(ClientError),
    /// The server closed the connection: stop normally.
    Finish,
}

/// Whether `event` is one the control connection can meet in `phase`.
pub open spec fn control_event_fits(phase: ControlPhase, event: ControlEvent) -> bool {
    match phase {
        ControlPhase::Start => event is Connected,
        ControlPhase::Authenticating | ControlPhase::AwaitingHello | ControlPhase::Listening => event is Received,
        ControlPhase::Closed => false,
    }
}

/// Where a tunnel connection stands.
#[derive(Debug, Clone, Copy, PartialEq, Eq)]
pub enum TunnelPhase {
    /// Connected to the server, nothing exchanged yet.
    Start,
    /// Waiting for the server's challenge.
    Authenticating,
    /// The tunnel is being spliced, or has failed.
    Done,
}

/// What the client does next on a tunnel connection.
#[derive(Debug, Clone, PartialEq, Eq)]
pub enum TunnelAction {
    /// Wait for the next message within the network timeout.
    Receive,
    /// Send these messages in order, then connect to the local address (held
    /// here) and splice the two connections.
    Splice(Vec<ClientMessage>, String),
    /// Give up with this error.
    Fail(ClientError),
}

/// Whether `event` is one a tunnel connection can meet in `phase`.
pub open spec fn tunnel_event_fits(phase: TunnelPhase, event: ControlEvent) -> bool {
    match phase {
        TunnelPhase::Start => event is Connected,
        TunnelPhase::Authenticating => event is Received,
        TunnelPhase::Done => false,
    }
}

/// The local address a tunnel connects to: `host:port`, the port in decimal.
pub open spec fn local_address(view: ClientView) -> Seq<char> {
    view.host + seq![':'] + decimal_text(view.local_port as nat)
}

/// The step of the control connection of a client configured as `view`:
/// what `next` may be on `event` in `phase`.
pub open spec fn control_transition(view: ClientView, phase: ControlPhase, event: ControlEvent, next: (ControlPhase, ControlAction)) -> bool {
    match (phase, event) {
        (ControlPhase::Start, _) => if view.key is Some {
            next == (ControlPhase::Authenticating, ControlAction::Receive(true))
        } else {
            &&& next.0 == ControlPhase::AwaitingHello
            &&& next.1 matches ControlAction::Send(msgs)
            &&& msgs@ =~= seq![ClientMessage::Hello(view.remote_port)]
        },
        (ControlPhase::Authenticating, ControlEvent::Received(msg)) => match msg {
            Some(ServerMessage::Challenge(challenge)) => {
                &&& next.0 == ControlPhase::AwaitingHello
                &&& next.1 matches ControlAction::Send(msgs)
                &&& msgs@.len() == 2
                &&& msgs@[0] matches ClientMessage::ChallengeResponse(tag)
                &&& tag@ == response_tag(view.key->0, challenge)
                &&& msgs@[1] == ClientMessage::Hello(view.remote_port)
            },
            _ => next == (ControlPhase::Closed, ControlAction::Fail(ClientError::Handshake(HandshakeError::UnexpectedMessage))),
        },
        (ControlPhase::AwaitingHello, ControlEvent::Received(msg)) => match msg {
            Some(ServerMessage::Hello(port)) => next == (
                ControlPhase::Listening,
                ControlAction::Established(if view.remote_port == 0 { port } else { view.remote_port }),
            ),
            Some(ServerMessage::Error(m)) => next == (ControlPhase::Closed, ControlAction::Fail(ClientError::ServerError(m))),
            Some(ServerMessage::Challenge(_)) => next == (ControlPhase::Closed, ControlAction::Fail(ClientError::AuthenticationRequired)),
            Some(_) => next == (ControlPhase::Closed, ControlAction::Fail(ClientError::UnexpectedMessage)),
            None => next == (ControlPhase::Closed, ControlAction::Fail(ClientError::UnexpectedEof)),
        },
        (ControlPhase::Listening, ControlEvent::Received(msg)) => match msg {
            Some(ServerMessage::Hello(_)) => {
                &&& next.0 == ControlPhase::Listening
                &&& next.1 matches ControlAction::Warn(w)
                &&& w@ == "unexpected hello"@
            },
            Some(ServerMessage::Challenge(_)) => {
                &&& next.0 == ControlPhase::Listening
                &&& next.1 matches ControlAction::Warn(w)
                &&& w@ == "unexpected challenge"@
            },
            Some(ServerMessage::HeartBeat) => next == (ControlPhase::Listening, ControlAction::Receive(false)),
            Some(ServerMessage::Connection(id)) => next == (ControlPhase::Listening, ControlAction::OpenTunnel(id)),
            Some(ServerMessage::Error(m)) => next == (ControlPhase::Listening, ControlAction::ReportError(m)),
            None => next == (ControlPhase::Closed, ControlAction::Finish),
        },
        _ => false,
    }
}

/// The step of the tunnel connection for visitor `id` of a client configured
/// as `view`: what `next` may be on `event` in `phase`.
pub open spec fn tunnel_transition(view: ClientView, id: u128, phase: TunnelPhase, event: ControlEvent, next: (TunnelPhase, TunnelAction)) -> bool {
    match (phase, event) {
        (TunnelPhase::Start, _) => if view.key is Some {
            next == (TunnelPhase::Authenticating, TunnelAction::Receive)
        } else {
            &&& next.0 == TunnelPhase::Done
            &&& next.1 matches TunnelAction::Splice(msgs, addr)
            &&& msgs@ =~= seq![ClientMessage::Accept(id)]
            &&& addr@ == local_address(view)
        },
        (TunnelPhase::Authenticating, ControlEvent::Received(msg)) => match msg {
            Some(ServerMessage::Challenge(challenge)) => {
                &&& next.0 == TunnelPhase::Done
                &&& next.1 matches TunnelAction::Splice(msgs, addr)
                &&& msgs@.len() == 2
                &&& msgs@[0] matches ClientMessage::ChallengeResponse(tag)
                &&& tag@ == response_tag(view.key->0, challenge)
                &&& msgs@[1] == ClientMessage::Accept(id)
                &&& addr@ == local_address(view)
            },
            _ => next == (TunnelPhase::Done, TunnelAction::Fail(ClientError::Handshake(HandshakeError::UnexpectedMessage))),
        },
        _ => false,
    }
}

/// Every visitor the server announces gets a tunnel, whatever the client's
/// configuration (with or without a secret).
pub proof fn lemma_notice_opens_tunnel(view: ClientView, id: u128, next: (ControlPhase, ControlAction))
    requires
        control_transition(view, ControlPhase::Listening, ControlEvent::Received(Some(ServerMessage::Connection(id))), next),
    ensures
        next == (ControlPhase::Listening, ControlAction::OpenTunnel(id)),
{
}

/// A tunnel is opened only for a visitor the server announced, under its id.
pub proof fn lemma_tunnel_only_for_notice(view: ClientView, phase: ControlPhase, event: ControlEvent, next: (ControlPhase, ControlAction), id: u128)
    requires
        control_transition(view, phase, event, next),
        next.1 == ControlAction::OpenTunnel(id),
    ensures
        phase == ControlPhase::Listening,
        event == ControlEvent::Received(Some(ServerMessage::Connection(id))),
{
}

/// The other notices while listening: heartbeats are ignored, server errors
/// reported, stray `Hello`s and challenges warned about, and the end of the
/// stream ends the client normally.
pub proof fn lemma_other_notices(view: ClientView, msg: Option<ServerMessage>, next: (ControlPhase, ControlAction))
    requires
        control_transition(view, ControlPhase::Listening, ControlEvent::Received(msg), next),
    ensures
        msg == Some(ServerMessage::HeartBeat) ==> next == (ControlPhase::Listening, ControlAction::Receive(false)),
        msg matches Some(ServerMessage::Error(m)) ==> next == (ControlPhase::Listening, ControlAction::ReportError(m)),
        msg is None ==> next == (ControlPhase::Closed, ControlAction::Finish),
        msg matches Some(ServerMessage::Hello(_)) ==> next.0 == ControlPhase::Listening && next.1 is Warn,
        msg matches Some(ServerMessage::Challenge(_)) ==> next.0 == ControlPhase::Listening && next.1 is Warn,
{
}

/// The client asks for the port it was configured with: without a secret
/// right away, with one right after answering the challenge with its tag
/// under its key.
pub proof fn lemma_hello_asks_configured_port(view: ClientView, challenge: u128, opening: (ControlPhase, ControlAction), answered: (ControlPhase, ControlAction))
    requires
        control_transition(view, ControlPhase::Start, ControlEvent::Connected, opening),
        view.key is Some ==> control_transition(view, ControlPhase::Authenticating, ControlEvent::Received(Some(ServerMessage::Challenge(challenge))), answered),
    ensures
        view.key is None ==> {
            &&& opening.1 matches ControlAction::Send(msgs)
            &&& msgs@.len() == 1
            &&& msgs@[0] == ClientMessage::Hello(view.remote_port)
        },
        view.key matches Some(key) ==> {
            &&& opening == (ControlPhase::Authenticating, ControlAction::Receive(true))
            &&& answered.1 matches ControlAction::Send(msgs)
            &&& msgs@.len() == 2
            &&& msgs@[0] matches ClientMessage::ChallengeResponse(tag)
            &&& tag@ == response_tag(key, challenge)
            &&& msgs@[1] == ClientMessage::Hello(view.remote_port)
        },
{
}

/// The port a client is established on: the port it asked for, whatever the
/// server's `Hello` names, except when it asked for any port (0), where it
/// takes the port the server names.
pub proof fn lemma_established_port(view: ClientView, announced: u16, next: (ControlPhase, ControlAction))
    requires
        control_transition(view, ControlPhase::AwaitingHello, ControlEvent::Received(Some(ServerMessage::Hello(announced))), next),
    ensures
        view.remote_port != 0 ==> next == (ControlPhase::Listening, ControlAction::Established(view.remote_port)),
        view.remote_port == 0 ==> next == (ControlPhase::Listening, ControlAction::Established(announced)),
{
}

/// Every tunnel the client splices ends its messages with `Accept(id)` for
/// exactly the visitor it was opened for, is preceded by the answer to the
/// challenge when there is a secret, and connects to the configured local
/// address.
pub proof fn lemma_tunnel_accepts_its_visitor(
    view: ClientView,
    id: u128,
    phase: TunnelPhase,
    event: ControlEvent,
    next: (TunnelPhase, TunnelAction),
)
    requires
        tunnel_transition(view, id, phase, event, next),
        phase == TunnelPhase::Authenticating ==> view.key is Some,
        next.1 is Splice,
    ensures
        next.1 matches TunnelAction::Splice(msgs, addr) && addr@ == local_address(view) && msgs@.len() >= 1
            && msgs@.last() == ClientMessage::Accept(id) && (view.key is None ==> msgs@.len() == 1),
        view.key matches Some(key) ==> {
            &&& phase == TunnelPhase::Authenticating
            &&& event matches ControlEvent::Received(Some(ServerMessage::Challenge(challenge)))
            &&& next.1 matches TunnelAction::Splice(msgs, _)
            &&& msgs@.len() == 2
            &&& msgs@[0] matches ClientMessage::ChallengeResponse(tag)
            &&& tag@ == response_tag(key, challenge)
        },
{
    if let TunnelAction::Splice(msgs, _) = next.1 {
        if view.key is None {
            assert(msgs@ =~= seq![ClientMessage::Accept(id)]);
            assert(msgs@.last() == msgs@[0]);
        } else {
            assert(msgs@.last() == msgs@[1]);
        }
    }
}

/// How the request for a port ends when the server does not grant it: its
/// error is reported with the server's text, a challenge means the server
/// wants a secret, the end of the stream is an unexpected EOF, and anything
/// else is an unexpected message.
pub proof fn lemma_hello_refusals(view: ClientView, msg: Option<ServerMessage>, next: (ControlPhase, ControlAction))
    requires
        control_transition(view, ControlPhase::AwaitingHello, ControlEvent::Received(msg), next),
        !(msg matches Some(ServerMessage::Hello(_))),
    ensures
        next.0 == ControlPhase::Closed,
        msg matches Some(ServerMessage::Error(m)) ==> next.1 == ControlAction::Fail(ClientError::ServerError(m)),
        msg matches Some(ServerMessage::Challenge(_)) ==> next.1 == ControlAction::Fail(ClientError::AuthenticationRequired),
        msg is None ==> next.1 == ControlAction::Fail(ClientError::UnexpectedEof),
        (msg == Some(ServerMessage::HeartBeat) || msg matches Some(ServerMessage::Connection(_))) ==> next.1 == ControlAction::Fail(
            ClientError::UnexpectedMessage,
        ),
{
}

/// While authenticating, on the control connection as on a tunnel, anything
/// but a challenge fails the handshake as an unexpected message.
pub proof fn lemma_only_challenges_answered(view: ClientView, id: u128, msg: Option<ServerMessage>, control: (ControlPhase, ControlAction), tunnel: (TunnelPhase, TunnelAction))
    requires
        control_transition(view, ControlPhase::Authenticating, ControlEvent::Received(msg), control),
        tunnel_transition(view, id, TunnelPhase::Authenticating, ControlEvent::Received(msg), tunnel),
        !(msg matches Some(ServerMessage::Challenge(_))),
    ensures
        control == (ControlPhase::Closed, ControlAction::Fail(ClientError::Handshake(HandshakeError::UnexpectedMessage))),
        tunnel == (TunnelPhase::Done, TunnelAction::Fail(ClientError::Handshake(HandshakeError::UnexpectedMessage))),
{
}

/// The local address is the host, a `:`, and the decimal text of the local
/// port, which reads back as that port.
pub proof fn lemma_local_address_parts(view: ClientView)
    ensures
        local_address(view).subrange(0, view.host.len() as int) == view.host,
        local_address(view)[view.host.len() as int] == ':',
        parse_u16_text(local_address(view).subrange(view.host.len() + 1int, local_address(view).len() as int)) == Some(
            view.local_port,
        ),
{
    let text = local_address(view);
    assert(text.subrange(0, view.host.len() as int) =~= view.host);
    assert(text.subrange(view.host.len() + 1int, text.len() as int) =~= decimal_text(view.local_port as nat));
    lemma_port_text_roundtrip(view.local_port);
}

/// The client side of the tunnel.
pub struct Client {
    local_ip: String,
    local_port: u16,
    remote_port: u16,
    auth: Option<Authenticator>,
}

impl View for Client {
    type V = ClientView;

    closed spec fn view(&self) -> ClientView {
        ClientView {
            host: self.local_ip@,
            local_port: self.local_port,
            remote_port: self.remote_port,
            key: match self.auth {
                Some(a) => Some(a@),
                None => None,
            },
        }
    }
}

impl Client {
    /// A client that exposes `host:local_port` on the server's `remote_port`,
    /// authenticating with `secret` when there is one.
    pub fn new(host: &str, local_port: u16, remote_port: u16, secret: Option<&str>) -> (client: Self)
        ensures
            client@.host == host@,
            client@.local_port == local_port,
            client@.remote_port == remote_port,
            client@.key == optional_key(match secret {
                Some(s) => Some(s@),
                None => None,
            }),
    {
        let auth = match secret {
            Some(s) => Some(Authenticator::new(s)),
            None => None,
        };
        Client { local_ip: host.to_string(), local_port, remote_port, auth }
    }

    /// Records the port the server's `Hello` announced, which counts only
    /// when port 0 (any port) was asked for; otherwise the port asked for stays.
    pub fn established(&mut self, announced: u16)
        ensures
            final(self)@ == (ClientView {
                remote_port: if old(self)@.remote_port == 0 { announced } else { old(self)@.remote_port },
                ..old(self)@
            }),
    {
        if self.remote_port == 0 {
            self.remote_port = announced;
        }
    }

    /// The port publicly available on the server: the port asked for, or,
    /// when 0 was asked for, the port announced and recorded with `established`.
    pub fn remote_port(&self) -> (port: u16)
        ensures
            port == self@.remote_port,
    {
        self.remote_port
    }

    /// The local address that tunnels connect to.
    pub fn local_addr(&self) -> (addr: String)
        ensures
            addr@ == local_address(self@),
    {
        let mut addr = self.local_ip.clone();
        addr.append(":");
        proof {
            reveal_strlit(":");
        }
        let port = decimal_string(self.local_port);
        addr.append(port.as_str());
        assert(addr@ =~= local_address(self@));
        addr
    }

    /// The answer to the server's challenge, with the client's key.
    fn answer(&self, msg: &Option<ServerMessage>) -> (answer: Result<ClientMessage, HandshakeError>)
        requires
            self@.key is Some,
        ensures
            match *msg {
                Some(ServerMessage::Challenge(challenge)) => answer matches Ok(ClientMessage::ChallengeResponse(tag))
                    && tag@ == response_tag(self@.key->0, challenge),
                _ => answer == Err::<ClientMessage, HandshakeError>(HandshakeError::UnexpectedMessage),
            },
    {
        match &self.auth {
            Some(auth) => auth.client_handshake(msg),
            None => Err(HandshakeError::UnexpectedMessage),
        }
    }

    /// Whether `event` may be fed to `control_step` in `phase`.
    pub fn can_control_step(&self, phase: ControlPhase, event: &ControlEvent) -> (fits: bool)
        ensures
            fits == (control_event_fits(phase, *event) && (phase == ControlPhase::Authenticating ==> self@.key is Some)),
    {
        match phase {
            ControlPhase::Start => matches!(event, ControlEvent::Connected),
            ControlPhase::Authenticating => matches!(event, ControlEvent::Received(_)) && self.auth.is_some(),
            ControlPhase::AwaitingHello | ControlPhase::Listening => matches!(event, ControlEvent::Received(_)),
            ControlPhase::Closed => false,
        }
    }

    /// Whether `event` may be fed to `tunnel_step` in `phase`.
    pub fn can_tunnel_step(&self, phase: TunnelPhase, event: &ControlEvent) -> (fits: bool)
        ensures
            fits == (tunnel_event_fits(phase, *event) && (phase == TunnelPhase::Authenticating ==> self@.key is Some)),
    {
        match phase {
            TunnelPhase::Start => matches!(event, ControlEvent::Connected),
            TunnelPhase::Authenticating => matches!(event, ControlEvent::Received(_)) && self.auth.is_some(),
            TunnelPhase::Done => false,
        }
    }

    /// The step of the control connection: on `event` in `phase`, the next
    /// phase and what to do.
    pub fn control_step(&self, phase: ControlPhase, event: ControlEvent) -> (next: (ControlPhase, ControlAction))
        requires
            control_event_fits(phase, event),
            phase == ControlPhase::Authenticating ==> self@.key is Some,
        ensures
            control_transition(self@, phase, event, next),
    {
        match phase {
            ControlPhase::Start => {
                if self.auth.is_some() {
                    (ControlPhase::Authenticating, ControlAction::Receive(true))
                } else {
                    let msgs = vec![ClientMessage::Hello(self.remote_port)];
                    (ControlPhase::AwaitingHello, ControlAction::Send(msgs))
                }
            },
            ControlPhase::Authenticating => {
                let msg = match event {
                    ControlEvent::Received(msg) => msg,
                    ControlEvent::Connected => None,
                };
                match self.answer(&msg) {
                    Ok(response) => {
                        let msgs = vec![response, ClientMessage::Hello(self.remote_port)];
                        (ControlPhase::AwaitingHello, ControlAction::Send(msgs))
                    },
                    Err(e) => (ControlPhase::Closed, ControlAction::Fail(ClientError::Handshake(e))),
                }
            },
            ControlPhase::AwaitingHello => {
                let msg = match event {
                    ControlEvent::Received(msg) => msg,
                    ControlEvent::Connected => None,
                };
                match msg {
                    Some(ServerMessage::Hello(port)) => {
                        let granted = if self.remote_port == 0 { port } else { self.remote_port };
                        (ControlPhase::Listening, ControlAction::Established(granted))
                    },
                    Some(ServerMessage::Error(m)) => (ControlPhase::Closed, ControlAction::Fail(ClientError::ServerError(m))),
                    Some(ServerMessage::Challenge(_)) => (ControlPhase::Closed, ControlAction::Fail(ClientError::AuthenticationRequired)),
                    Some(_) => (ControlPhase::Closed, ControlAction::Fail(ClientError::UnexpectedMessage)),
                    None => (ControlPhase::Closed, ControlAction::Fail(ClientError::UnexpectedEof)),
                }
            },
            _ => {
                let msg = match event {
                    ControlEvent::Received(msg) => msg,
                    ControlEvent::Connected => None,
                };
                match msg {
                    Some(ServerMessage::Hello(_)) => {
                        proof {
                            reveal_strlit("unexpected hello");
                        }
                        (ControlPhase::Listening, ControlAction::Warn(String::from_str("unexpected hello")))
                    },
                    Some(ServerMessage::Challenge(_)) => {
                        proof {
                            reveal_strlit("unexpected challenge");
                        }
                        (ControlPhase::Listening, ControlAction::Warn(String::from_str("unexpected challenge")))
                    },
                    Some(ServerMessage::HeartBeat) => (ControlPhase::Listening, ControlAction::Receive(false)),
                    Some(ServerMessage::Connection(id)) => (ControlPhase::Listening, ControlAction::OpenTunnel(id)),
                    Some(ServerMessage::Error(m)) => (ControlPhase::Listening, ControlAction::ReportError(m)),
                    None => (ControlPhase::Closed, ControlAction::Finish),
                }
            },
        }
    }

    /// The step of the tunnel connection opened for visitor `id`: on `event`
    /// in `phase`, the next phase and what to do.
    pub fn tunnel_step(&self, id: u128, phase: TunnelPhase, event: ControlEvent) -> (next: (TunnelPhase, TunnelAction))
        requires
            tunnel_event_fits(phase, event),
            phase == TunnelPhase::Authenticating ==> self@.key is Some,
        ensures
            tunnel_transition(self@, id, phase, event, next),
    {
        match phase {
            TunnelPhase::Start => {
                if self.auth.is_some() {
                    (TunnelPhase::Authenticating, TunnelAction::Receive)
                } else {
                    let msgs = vec![ClientMessage::Accept(id)];
                    (TunnelPhase::Done, TunnelAction::Splice(msgs, self.local_addr()))
                }
            },
            _ => {
                let msg = match event {
                    ControlEvent::Received(msg) => msg,
                    ControlEvent::Connected => None,
                };
                match self.answer(&msg) {
                    Ok(response) => {
                        let msgs = vec![response, ClientMessage::Accept(id)];
                        (TunnelPhase::Done, TunnelAction::Splice(msgs, self.local_addr()))
                    },
                    Err(e) => (TunnelPhase::Done, TunnelAction::Fail(ClientError::Handshake(e))),
                }
            },
        }
    }
}

} // verus!
