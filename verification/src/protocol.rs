//! Properties of client and server taken together: what one side sends is
//! what the other side's transition expects.

use crate::auth::{derived_key, lemma_own_response_accepted};
use crate::client::{
    control_transition, local_address, tunnel_transition, ClientView, ControlAction, ControlEvent,
    ControlPhase, TunnelAction, TunnelPhase,
};
use crate::message::{ClientMessage, ServerMessage};
use crate::server::{server_step, ServerAction, ServerEvent, ServerPhase};
use vstd::prelude::*;

verus! {

/// Without a secret, the client asks for its remote port, the server binds
/// that port and grants it (`Grant(port)` sends `Hello(port)`, repeating the
/// request), and on that `Hello` the client is established on the port it
/// asked for.
pub proof fn lemma_port_request_granted(
    client: ClientView,
    opening: (ControlPhase, ControlAction),
    granted: (ControlPhase, ControlAction),
    fresh: u128,
)
    requires
        client.key is None,
        control_transition(client, ControlPhase::Start, ControlEvent::Connected, opening),
        control_transition(
            client,
            ControlPhase::AwaitingHello,
            ControlEvent::Received(Some(ServerMessage::Hello(client.remote_port))),
            granted,
        ),
    ensures
        opening.1 matches ControlAction::Send(msgs) && msgs@.len() == 1 && server_step(
            None,
            ServerPhase::AwaitCommand,
            ServerEvent::Received(Some(msgs@[0])),
            fresh,
        ) == (ServerPhase::Binding { port: client.remote_port }, ServerAction::OpenListener(client.remote_port)),
        server_step(None, ServerPhase::Start, ServerEvent::Opened, fresh) == (ServerPhase::AwaitCommand, ServerAction::Receive),
        server_step(None, ServerPhase::Binding { port: client.remote_port }, ServerEvent::ListenerOpened, fresh) == (
            ServerPhase::Listening { port: client.remote_port },
            ServerAction::Grant(client.remote_port),
        ),
        granted == (ControlPhase::Listening, ControlAction::Established(client.remote_port)),
{
}

/// With a shared secret, the server's challenge is answered by the client,
/// the server accepts the answer and waits for the command, the client's
/// `Hello` asks for its remote port, and on the server's grant, which repeats
/// that port, the client is established on it.
pub proof fn lemma_shared_secret_reaches_established(
    secret: Seq<char>,
    client: ClientView,
    challenge: u128,
    waiting: (ControlPhase, ControlAction),
    answered: (ControlPhase, ControlAction),
    granted: (ControlPhase, ControlAction),
    fresh: u128,
)
    requires
        client.key == Some(derived_key(secret)),
        control_transition(client, ControlPhase::Start, ControlEvent::Connected, waiting),
        control_transition(client, ControlPhase::Authenticating, ControlEvent::Received(Some(ServerMessage::Challenge(challenge))), answered),
        control_transition(client, ControlPhase::AwaitingHello, ControlEvent::Received(Some(ServerMessage::Hello(client.remote_port))), granted),
    ensures
        waiting == (ControlPhase::Authenticating, ControlAction::Receive(true)),
        server_step(Some(derived_key(secret)), ServerPhase::Start, ServerEvent::Opened, challenge) == (
            ServerPhase::Authenticating { challenge },
            ServerAction::Exchange(ServerMessage::Challenge(challenge)),
        ),
        answered.1 matches ControlAction::Send(msgs) && msgs@.len() == 2 && server_step(
            Some(derived_key(secret)),
            ServerPhase::Authenticating { challenge },
            ServerEvent::Received(Some(msgs@[0])),
            fresh,
        ) == (ServerPhase::AwaitCommand, ServerAction::Receive) && server_step(
            Some(derived_key(secret)),
            ServerPhase::AwaitCommand,
            ServerEvent::Received(Some(msgs@[1])),
            fresh,
        ) == (ServerPhase::Binding { port: client.remote_port }, ServerAction::OpenListener(client.remote_port)),
        server_step(Some(derived_key(secret)), ServerPhase::Binding { port: client.remote_port }, ServerEvent::ListenerOpened, fresh) == (
            ServerPhase::Listening { port: client.remote_port },
            ServerAction::Grant(client.remote_port),
        ),
        granted == (ControlPhase::Listening, ControlAction::Established(client.remote_port)),
{
    lemma_own_response_accepted(derived_key(secret), challenge);
}

/// Without a secret, a visitor that the server publishes under `id` is
/// announced to the client, the client opens a tunnel for `id` towards its
/// local address, and the server splices the visitor with that tunnel.
pub proof fn lemma_visitor_reaches_tunnel(
    client: ClientView,
    port: u16,
    id: u128,
    notice: (ControlPhase, ControlAction),
    tunnel: (TunnelPhase, TunnelAction),
    fresh: u128,
)
    requires
        client.key is None,
        control_transition(client, ControlPhase::Listening, ControlEvent::Received(Some(ServerMessage::Connection(id))), notice),
        tunnel_transition(client, id, TunnelPhase::Start, ControlEvent::Connected, tunnel),
    ensures
        server_step(None, ServerPhase::Listening { port }, ServerEvent::Incoming, id) == (
            ServerPhase::Listening { port },
            ServerAction::Publish(id),
        ),
        notice == (ControlPhase::Listening, ControlAction::OpenTunnel(id)),
        tunnel.1 matches TunnelAction::Splice(msgs, addr) && addr@ == local_address(client) && msgs@.len() == 1
            && server_step(None, ServerPhase::AwaitCommand, ServerEvent::Received(Some(msgs@[0])), fresh) == (
            ServerPhase::Forwarding { id },
            ServerAction::Forward(id),
        ),
{
}

/// With a shared secret too, a visitor that the server publishes under `id`
/// is announced to the client, the client's tunnel answers the server's
/// challenge and accepts `id`, and the server, having accepted the answer,
/// splices exactly visitor `id` with that tunnel.
pub proof fn lemma_visitor_reaches_keyed_tunnel(
    secret: Seq<char>,
    client: ClientView,
    port: u16,
    id: u128,
    challenge: u128,
    notice: (ControlPhase, ControlAction),
    opened: (TunnelPhase, TunnelAction),
    tunnel: (TunnelPhase, TunnelAction),
    fresh: u128,
)
    requires
        client.key == Some(derived_key(secret)),
        control_transition(client, ControlPhase::Listening, ControlEvent::Received(Some(ServerMessage::Connection(id))), notice),
        tunnel_transition(client, id, TunnelPhase::Start, ControlEvent::Connected, opened),
        tunnel_transition(client, id, TunnelPhase::Authenticating, ControlEvent::Received(Some(ServerMessage::Challenge(challenge))), tunnel),
    ensures
        server_step(Some(derived_key(secret)), ServerPhase::Listening { port }, ServerEvent::Incoming, id) == (
            ServerPhase::Listening { port },
            ServerAction::Publish(id),
        ),
        notice == (ControlPhase::Listening, ControlAction::OpenTunnel(id)),
        opened == (TunnelPhase::Authenticating, TunnelAction::Receive),
        server_step(Some(derived_key(secret)), ServerPhase::Start, ServerEvent::Opened, challenge) == (
            ServerPhase::Authenticating { challenge },
            ServerAction::Exchange(ServerMessage::Challenge(challenge)),
        ),
        tunnel.1 matches TunnelAction::Splice(msgs, addr) && addr@ == local_address(client) && msgs@.len() == 2
            && server_step(Some(derived_key(secret)), ServerPhase::Authenticating { challenge }, ServerEvent::Received(Some(msgs@[0])), fresh)
            == (ServerPhase::AwaitCommand, ServerAction::Receive)
            && server_step(Some(derived_key(secret)), ServerPhase::AwaitCommand, ServerEvent::Received(Some(msgs@[1])), fresh) == (
            ServerPhase::Forwarding { id },
            ServerAction::Forward(id),
        ),
{
    lemma_own_response_accepted(derived_key(secret), challenge);
}

} // verus!
