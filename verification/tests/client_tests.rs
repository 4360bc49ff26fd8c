use port_proxy::auth::{Authenticator, HandshakeError};
use port_proxy::client::{Client, ClientError, ControlAction, ControlEvent, ControlPhase, TunnelAction, TunnelPhase};
use port_proxy::message::{ClientMessage, ServerMessage};

#[test]
fn client_keeps_its_configuration() {
    let client = Client::new("127.0.0.1", 3000, 9000, None);
    assert_eq!(client.remote_port(), 9000);
    assert_eq!(client.local_addr(), "127.0.0.1:3000");
}

#[test]
fn control_without_secret_sends_hello_first() {
    let client = Client::new("127.0.0.1", 3000, 9000, None);
    assert_eq!(
        client.control_step(ControlPhase::Start, ControlEvent::Connected),
        (ControlPhase::AwaitingHello, ControlAction::Send(vec![ClientMessage::Hello(9000)]))
    );
}

#[test]
fn control_with_secret_answers_challenge_then_sends_hello() {
    let client = Client::new("127.0.0.1", 3000, 9000, Some("pw"));
    assert_eq!(
        client.control_step(ControlPhase::Start, ControlEvent::Connected),
        (ControlPhase::Authenticating, ControlAction::Receive(true))
    );
    let tag = Authenticator::new("pw").encrypt(5);
    assert_eq!(
        client.control_step(
            ControlPhase::Authenticating,
            ControlEvent::Received(Some(ServerMessage::Challenge(5)))
        ),
        (
            ControlPhase::AwaitingHello,
            ControlAction::Send(vec![ClientMessage::ChallengeResponse(tag), ClientMessage::Hello(9000)])
        )
    );
    assert_eq!(
        client.control_step(ControlPhase::Authenticating, ControlEvent::Received(Some(ServerMessage::HeartBeat))),
        (
            ControlPhase::Closed,
            ControlAction::Fail(ClientError::Handshake(HandshakeError::UnexpectedMessage))
        )
    );
}

#[test]
fn control_judges_the_hello_reply() {
    let client = Client::new("h", 1, 2, None);
    let step = |m: Option<ServerMessage>| client.control_step(ControlPhase::AwaitingHello, ControlEvent::Received(m));
    assert_eq!(step(Some(ServerMessage::Hello(2))), (ControlPhase::Listening, ControlAction::Established(2)));
    assert_eq!(step(Some(ServerMessage::Hello(40000))), (ControlPhase::Listening, ControlAction::Established(2)));
    assert_eq!(
        step(Some(ServerMessage::Error("busy".to_string()))),
        (ControlPhase::Closed, ControlAction::Fail(ClientError::ServerError("busy".to_string())))
    );
    assert_eq!(
        step(Some(ServerMessage::Challenge(1))),
        (ControlPhase::Closed, ControlAction::Fail(ClientError::AuthenticationRequired))
    );
    assert_eq!(
        step(Some(ServerMessage::HeartBeat)),
        (ControlPhase::Closed, ControlAction::Fail(ClientError::UnexpectedMessage))
    );
    assert_eq!(step(None), (ControlPhase::Closed, ControlAction::Fail(ClientError::UnexpectedEof)));
}

#[test]
fn control_reacts_to_notices() {
    let client = Client::new("h", 1, 2, None);
    let step = |m: Option<ServerMessage>| client.control_step(ControlPhase::Listening, ControlEvent::Received(m));
    assert_eq!(
        step(Some(ServerMessage::Hello(2))),
        (ControlPhase::Listening, ControlAction::Warn("unexpected hello".to_string()))
    );
    assert_eq!(
        step(Some(ServerMessage::Challenge(9))),
        (ControlPhase::Listening, ControlAction::Warn("unexpected challenge".to_string()))
    );
    assert_eq!(step(Some(ServerMessage::HeartBeat)), (ControlPhase::Listening, ControlAction::Receive(false)));
    assert_eq!(
        step(Some(ServerMessage::Connection(77))),
        (ControlPhase::Listening, ControlAction::OpenTunnel(77))
    );
    assert_eq!(
        step(Some(ServerMessage::Error("e".to_string()))),
        (ControlPhase::Listening, ControlAction::ReportError("e".to_string()))
    );
    assert_eq!(step(None), (ControlPhase::Closed, ControlAction::Finish));
}

#[test]
fn tunnel_accepts_the_announced_id() {
    let client = Client::new("localhost", 22, 2222, None);
    assert_eq!(
        client.tunnel_step(77, TunnelPhase::Start, ControlEvent::Connected),
        (
            TunnelPhase::Done,
            TunnelAction::Splice(vec![ClientMessage::Accept(77)], "localhost:22".to_string())
        )
    );
}

#[test]
fn tunnel_with_secret_authenticates_first() {
    let client = Client::new("localhost", 22, 2222, Some("pw"));
    assert_eq!(
        client.tunnel_step(77, TunnelPhase::Start, ControlEvent::Connected),
        (TunnelPhase::Authenticating, TunnelAction::Receive)
    );
    let tag = Authenticator::new("pw").encrypt(8);
    assert_eq!(
        client.tunnel_step(77, TunnelPhase::Authenticating, ControlEvent::Received(Some(ServerMessage::Challenge(8)))),
        (
            TunnelPhase::Done,
            TunnelAction::Splice(
                vec![ClientMessage::ChallengeResponse(tag), ClientMessage::Accept(77)],
                "localhost:22".to_string()
            )
        )
    );
    assert_eq!(
        client.tunnel_step(77, TunnelPhase::Authenticating, ControlEvent::Received(None)),
        (TunnelPhase::Done, TunnelAction::Fail(ClientError::Handshake(HandshakeError::UnexpectedMessage)))
    );
}

#[test]
fn client_error_texts() {
    assert_eq!(ClientError::ServerError("x".to_string()).message(), "server error: x");
    assert_eq!(
        ClientError::AuthenticationRequired.message(),
        "server requires authentication, but no client secret was provided"
    );
    assert_eq!(ClientError::UnexpectedMessage.message(), "unexpected initial non-hello message");
    assert_eq!(ClientError::UnexpectedEof.message(), "unexpected EOF");
    assert_eq!(
        ClientError::Handshake(HandshakeError::UnexpectedMessage).message(),
        "unexpected message"
    );
}

#[test]
fn announced_port_is_ignored_when_a_port_was_asked_for() {
    let mut client = Client::new("127.0.0.1", 3000, 9000, None);
    let (_, action) = client.control_step(
        ControlPhase::AwaitingHello,
        ControlEvent::Received(Some(ServerMessage::Hello(1234))),
    );
    assert_eq!(action, ControlAction::Established(9000));
    client.established(1234);
    assert_eq!(client.remote_port(), 9000);
}

#[test]
fn announced_port_is_recorded_when_any_port_was_asked_for() {
    let mut client = Client::new("127.0.0.1", 3000, 0, None);
    assert_eq!(client.remote_port(), 0);
    let (_, action) = client.control_step(
        ControlPhase::AwaitingHello,
        ControlEvent::Received(Some(ServerMessage::Hello(45678))),
    );
    assert_eq!(action, ControlAction::Established(45678));
    client.established(45678);
    assert_eq!(client.remote_port(), 45678);
    assert_eq!(client.local_addr(), "127.0.0.1:3000");
}
