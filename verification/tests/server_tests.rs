use port_proxy::auth::{Authenticator, HandshakeError};
use port_proxy::message::{ClientMessage, ServerMessage};
use port_proxy::server::{BindFailure, Refusal, Server, ServerAction, ServerEvent, ServerPhase};

fn answer(secret: &str, challenge: u128) -> Option<ClientMessage> {
    Some(ClientMessage::ChallengeResponse(Authenticator::new(secret).encrypt(challenge)))
}

#[test]
fn without_secret_the_server_waits_for_a_command() {
    let server = Server::new(None);
    assert_eq!(
        server.step(ServerPhase::Start, ServerEvent::Opened, 1),
        (ServerPhase::AwaitCommand, ServerAction::Receive)
    );
}

#[test]
fn with_secret_the_server_asks_one_challenge() {
    let server = Server::new(Some("pw"));
    assert_eq!(
        server.step(ServerPhase::Start, ServerEvent::Opened, 10),
        (
            ServerPhase::Authenticating { challenge: 10 },
            ServerAction::Exchange(ServerMessage::Challenge(10))
        )
    );
    assert_eq!(
        server.step(ServerPhase::Authenticating { challenge: 10 }, ServerEvent::Received(answer("pw", 10)), 11),
        (ServerPhase::AwaitCommand, ServerAction::Receive)
    );
}

#[test]
fn an_upper_case_answer_is_accepted() {
    let server = Server::new(Some("pw"));
    let tag = Authenticator::new("pw").encrypt(10).to_uppercase();
    assert_eq!(
        server.step(
            ServerPhase::Authenticating { challenge: 10 },
            ServerEvent::Received(Some(ClientMessage::ChallengeResponse(tag))),
            11
        ),
        (ServerPhase::AwaitCommand, ServerAction::Receive)
    );
}

#[test]
fn a_wrong_answer_aborts() {
    let server = Server::new(Some("pw"));
    assert_eq!(
        server.step(ServerPhase::Authenticating { challenge: 10 }, ServerEvent::Received(answer("no", 10)), 11),
        (
            ServerPhase::Closed,
            ServerAction::Abort(Refusal::Handshake(HandshakeError::InvalidResponse))
        )
    );
    assert_eq!(
        server.step(
            ServerPhase::Authenticating { challenge: 10 },
            ServerEvent::Received(Some(ClientMessage::Hello(8000))),
            11
        ),
        (
            ServerPhase::Closed,
            ServerAction::Abort(Refusal::Handshake(HandshakeError::UnexpectedMessage))
        )
    );
    assert_eq!(
        Refusal::Handshake(HandshakeError::UnexpectedMessage).message(),
        "unexpected message"
    );
    assert_eq!(
        server.step(ServerPhase::Authenticating { challenge: 10 }, ServerEvent::Failed("网络超时".to_string()), 11),
        (ServerPhase::Closed, ServerAction::Abort(Refusal::Failure("网络超时".to_string())))
    );
}

#[test]
fn commands_are_dispatched() {
    let server = Server::new(None);
    let step = |m: Option<ClientMessage>| server.step(ServerPhase::AwaitCommand, ServerEvent::Received(m), 0);
    assert_eq!(
        step(Some(ClientMessage::Hello(8000))),
        (ServerPhase::Binding { port: 8000 }, ServerAction::OpenListener(8000))
    );
    assert_eq!(
        step(Some(ClientMessage::Accept(42))),
        (ServerPhase::Forwarding { id: 42 }, ServerAction::Forward(42))
    );
    assert_eq!(step(Some(ClientMessage::HeartBeat)), (ServerPhase::Closed, ServerAction::Close));
    assert_eq!(
        step(Some(ClientMessage::ChallengeResponse("x".to_string()))),
        (ServerPhase::Closed, ServerAction::Close)
    );
    assert_eq!(step(None), (ServerPhase::Closed, ServerAction::Reply(Refusal::UnexpectedMessage)));
}

#[test]
fn listening_publishes_each_visitor() {
    let server = Server::new(None);
    assert_eq!(
        server.step(ServerPhase::Binding { port: 8000 }, ServerEvent::ListenerOpened, 0),
        (ServerPhase::Listening { port: 8000 }, ServerAction::Grant(8000))
    );
    assert_eq!(
        server.step(ServerPhase::Binding { port: 0 }, ServerEvent::ListenerOpened, 0),
        (ServerPhase::Listening { port: 0 }, ServerAction::Grant(0))
    );
    assert_eq!(
        server.step(ServerPhase::Listening { port: 8000 }, ServerEvent::Incoming, 99),
        (ServerPhase::Listening { port: 8000 }, ServerAction::Publish(99))
    );
    assert_eq!(
        server.step(ServerPhase::Listening { port: 8000 }, ServerEvent::AcceptTimedOut, 99),
        (ServerPhase::Listening { port: 8000 }, ServerAction::Accept)
    );
    assert_eq!(
        server.step(ServerPhase::Listening { port: 8000 }, ServerEvent::AcceptFailed("e".to_string()), 0),
        (ServerPhase::Closed, ServerAction::Reply(Refusal::Failure("e".to_string())))
    );
}

#[test]
fn refused_bind_is_reported() {
    let server = Server::new(None);
    assert_eq!(
        server.step(ServerPhase::Binding { port: 80 }, ServerEvent::ListenerRefused(BindFailure::PermissionDenied), 0),
        (ServerPhase::Closed, ServerAction::Reply(Refusal::Bind(BindFailure::PermissionDenied)))
    );
    assert_eq!(BindFailure::AddrInUse.message(), "端口已被占用");
    assert_eq!(BindFailure::PermissionDenied.message(), "权限不足");
    assert_eq!(BindFailure::Other.message(), "绑定端口失败");
}

#[test]
fn forwarding_outcomes() {
    let server = Server::new(None);
    assert_eq!(
        server.step(ServerPhase::Forwarding { id: 5 }, ServerEvent::VisitorMissing, 0),
        (ServerPhase::Closed, ServerAction::Reply(Refusal::UnknownConnection))
    );
    assert_eq!(Refusal::UnknownConnection.message(), "invalid connection id");
    assert_eq!(
        server.step(ServerPhase::Forwarding { id: 5 }, ServerEvent::Spliced, 0),
        (ServerPhase::Closed, ServerAction::Close)
    );
}

#[test]
fn advance_draws_version_4_ids() {
    let server = Server::new(Some("pw"));
    match server.advance(ServerPhase::Start, ServerEvent::Opened) {
        (ServerPhase::Authenticating { challenge }, ServerAction::Exchange(ServerMessage::Challenge(sent))) => {
            assert_eq!(challenge, sent);
            assert_eq!((challenge >> 76) & 0xf, 4);
            assert_eq!((challenge >> 62) & 0x3, 2);
        }
        other => panic!("unexpected step {other:?}"),
    }
    let (_, a1) = server.advance(ServerPhase::Listening { port: 1 }, ServerEvent::Incoming);
    let (_, a2) = server.advance(ServerPhase::Listening { port: 1 }, ServerEvent::Incoming);
    assert_ne!(a1, a2);
}
