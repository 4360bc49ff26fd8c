use port_proxy::client::{Client, ControlAction, ControlEvent, ControlPhase, TunnelAction, TunnelPhase};
use port_proxy::message::ServerMessage;
use port_proxy::server::{Server, ServerAction, ServerEvent, ServerPhase};

#[test]
fn port_request_is_granted_without_secret() {
    let client = Client::new("127.0.0.1", 3000, 9000, None);
    let server = Server::new(None);
    let (_, opening) = client.control_step(ControlPhase::Start, ControlEvent::Connected);
    let msgs = match opening {
        ControlAction::Send(msgs) => msgs,
        other => panic!("unexpected {other:?}"),
    };
    let (phase, _) = server.step(ServerPhase::Start, ServerEvent::Opened, 0);
    let (phase, action) = server.step(phase, ServerEvent::Received(Some(msgs[0].clone())), 0);
    assert_eq!(action, ServerAction::OpenListener(9000));
    let (_, action) = server.step(phase, ServerEvent::ListenerOpened, 0);
    assert_eq!(action, ServerAction::Grant(9000));
    let granted = client.control_step(
        ControlPhase::AwaitingHello,
        ControlEvent::Received(Some(ServerMessage::Hello(9000))),
    );
    assert_eq!(granted, (ControlPhase::Listening, ControlAction::Established(9000)));
}

#[test]
fn visitor_reaches_the_tunnel_without_secret() {
    let client = Client::new("127.0.0.1", 3000, 9000, None);
    let server = Server::new(None);
    let (_, publish) = server.step(ServerPhase::Listening { port: 9000 }, ServerEvent::Incoming, 0xabc);
    assert_eq!(publish, ServerAction::Publish(0xabc));
    let (_, notice) = client.control_step(
        ControlPhase::Listening,
        ControlEvent::Received(Some(ServerMessage::Connection(0xabc))),
    );
    assert_eq!(notice, ControlAction::OpenTunnel(0xabc));
    let (_, tunnel) = client.tunnel_step(0xabc, TunnelPhase::Start, ControlEvent::Connected);
    let (msgs, addr) = match tunnel {
        TunnelAction::Splice(msgs, addr) => (msgs, addr),
        other => panic!("unexpected {other:?}"),
    };
    assert_eq!(addr, "127.0.0.1:3000");
    let (_, action) = server.step(ServerPhase::AwaitCommand, ServerEvent::Received(Some(msgs[0].clone())), 0);
    assert_eq!(action, ServerAction::Forward(0xabc));
}

#[test]
fn shared_secret_client_is_established() {
    let mut client = Client::new("127.0.0.1", 3000, 9000, Some("pw"));
    let server = Server::new(Some("pw"));
    assert_eq!(
        client.control_step(ControlPhase::Start, ControlEvent::Connected),
        (ControlPhase::Authenticating, ControlAction::Receive(true))
    );
    let (phase, first) = server.step(ServerPhase::Start, ServerEvent::Opened, 1);
    let challenge = match first {
        ServerAction::Exchange(ServerMessage::Challenge(c)) => c,
        other => panic!("unexpected {other:?}"),
    };
    let (_, answered) = client.control_step(
        ControlPhase::Authenticating,
        ControlEvent::Received(Some(ServerMessage::Challenge(challenge))),
    );
    let msgs = match answered {
        ControlAction::Send(msgs) => msgs,
        other => panic!("unexpected {other:?}"),
    };
    assert_eq!(msgs.len(), 2);
    let (phase, action) = server.step(phase, ServerEvent::Received(Some(msgs[0].clone())), 2);
    assert_eq!((phase, action), (ServerPhase::AwaitCommand, ServerAction::Receive));
    let (phase, action) = server.step(phase, ServerEvent::Received(Some(msgs[1].clone())), 3);
    assert_eq!(action, ServerAction::OpenListener(9000));
    let (_, action) = server.step(phase, ServerEvent::ListenerOpened, 4);
    assert_eq!(action, ServerAction::Grant(9000));
    let (_, granted) = client.control_step(
        ControlPhase::AwaitingHello,
        ControlEvent::Received(Some(ServerMessage::Hello(9000))),
    );
    assert_eq!(granted, ControlAction::Established(9000));
    client.established(9000);
    assert_eq!(client.remote_port(), 9000);
}
