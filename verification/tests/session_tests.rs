use bore::client::ClientAction;
use bore::client::ClientConfig;
use bore::client::ClientPhase;
use bore::client::ClientSession;
use bore::codec::deserialize;
use bore::codec::serialize;
use bore::codec::Decoded;
use bore::msg::ControlMessage;
use bore::msg::TunnelError;
use bore::ports::PortAllocator;
use bore::relay::forward_chunk;
use bore::relay::relay_step;
use bore::relay::RelayEvent;
use bore::relay::RelayStep;
use bore::server::ServerAction;
use bore::server::ServerConfig;
use bore::server::ServerPhase;
use bore::server::ServerSession;

fn server_config(min_port: u16, max_port: u16, secret: Option<&[u8]>) -> ServerConfig {
    ServerConfig {
        min_port,
        max_port,
        secret: secret.map(|s| s.to_vec()),
        liveness_window_ms: 2000,
        pairing_timeout_ms: 10000,
    }
}

fn client_config(requested_port: u16, secret: Option<&[u8]>) -> ClientConfig {
    ClientConfig {
        secret: secret.map(|s| s.to_vec()),
        requested_port,
        heartbeat_interval_ms: 500,
    }
}

/// Pass a message over the wire: frame it, then decode the frame.
fn over_wire(m: &ControlMessage) -> ControlMessage {
    let bytes = serialize(m);
    match deserialize(bytes.as_slice()) {
        Decoded::Msg { msg, consumed } => {
            assert_eq!(consumed, bytes.len());
            msg
        }
        _ => panic!("frame did not decode"),
    }
}

/// The one frame a list of server actions sends on the control channel.
fn sent_control(actions: &[ServerAction]) -> ControlMessage {
    let mut found = None;
    for a in actions {
        if let ServerAction::SendControl { msg } = a {
            assert!(found.is_none(), "more than one control frame");
            found = Some(msg.clone());
        }
    }
    found.expect("no control frame sent")
}

#[test]
fn open_handshake_any_port_relays_ping() {
    // Server range 7000-7001, no secret on either side; client asks for any
    // port and gets the first free one.
    let mut alloc = PortAllocator::new(7000, 7001);
    let mut server = ServerSession::new(server_config(7000, 7001, None), 0);
    let (mut client, hello) = ClientSession::start(client_config(0, None), 0);

    let actions = server.handle_message(&mut alloc, &over_wire(&hello), 1);
    assert_eq!(
        actions,
        vec![
            ServerAction::OpenListener { port: 7000 },
            ServerAction::SendControl { msg: ControlMessage::HelloAck { leased_port: 7000 } },
        ]
    );
    assert_eq!(server.phase, ServerPhase::Active { port: 7000 });

    let client_actions = client.handle_message(&over_wire(&sent_control(&actions)), 2);
    assert_eq!(client_actions, vec![ClientAction::ReportPort { port: 7000 }]);
    assert_eq!(client.phase, ClientPhase::Active { port: 7000 });

    // A public connector reaches port 7000: the server announces the
    // connection, the client pairs it, the relay starts.
    let announce = server.admit_public(42, 1, 10);
    assert_eq!(
        announce,
        vec![ServerAction::SendControl { msg: ControlMessage::NewConnection { id: 42 } }]
    );
    let pairing = client.handle_message(&over_wire(&sent_control(&announce)), 11);
    assert_eq!(
        pairing,
        vec![ClientAction::OpenPairing {
            id: 42,
            accept: ControlMessage::AcceptConnection { id: 42 },
        }]
    );
    let accept = match &pairing[0] {
        ClientAction::OpenPairing { accept, .. } => over_wire(accept),
        _ => unreachable!(),
    };
    let id = match accept {
        ControlMessage::AcceptConnection { id } => id,
        _ => panic!("the data connection must declare the id"),
    };
    let relay = server.handle_accept(id, 2);
    assert_eq!(relay, vec![ServerAction::StartRelay { public_handle: 1, data_handle: 2 }]);

    // "ping" goes public -> data -> local unchanged, and the echo comes
    // back unchanged; end of stream closes both sides.
    let inbound = b"ping";
    assert_eq!(relay_step(&RelayEvent::Data { count: 4 }), RelayStep::Forward);
    let to_local = forward_chunk(inbound, 4);
    assert_eq!(to_local, b"ping".to_vec());
    let echoed = forward_chunk(to_local.as_slice(), 4);
    assert_eq!(echoed, b"ping".to_vec());
    assert_eq!(relay_step(&RelayEvent::Eof), RelayStep::CloseBoth);
}

#[test]
fn wrong_secret_fails_handshake_and_leases_nothing() {
    // Server holds "s3cret", the client "wrong": the handshake must end in
    // AuthenticationFailed and the port range must be untouched.
    let mut alloc = PortAllocator::new(8000, 8010);
    let mut server = ServerSession::new(server_config(8000, 8010, Some(b"s3cret")), 0);
    let (mut client, hello) = ClientSession::start(client_config(0, Some(b"wrong")), 0);

    let actions = server.handle_message(&mut alloc, &over_wire(&hello), 1);
    let challenge_msg = sent_control(&actions);
    assert!(matches!(challenge_msg, ControlMessage::Challenge { .. }));

    let answer = client.handle_message(&over_wire(&challenge_msg), 2);
    let auth_msg = match &answer[0] {
        ClientAction::SendControl { msg } => msg.clone(),
        _ => panic!("the challenge must be answered"),
    };
    let actions = server.handle_message(&mut alloc, &over_wire(&auth_msg), 3);
    assert_eq!(
        actions,
        vec![
            ServerAction::SendControl {
                msg: ControlMessage::Error { reason: TunnelError::AuthenticationFailed },
            },
            ServerAction::CloseControl,
        ]
    );
    assert_eq!(server.phase, ServerPhase::Closed);
    assert!(alloc.leased.is_empty(), "no port may be leased");

    let report = client.handle_message(&over_wire(&sent_control(&actions)), 4);
    assert_eq!(
        report,
        vec![
            ClientAction::CloseControl,
            ClientAction::Fail { reason: TunnelError::AuthenticationFailed },
        ]
    );
}

#[test]
fn matching_secret_completes_handshake() {
    let mut alloc = PortAllocator::new(8000, 8010);
    let mut server = ServerSession::new(server_config(8000, 8010, Some(b"s3cret")), 0);
    let (mut client, hello) = ClientSession::start(client_config(8003, Some(b"s3cret")), 0);

    let actions = server.handle_message(&mut alloc, &over_wire(&hello), 1);
    let answer = client.handle_message(&over_wire(&sent_control(&actions)), 2);
    let auth_msg = match &answer[0] {
        ClientAction::SendControl { msg } => msg.clone(),
        _ => panic!("the challenge must be answered"),
    };
    let actions = server.handle_message(&mut alloc, &over_wire(&auth_msg), 3);
    assert_eq!(
        actions,
        vec![
            ServerAction::OpenListener { port: 8003 },
            ServerAction::SendControl { msg: ControlMessage::HelloAck { leased_port: 8003 } },
        ]
    );
    let report = client.handle_message(&over_wire(&sent_control(&actions)), 4);
    assert_eq!(report, vec![ClientAction::ReportPort { port: 8003 }]);
}

#[test]
fn single_port_serves_exactly_one_of_two_clients() {
    // Range [8000,8000]: of two concurrent any-port requests one gets 8000
    // and the other is turned away with NoPortsAvailable.
    let mut alloc = PortAllocator::new(8000, 8000);
    let mut server_a = ServerSession::new(server_config(8000, 8000, None), 0);
    let mut server_b = ServerSession::new(server_config(8000, 8000, None), 0);
    let (_client_a, hello_a) = ClientSession::start(client_config(0, None), 0);
    let (_client_b, hello_b) = ClientSession::start(client_config(0, None), 0);

    let actions_a = server_a.handle_message(&mut alloc, &over_wire(&hello_a), 1);
    assert_eq!(
        sent_control(&actions_a),
        ControlMessage::HelloAck { leased_port: 8000 }
    );
    let actions_b = server_b.handle_message(&mut alloc, &over_wire(&hello_b), 1);
    assert_eq!(
        actions_b,
        vec![
            ServerAction::SendControl {
                msg: ControlMessage::Error { reason: TunnelError::NoPortsAvailable },
            },
            ServerAction::CloseControl,
        ]
    );
    assert_eq!(server_b.phase, ServerPhase::Closed);
    assert_eq!(server_a.phase, ServerPhase::Active { port: 8000 });
}

#[test]
fn heartbeat_timeout_closes_and_frees_the_port() {
    // Liveness window is 2000ms. The session goes active at t=1 and then
    // hears nothing: the tick past the deadline tears it down and the port
    // can be leased again at once.
    let mut alloc = PortAllocator::new(7000, 7000);
    let mut server = ServerSession::new(server_config(7000, 7000, None), 0);
    let (_client, hello) = ClientSession::start(client_config(0, None), 0);
    server.handle_message(&mut alloc, &over_wire(&hello), 1);
    assert_eq!(server.phase, ServerPhase::Active { port: 7000 });

    // Inside the window nothing happens.
    assert!(server.tick(&mut alloc, 2000).is_empty());
    assert_eq!(server.phase, ServerPhase::Active { port: 7000 });

    // Past the deadline the session dies and releases everything.
    let actions = server.tick(&mut alloc, 2001);
    assert_eq!(actions, vec![ServerAction::CloseControl, ServerAction::CloseListener]);
    assert_eq!(server.phase, ServerPhase::Closed);
    assert_eq!(alloc.lease(7000), Ok(7000));
}

#[test]
fn heartbeats_keep_the_session_alive() {
    let mut alloc = PortAllocator::new(7000, 7000);
    let mut server = ServerSession::new(server_config(7000, 7000, None), 0);
    let (_client, hello) = ClientSession::start(client_config(0, None), 0);
    server.handle_message(&mut alloc, &over_wire(&hello), 1);

    // A heartbeat at t=1500 pushes the deadline to 3500.
    let actions = server.handle_message(&mut alloc, &ControlMessage::Heartbeat, 1500);
    assert!(actions.is_empty());
    assert!(server.tick(&mut alloc, 3499).is_empty());
    assert_eq!(server.phase, ServerPhase::Active { port: 7000 });
    server.tick(&mut alloc, 3500);
    assert_eq!(server.phase, ServerPhase::Closed);
}

#[test]
fn stale_pairing_is_abandoned_and_its_socket_closed() {
    // Pairing timeout is 10000ms. A public connection admitted at t=100
    // with no AcceptConnection by t=10100 is dropped; a fresh one stays.
    let mut alloc = PortAllocator::new(7000, 7000);
    let mut server = ServerSession::new(server_config(7000, 7000, None), 0);
    let (_client, hello) = ClientSession::start(client_config(0, None), 0);
    server.handle_message(&mut alloc, &over_wire(&hello), 1);

    server.admit_public(1, 11, 100);
    // Keep the control channel alive past the liveness window.
    server.handle_message(&mut alloc, &ControlMessage::Heartbeat, 9000);
    server.admit_public(2, 22, 9500);

    let actions = server.tick(&mut alloc, 10100);
    assert_eq!(actions, vec![ServerAction::CloseHandle { handle: 11 }]);
    // The abandoned pairing cannot be claimed any more; the fresh one can.
    assert_eq!(
        server.handle_accept(1, 91),
        vec![ServerAction::CloseHandle { handle: 91 }]
    );
    assert_eq!(
        server.handle_accept(2, 92),
        vec![ServerAction::StartRelay { public_handle: 22, data_handle: 92 }]
    );
}

#[test]
fn client_sends_heartbeats_on_its_interval() {
    let (mut client, _hello) = ClientSession::start(client_config(0, None), 0);
    // Not yet active: no heartbeat owed.
    assert!(client.tick(400).is_empty());
    client.handle_message(&ControlMessage::HelloAck { leased_port: 7000 }, 0);
    assert!(client.tick(400).is_empty());
    let actions = client.tick(500);
    assert_eq!(actions, vec![ClientAction::SendControl { msg: ControlMessage::Heartbeat }]);
    // The interval restarts from the send.
    assert!(client.tick(999).is_empty());
    assert!(!client.tick(1000).is_empty());
}

#[test]
fn client_rejects_auth_mismatch() {
    // A server that never challenges while the client holds a secret.
    let (mut client, _hello) = ClientSession::start(client_config(0, Some(b"s3cret")), 0);
    let actions = client.handle_message(&ControlMessage::HelloAck { leased_port: 7000 }, 1);
    assert_eq!(
        actions,
        vec![
            ClientAction::SendControl {
                msg: ControlMessage::Error { reason: TunnelError::AuthenticationMismatch },
            },
            ClientAction::CloseControl,
            ClientAction::Fail { reason: TunnelError::AuthenticationMismatch },
        ]
    );
    assert_eq!(client.phase, ClientPhase::Closed);

    // And a server that challenges while the client holds none.
    let (mut client, _hello) = ClientSession::start(client_config(0, None), 0);
    let actions = client.handle_message(&ControlMessage::Challenge { nonce: 5 }, 1);
    assert!(matches!(
        actions.last(),
        Some(ClientAction::Fail { reason: TunnelError::AuthenticationMismatch })
    ));
}

#[test]
fn violations_close_the_session() {
    // A server getting Heartbeat before Hello.
    let mut alloc = PortAllocator::new(7000, 7001);
    let mut server = ServerSession::new(server_config(7000, 7001, None), 0);
    let actions = server.handle_message(&mut alloc, &ControlMessage::Heartbeat, 1);
    assert_eq!(
        sent_control(&actions),
        ControlMessage::Error { reason: TunnelError::ProtocolViolation }
    );
    assert_eq!(server.phase, ServerPhase::Closed);

    // A client getting a second HelloAck while active.
    let (mut client, _hello) = ClientSession::start(client_config(0, None), 0);
    client.handle_message(&ControlMessage::HelloAck { leased_port: 7000 }, 1);
    let actions = client.handle_message(&ControlMessage::HelloAck { leased_port: 7001 }, 2);
    assert!(matches!(
        actions.last(),
        Some(ClientAction::Fail { reason: TunnelError::ProtocolViolation })
    ));
}

#[test]
fn lost_control_channel_ends_the_client_session() {
    let (mut client, _hello) = ClientSession::start(client_config(0, None), 0);
    client.handle_message(&ControlMessage::HelloAck { leased_port: 7000 }, 1);
    let actions = client.handle_closed();
    assert_eq!(actions, vec![ClientAction::Fail { reason: TunnelError::PeerUnreachable }]);
    assert!(client.handle_closed().is_empty());
}

#[test]
fn malformed_frame_closes_the_session() {
    let mut alloc = PortAllocator::new(7000, 7000);
    let mut server = ServerSession::new(server_config(7000, 7000, None), 0);
    let (_client, hello) = ClientSession::start(client_config(0, None), 0);
    server.handle_message(&mut alloc, &over_wire(&hello), 1);

    let actions = server.handle_malformed(&mut alloc, TunnelError::UnknownMessageType);
    assert_eq!(
        actions,
        vec![
            ServerAction::SendControl {
                msg: ControlMessage::Error { reason: TunnelError::UnknownMessageType },
            },
            ServerAction::CloseControl,
            ServerAction::CloseListener,
        ]
    );
    assert_eq!(server.phase, ServerPhase::Closed);
    // The port came back with the session's death.
    assert_eq!(alloc.lease(7000), Ok(7000));

    let (mut client, _hello) = ClientSession::start(client_config(0, None), 0);
    let actions = client.handle_malformed(TunnelError::MalformedMessage);
    assert_eq!(
        actions,
        vec![
            ClientAction::SendControl {
                msg: ControlMessage::Error { reason: TunnelError::MalformedMessage },
            },
            ClientAction::CloseControl,
            ClientAction::Fail { reason: TunnelError::MalformedMessage },
        ]
    );
    assert_eq!(client.phase, ClientPhase::Closed);
}
