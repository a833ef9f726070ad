use xyncer::client::{ClientAction, ClientConnection, ClientPhase, HeartbeatTask, Session};
use xyncer::codec::encode;
use xyncer::frame::InboundFrame;
use xyncer::payload::{bare, hello, identify, invalid_session, ready};
use xyncer::server::{
    Liveness, ServerAction, ServerConnection, ServerSession, HEARTBEAT_INTERVAL,
    MAX_PASSWORD_ATTEMPTS, PASSWORD_LENGTH,
};
use xyncer::{DispatchData, ErrorCode, Event, Payload, PayloadData, OP};

fn binary(p: &Payload) -> InboundFrame {
    InboundFrame::Binary(encode(p))
}

fn open_server(liveness: Liveness, now: u64) -> ServerConnection {
    let session = ServerSession::with_password("127.0.0.1:50000".to_string(), "s3cr3".to_string());
    ServerConnection::open(session, liveness, now).0
}

#[test]
fn open_sends_hello_with_cadence() {
    let session = ServerSession::with_password("peer".to_string(), "pw".to_string());
    let (conn, greeting) = ServerConnection::open(session, Liveness::standard(), 7);
    assert_eq!(greeting, hello(HEARTBEAT_INTERVAL));
    assert_eq!(conn.last_heartbeat, 7);
    assert!(!conn.requested_heartbeat_from_client);
    assert!(!conn.closed);
    assert_eq!(conn.remaining_ms(7), 65_000);
}

#[test]
fn silent_peer_is_probed_then_timed_out() {
    let liveness = Liveness { heartbeat_interval: 1, jitter_allowance: 0 };
    let mut conn = open_server(liveness, 0);
    assert_eq!(conn.remaining_ms(0), 1000);
    assert_eq!(conn.on_timer(999), ServerAction::Idle);
    assert_eq!(conn.on_timer(1000), ServerAction::Send(bare(OP::Heartbeat)));
    assert!(conn.requested_heartbeat_from_client);
    assert_eq!(conn.remaining_ms(1000), 1000);
    assert_eq!(conn.on_timer(1999), ServerAction::Idle);
    assert!(!conn.closed);
    assert_eq!(
        conn.on_timer(2000),
        ServerAction::SendAndClose(invalid_session(ErrorCode::SessionTimeout))
    );
    assert!(conn.closed);
    assert_eq!(conn.on_timer(5000), ServerAction::Idle);
}

#[test]
fn remaining_never_below_zero() {
    let mut conn = open_server(Liveness { heartbeat_interval: 1, jitter_allowance: 2 }, 100);
    assert_eq!(conn.remaining_ms(100), 3000);
    assert_eq!(conn.remaining_ms(1100), 2000);
    assert_eq!(conn.remaining_ms(50_000), 0);
    assert_eq!(conn.remaining_ms(50), 3000);
    assert_eq!(conn.on_timer(50_000), ServerAction::Send(bare(OP::Heartbeat)));
}

#[test]
fn answered_probes_never_close() {
    let liveness = Liveness { heartbeat_interval: 1, jitter_allowance: 0 };
    let mut conn = open_server(liveness, 0);
    let mut now = 0;
    for _ in 0..50 {
        now += conn.remaining_ms(now);
        assert_eq!(conn.on_timer(now), ServerAction::Send(bare(OP::Heartbeat)));
        assert!(conn.requested_heartbeat_from_client);
        now += 700;
        assert_eq!(
            conn.on_frame(now, binary(&bare(OP::Heartbeat))),
            ServerAction::Send(bare(OP::HeartbeatAck))
        );
        assert!(!conn.requested_heartbeat_from_client);
        assert_eq!(conn.last_heartbeat, now);
        assert!(!conn.closed);
    }
}

#[test]
fn heartbeat_every_minute_stays_active() {
    // Server side.
    let session = ServerSession::with_password("peer".to_string(), "pw".to_string());
    let (mut server, greeting) = ServerConnection::open(session, Liveness::standard(), 0);
    assert_eq!(greeting, hello(60));

    // Client side receives the Hello.
    let mut client_session = Session::new();
    client_session.begin_connect();
    client_session.on_connected();
    let mut client = ClientConnection::new();
    let action = client.on_frame(&mut client_session, binary(&greeting));
    assert_eq!(action, ClientAction::StartHeartbeat(60));
    assert_eq!(client.phase, ClientPhase::Active);
    let mut task = HeartbeatTask::new(60);
    assert_eq!(task.period_ms(), 60_000);

    let mut now = 0;
    for _ in 0..100 {
        // Before the heartbeat is due the server's timer has not fired.
        assert!(server.remaining_ms(now) > task.period_ms() - (now - server.last_heartbeat));
        now += task.period_ms();
        assert_eq!(server.on_timer(now), ServerAction::Idle);
        let beat = task.tick(client_session.connected).expect("connected");
        assert_eq!(beat, bare(OP::Heartbeat));
        assert_eq!(
            server.on_frame(now, binary(&beat)),
            ServerAction::Send(bare(OP::HeartbeatAck))
        );
        assert_eq!(server.last_heartbeat, now);
        assert_eq!(
            client.on_frame(&mut client_session, binary(&bare(OP::HeartbeatAck))),
            ClientAction::Idle
        );
        assert!(!server.closed);
        assert!(!server.requested_heartbeat_from_client);
    }
}

#[test]
fn invalid_byte_frame_is_decode_error_on_both_sides() {
    let mut server = open_server(Liveness::standard(), 0);
    assert_eq!(
        server.on_frame(5, InboundFrame::Binary(vec![0xc1])),
        ServerAction::SendAndClose(invalid_session(ErrorCode::DecodeError))
    );
    assert!(server.closed);

    let mut session = Session::new();
    session.on_connected();
    let mut client = ClientConnection::new();
    assert_eq!(
        client.on_frame(&mut session, InboundFrame::Binary(vec![0xc1])),
        ClientAction::Rejected(ErrorCode::DecodeError)
    );
    assert!(session.connected);
    assert_eq!(client.phase, ClientPhase::AwaitingHello);
}

#[test]
fn wrong_passphrase_until_threshold() {
    assert_eq!(MAX_PASSWORD_ATTEMPTS, 3);
    let mut server = open_server(Liveness::standard(), 0);
    assert_eq!(server.session.password_attempts, 0);
    let wrong = binary(&identify("wrong".to_string()));
    assert_eq!(server.on_frame(10, wrong.clone()), ServerAction::Send(bare(OP::ReIdentify)));
    assert_eq!(server.session.password_attempts, 1);
    assert_eq!(server.on_frame(20, wrong.clone()), ServerAction::Send(bare(OP::ReIdentify)));
    assert_eq!(server.session.password_attempts, 2);
    assert!(!server.closed);
    assert_eq!(
        server.on_frame(30, wrong.clone()),
        ServerAction::SendAndClose(invalid_session(ErrorCode::AuthenticationFailed))
    );
    assert_eq!(server.session.password_attempts, 3);
    assert!(server.closed);
    assert!(!server.session.authenticated);
    assert_eq!(server.on_frame(40, wrong), ServerAction::Idle);
}

#[test]
fn right_passphrase_authenticates() {
    let mut server = open_server(Liveness::standard(), 0);
    assert_eq!(
        server.on_frame(1, binary(&identify("wrong".to_string()))),
        ServerAction::Send(bare(OP::ReIdentify))
    );
    assert_eq!(server.on_frame(2, binary(&identify("s3cr3".to_string()))), ServerAction::Send(ready()));
    assert!(server.session.authenticated);
    assert_eq!(server.session.password_attempts, 1);
    assert!(!server.closed);
}

#[test]
fn unexpected_op_is_unknown_op() {
    let mut server = open_server(Liveness::standard(), 0);
    assert_eq!(
        server.on_frame(1, binary(&hello(5))),
        ServerAction::SendAndClose(invalid_session(ErrorCode::UnknownOP))
    );
    assert!(server.closed);
}

#[test]
fn text_close_and_control_frames_on_server() {
    let mut server = open_server(Liveness::standard(), 0);
    assert_eq!(server.on_frame(1, InboundFrame::Control), ServerAction::Idle);
    assert!(!server.closed);
    assert_eq!(server.on_frame(2, InboundFrame::Close), ServerAction::Close);
    assert!(server.closed);

    let mut server = open_server(Liveness::standard(), 0);
    assert_eq!(
        server.on_frame(1, InboundFrame::Text(b"hi".to_vec())),
        ServerAction::SendAndClose(invalid_session(ErrorCode::DecodeError))
    );
}

#[test]
fn new_session_has_random_alphanumeric_password() {
    let a = ServerSession::new("peer".to_string());
    assert_eq!(a.password.chars().count(), PASSWORD_LENGTH);
    assert!(a.password.chars().all(|c| c.is_ascii_alphanumeric()));
    assert_eq!(a.address, "peer");
    assert_eq!(a.password_attempts, 0);
    assert!(!a.authenticated);
    let others: Vec<String> = (0..8).map(|_| ServerSession::new("p".to_string()).password).collect();
    assert!(others.iter().any(|p| *p != a.password));
}

#[test]
fn client_handles_each_op() {
    let mut session = Session::new();
    session.password = "hunter2".to_string();
    session.on_connected();
    let mut client = ClientConnection::new();

    assert_eq!(client.on_frame(&mut session, binary(&hello(2))), ClientAction::StartHeartbeat(2));
    assert_eq!(client.heartbeat_interval, 2);
    assert_eq!(
        client.on_frame(&mut session, binary(&hello(3))),
        ClientAction::Rejected(ErrorCode::UnknownOP)
    );
    assert_eq!(client.heartbeat_interval, 2);
    assert_eq!(
        client.on_frame(&mut session, binary(&bare(OP::Heartbeat))),
        ClientAction::Send(bare(OP::Heartbeat))
    );
    assert_eq!(
        client.on_frame(&mut session, binary(&bare(OP::ReIdentify))),
        ClientAction::Send(identify("hunter2".to_string()))
    );
    assert_eq!(
        client.on_frame(&mut session, binary(&identify("x".to_string()))),
        ClientAction::Rejected(ErrorCode::UnknownOP)
    );
    assert_eq!(
        client.on_frame(&mut session, InboundFrame::Text(b"{}".to_vec())),
        ClientAction::Rejected(ErrorCode::DecodeError)
    );
    assert!(!session.authenticated);
    assert_eq!(client.on_frame(&mut session, binary(&ready())), ClientAction::Idle);
    assert!(session.authenticated);
    let other = Payload::new(Event::Empty, PayloadData::Dispatch(DispatchData { data: "w".to_string() }));
    assert_eq!(client.on_frame(&mut session, binary(&other)), ClientAction::Idle);
    assert_eq!(
        client.on_frame(&mut session, binary(&invalid_session(ErrorCode::SessionTimeout))),
        ClientAction::Idle
    );
    assert_eq!(session.error.as_deref(), Some("Session timeout"));
    assert_eq!(client.on_frame(&mut session, InboundFrame::Close), ClientAction::Closed);
    assert!(!session.connected);
    assert_eq!(client.phase, ClientPhase::Closed);
    assert_eq!(client.on_frame(&mut session, binary(&bare(OP::Heartbeat))), ClientAction::Idle);
}

#[test]
fn heartbeat_task_cadence() {
    let mut task = HeartbeatTask::new(2);
    assert_eq!(task.period_ms(), 2000);
    for _ in 0..5 {
        assert_eq!(task.tick(true), Some(bare(OP::Heartbeat)));
    }
    assert_eq!(task.tick(false), None);
    assert!(task.stopped);
    assert_eq!(task.tick(true), None);
    assert_eq!(task.interval, 2);
}

#[test]
fn session_error_lifecycle() {
    let mut session = Session::new();
    session.server_address = "127.0.0.1:8080".to_string();
    session.on_transport_error("connection refused".to_string());
    assert_eq!(session.error.as_deref(), Some("connection refused"));
    assert!(!session.connected);
    session.begin_connect();
    assert_eq!(session.error, None);
    session.on_connected();
    assert!(session.connected);
    assert_eq!(session.server_address, "127.0.0.1:8080");
}
