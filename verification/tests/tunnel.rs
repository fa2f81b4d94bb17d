use sthp::proxy::auth::Auth;
use sthp::proxy::response::HttpResponse;
use sthp::proxy::socks::SocksError;
use sthp::proxy::target::TargetAddress;
use sthp::proxy::tunnel::{Side, TunnelAction, TunnelSession, TunnelState};

fn session() -> TunnelSession {
    TunnelSession::new(TargetAddress::new("example.org".to_string(), 443), None)
}

fn tunneling() -> TunnelSession {
    let mut session = session();
    assert_eq!(session.begin(), TunnelAction::Connect);
    assert_eq!(session.on_connected(), TunnelAction::Accept);
    session
}

#[test]
fn new_tunnel_is_pending() {
    let auth = Auth::new("u".to_string(), "p".to_string());
    let session =
        TunnelSession::new(TargetAddress::new("example.org".to_string(), 443), Some(auth.clone()));
    assert_eq!(session.state(), TunnelState::Pending);
    assert_eq!(session.target(), &TargetAddress::new("example.org".to_string(), 443));
    assert_eq!(session.credential(), &Some(auth));
    assert_eq!(session.sent(), 0);
    assert_eq!(session.received(), 0);
}

#[test]
fn tunnel_connects_then_accepts() {
    let mut session = session();
    assert_eq!(session.begin(), TunnelAction::Connect);
    assert_eq!(session.state(), TunnelState::Connecting);
    assert_eq!(session.on_connected(), TunnelAction::Accept);
    assert_eq!(session.state(), TunnelState::Tunneling);
}

#[test]
fn tunnel_rejects_when_connect_fails() {
    let mut session = session();
    session.begin();
    assert_eq!(
        session.on_connect_failed(SocksError::ConnectFailed(5)),
        TunnelAction::Reject(SocksError::ConnectFailed(5))
    );
    assert_eq!(session.state(), TunnelState::Closed);
    assert_eq!(session.on_connected(), TunnelAction::Idle);
    assert_eq!(session.on_read(Side::Client, b"hello"), TunnelAction::Idle);
    assert_eq!(session.on_failure(Side::Client), TunnelAction::Idle);
    assert_eq!(session.state(), TunnelState::Closed);
}

#[test]
fn tunnel_is_accepted_once() {
    let mut session = tunneling();
    assert_eq!(session.on_connected(), TunnelAction::Idle);
    assert_eq!(session.on_connect_failed(SocksError::Protocol), TunnelAction::Idle);
    assert_eq!(session.begin(), TunnelAction::Idle);
    assert_eq!(session.state(), TunnelState::Tunneling);
}

#[test]
fn tunnel_passes_bytes_to_the_other_end() {
    let mut session = tunneling();
    assert_eq!(
        session.on_read(Side::Client, b"hello"),
        TunnelAction::Write { to: Side::Target, bytes: b"hello" }
    );
    assert_eq!(
        session.on_read(Side::Target, b"hi"),
        TunnelAction::Write { to: Side::Client, bytes: b"hi" }
    );
    assert_eq!(
        session.on_read(Side::Client, b"!"),
        TunnelAction::Write { to: Side::Target, bytes: b"!" }
    );
    assert_eq!(session.sent(), 6);
    assert_eq!(session.received(), 2);
    assert_eq!(session.state(), TunnelState::Tunneling);
}

#[test]
fn tunnel_carries_a_tls_handshake_unchanged() {
    let client_hello: Vec<u8> = vec![
        0x16, 0x03, 0x01, 0x00, 0x2f, 0x01, 0x00, 0x00, 0x2b, 0x03, 0x03, 0x00, 0xff, 0x80, 0x7f,
        0x0d, 0x0a, 0x0d, 0x0a, 0x00, 0x00, 0x02, 0x13, 0x01, 0x01, 0x00,
    ];
    let server_hello: Vec<u8> =
        vec![0x16, 0x03, 0x03, 0x00, 0x04, 0x02, 0x00, 0x00, 0x00, 0x14, 0x03, 0x03, 0x00, 0x01, 0x01];
    let mut session = tunneling();
    let mut at_target: Vec<u8> = Vec::new();
    let mut at_client: Vec<u8> = Vec::new();
    for chunk in client_hello.chunks(7) {
        match session.on_read(Side::Client, chunk) {
            TunnelAction::Write { to: Side::Target, bytes } => at_target.extend_from_slice(bytes),
            other => panic!("{:?}", other),
        }
    }
    for chunk in server_hello.chunks(4) {
        match session.on_read(Side::Target, chunk) {
            TunnelAction::Write { to: Side::Client, bytes } => at_client.extend_from_slice(bytes),
            other => panic!("{:?}", other),
        }
    }
    assert_eq!(at_target, client_hello);
    assert_eq!(at_client, server_hello);
    assert_eq!(session.sent(), client_hello.len() as u64);
    assert_eq!(session.received(), server_hello.len() as u64);
}

#[test]
fn tunnel_closes_when_the_client_closes() {
    let mut session = tunneling();
    session.on_read(Side::Client, b"abc");
    session.on_read(Side::Target, b"defgh");
    assert_eq!(session.on_read(Side::Client, b""), TunnelAction::Close { sent: 3, received: 5 });
    assert_eq!(session.state(), TunnelState::Closed);
}

#[test]
fn tunnel_closes_when_the_target_closes() {
    let mut session = tunneling();
    assert_eq!(session.on_read(Side::Target, b""), TunnelAction::Close { sent: 0, received: 0 });
    assert_eq!(session.state(), TunnelState::Closed);
}

#[test]
fn tunnel_closes_when_either_end_fails() {
    for side in [Side::Client, Side::Target] {
        let mut session = tunneling();
        session.on_read(Side::Client, b"12");
        assert_eq!(session.on_failure(side), TunnelAction::Close { sent: 2, received: 0 });
        assert_eq!(session.state(), TunnelState::Closed);
    }
}

#[test]
fn closed_tunnel_asks_for_nothing() {
    let mut session = tunneling();
    session.on_read(Side::Client, b"");
    assert_eq!(session.on_read(Side::Client, b"late"), TunnelAction::Idle);
    assert_eq!(session.on_read(Side::Target, b"late"), TunnelAction::Idle);
    assert_eq!(session.on_read(Side::Target, b""), TunnelAction::Idle);
    assert_eq!(session.on_failure(Side::Target), TunnelAction::Idle);
    assert_eq!(session.begin(), TunnelAction::Idle);
    assert_eq!(session.on_connected(), TunnelAction::Idle);
    assert_eq!(session.sent(), 0);
    assert_eq!(session.received(), 0);
    assert_eq!(session.state(), TunnelState::Closed);
}

#[test]
fn tunnel_ignores_events_before_it_begins() {
    let mut session = session();
    assert_eq!(session.on_connected(), TunnelAction::Idle);
    assert_eq!(session.on_connect_failed(SocksError::AuthRejected), TunnelAction::Idle);
    assert_eq!(session.on_read(Side::Client, b"x"), TunnelAction::Idle);
    assert_eq!(session.on_failure(Side::Client), TunnelAction::Idle);
    assert_eq!(session.state(), TunnelState::Pending);
    assert_eq!(session.sent(), 0);
}

#[test]
fn tunnel_ignores_bytes_while_connecting() {
    let mut session = session();
    session.begin();
    assert_eq!(session.on_read(Side::Client, b"x"), TunnelAction::Idle);
    assert_eq!(session.on_failure(Side::Target), TunnelAction::Idle);
    assert_eq!(session.state(), TunnelState::Connecting);
    assert_eq!(session.sent(), 0);
}

#[test]
fn sides_are_opposite() {
    assert_eq!(Side::Client.other(), Side::Target);
    assert_eq!(Side::Target.other(), Side::Client);
}

#[test]
fn accept_is_answered_with_200_and_no_body() {
    assert_eq!(
        TunnelAction::Accept.answer(),
        Some(HttpResponse { status: 200, headers: vec![], body: String::new() })
    );
}

#[test]
fn reject_is_answered_with_the_response_for_the_error() {
    assert_eq!(
        TunnelAction::Reject(SocksError::ConnectFailed(5)).answer(),
        Some(HttpResponse { status: 502, headers: vec![], body: "connection refused".to_string() })
    );
    assert_eq!(
        TunnelAction::Reject(SocksError::Protocol).answer(),
        Some(HttpResponse {
            status: 500,
            headers: vec![],
            body: "malformed exchange with upstream".to_string()
        })
    );
    for error in [
        SocksError::UpstreamUnreachable,
        SocksError::AuthRejected,
        SocksError::NoAcceptableMethod,
        SocksError::ConnectFailed(1),
        SocksError::Protocol,
    ] {
        assert_eq!(TunnelAction::Reject(error).answer(), Some(error.response()));
    }
}

#[test]
fn other_tunnel_actions_answer_nothing() {
    assert_eq!(TunnelAction::Idle.answer(), None);
    assert_eq!(TunnelAction::Connect.answer(), None);
    assert_eq!(TunnelAction::Write { to: Side::Target, bytes: b"x" }.answer(), None);
    assert_eq!(TunnelAction::Close { sent: 1, received: 2 }.answer(), None);
}

#[test]
fn accepted_tunnel_answers_once() {
    let mut session = session();
    assert_eq!(session.begin().answer(), None);
    assert_eq!(session.on_connected().answer().map(|response| response.status), Some(200));
    assert_eq!(session.on_connected().answer(), None);
    assert_eq!(session.on_connect_failed(SocksError::Protocol).answer(), None);
    assert_eq!(session.on_read(Side::Client, b"").answer(), None);
}
