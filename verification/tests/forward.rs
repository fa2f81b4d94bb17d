use sthp::proxy::auth::Auth;
use sthp::proxy::forward::{ForwardAction, ForwardFailure, ForwardSession, ForwardState};
use sthp::proxy::response::HttpResponse;
use sthp::proxy::socks::SocksError;
use sthp::proxy::target::TargetAddress;

fn session(token: Option<&str>) -> ForwardSession {
    ForwardSession::new(
        TargetAddress::new("example.org".to_string(), 80),
        None,
        token.map(|t| t.to_string()),
    )
}

fn handshake() -> ForwardAction {
    ForwardAction::Handshake { preserve_header_case: true, title_case_headers: true }
}

#[test]
fn new_forward_is_pending() {
    let auth = Auth::new("u".to_string(), "p".to_string());
    let session = ForwardSession::new(
        TargetAddress::new("example.org".to_string(), 8080),
        Some(auth.clone()),
        None,
    );
    assert_eq!(session.state(), ForwardState::Pending);
    assert_eq!(session.target(), &TargetAddress::new("example.org".to_string(), 8080));
    assert_eq!(session.credential(), &Some(auth));
}

#[test]
fn forward_runs_to_its_end() {
    let mut session = session(None);
    assert_eq!(session.begin(), ForwardAction::Connect);
    assert_eq!(session.state(), ForwardState::Connecting);
    assert_eq!(session.on_connected(), handshake());
    assert_eq!(session.state(), ForwardState::Handshaking);
    assert_eq!(session.on_handshake_done(), ForwardAction::Send { authorization: None });
    assert_eq!(session.state(), ForwardState::Sending);
    assert_eq!(session.on_response(), ForwardAction::Relay);
    assert_eq!(session.state(), ForwardState::Streaming);
    assert_eq!(session.on_completed(), ForwardAction::Finish);
    assert_eq!(session.state(), ForwardState::Closed);
}

#[test]
fn forward_puts_the_configured_authorization_on_the_request() {
    let mut session = session(Some("Basic dXNlcjpwYXNz"));
    session.begin();
    session.on_connected();
    assert_eq!(
        session.on_handshake_done(),
        ForwardAction::Send { authorization: Some("Basic dXNlcjpwYXNz".to_string()) }
    );
}

#[test]
fn forward_answers_a_failed_connect() {
    let mut session = session(None);
    session.begin();
    let action = session.on_connect_failed(SocksError::UpstreamUnreachable);
    assert_eq!(action, ForwardAction::Respond(ForwardFailure::Socks(SocksError::UpstreamUnreachable)));
    assert_eq!(session.state(), ForwardState::Closed);
    assert_eq!(ForwardFailure::Socks(SocksError::UpstreamUnreachable).status(), 502);
    assert_eq!(ForwardFailure::Socks(SocksError::Protocol).status(), 500);
}

#[test]
fn forward_answers_a_failed_handshake_with_502() {
    let mut session = session(None);
    session.begin();
    session.on_connected();
    assert_eq!(session.on_handshake_failed(), ForwardAction::Respond(ForwardFailure::Handshake));
    assert_eq!(session.state(), ForwardState::Closed);
    assert_eq!(ForwardFailure::Handshake.status(), 502);
    assert_eq!(
        ForwardFailure::Handshake.response(),
        HttpResponse {
            status: 502,
            headers: vec![],
            body: "handshake with destination failed".to_string()
        }
    );
}

#[test]
fn forward_failure_response_is_that_of_the_socks_error() {
    for error in [
        SocksError::UpstreamUnreachable,
        SocksError::AuthRejected,
        SocksError::NoAcceptableMethod,
        SocksError::ConnectFailed(4),
        SocksError::Protocol,
    ] {
        assert_eq!(ForwardFailure::Socks(error).response(), error.response());
        assert_eq!(ForwardFailure::Socks(error).status(), error.status());
    }
}

#[test]
fn forward_aborts_when_sending_fails() {
    let mut session = session(None);
    session.begin();
    session.on_connected();
    session.on_handshake_done();
    assert_eq!(session.on_exchange_failed(), ForwardAction::Abort);
    assert_eq!(session.state(), ForwardState::Closed);
}

#[test]
fn forward_aborts_when_the_response_breaks_off() {
    let mut session = session(None);
    session.begin();
    session.on_connected();
    session.on_handshake_done();
    session.on_response();
    assert_eq!(session.on_exchange_failed(), ForwardAction::Abort);
    assert_eq!(session.state(), ForwardState::Closed);
    assert_eq!(session.on_completed(), ForwardAction::Idle);
}

#[test]
fn closed_forward_asks_for_nothing() {
    let mut session = session(Some("Basic eDp5"));
    session.begin();
    session.on_connect_failed(SocksError::AuthRejected);
    assert_eq!(session.begin(), ForwardAction::Idle);
    assert_eq!(session.on_connected(), ForwardAction::Idle);
    assert_eq!(session.on_connect_failed(SocksError::AuthRejected), ForwardAction::Idle);
    assert_eq!(session.on_handshake_done(), ForwardAction::Idle);
    assert_eq!(session.on_handshake_failed(), ForwardAction::Idle);
    assert_eq!(session.on_response(), ForwardAction::Idle);
    assert_eq!(session.on_completed(), ForwardAction::Idle);
    assert_eq!(session.on_exchange_failed(), ForwardAction::Idle);
    assert_eq!(session.state(), ForwardState::Closed);
}

#[test]
fn forward_ignores_events_out_of_turn() {
    let mut session = session(None);
    assert_eq!(session.on_connected(), ForwardAction::Idle);
    assert_eq!(session.on_handshake_done(), ForwardAction::Idle);
    assert_eq!(session.on_exchange_failed(), ForwardAction::Idle);
    assert_eq!(session.state(), ForwardState::Pending);
    session.begin();
    assert_eq!(session.begin(), ForwardAction::Idle);
    assert_eq!(session.on_handshake_failed(), ForwardAction::Idle);
    assert_eq!(session.on_response(), ForwardAction::Idle);
    assert_eq!(session.on_exchange_failed(), ForwardAction::Idle);
    assert_eq!(session.state(), ForwardState::Connecting);
    session.on_connected();
    assert_eq!(session.on_connected(), ForwardAction::Idle);
    assert_eq!(session.on_connect_failed(SocksError::Protocol), ForwardAction::Idle);
    assert_eq!(session.on_response(), ForwardAction::Idle);
    assert_eq!(session.on_completed(), ForwardAction::Idle);
    assert_eq!(session.on_exchange_failed(), ForwardAction::Idle);
    assert_eq!(session.state(), ForwardState::Handshaking);
    session.on_handshake_done();
    assert_eq!(session.on_handshake_done(), ForwardAction::Idle);
    assert_eq!(session.on_completed(), ForwardAction::Idle);
    assert_eq!(session.state(), ForwardState::Sending);
}

#[test]
fn respond_is_answered_with_the_response_for_the_failure() {
    assert_eq!(
        ForwardAction::Respond(ForwardFailure::Handshake).answer(),
        Some(HttpResponse {
            status: 502,
            headers: vec![],
            body: "handshake with destination failed".to_string()
        })
    );
    assert_eq!(
        ForwardAction::Respond(ForwardFailure::Socks(SocksError::Protocol)).answer(),
        Some(SocksError::Protocol.response())
    );
    assert_eq!(
        ForwardAction::Respond(ForwardFailure::Socks(SocksError::ConnectFailed(4))).answer(),
        Some(HttpResponse { status: 502, headers: vec![], body: "host unreachable".to_string() })
    );
}

#[test]
fn other_forward_actions_answer_nothing() {
    assert_eq!(ForwardAction::Idle.answer(), None);
    assert_eq!(ForwardAction::Connect.answer(), None);
    assert_eq!(handshake().answer(), None);
    assert_eq!(ForwardAction::Send { authorization: None }.answer(), None);
    assert_eq!(ForwardAction::Relay.answer(), None);
    assert_eq!(ForwardAction::Finish.answer(), None);
    assert_eq!(ForwardAction::Abort.answer(), None);
}
