//! The front end's decision for one request: turn it away, tunnel it, or
//! forward it.

use vstd::prelude::*;
use crate::proxy::access::{check, denial_response, slice_model, verdict_of, Verdict};
use crate::proxy::auth::Auth;
use crate::proxy::config::{ConfigModel, ProxyConfig};
use crate::proxy::forward::{
    forward_run, pending_forward, ForwardInput, ForwardModel, ForwardOutput, ForwardSession,
};
use crate::proxy::request::{
    bytes_model, is_connect_method, uri_host_of, uri_port_of, RequestHead,
};
use crate::proxy::response::{HttpResponse, ResponseModel};
use crate::proxy::target::{host_model, resolved, TargetAddress, TargetModel};
use crate::proxy::tunnel::{
    pending_tunnel, tunnel_run, TunnelInput, TunnelModel, TunnelOutput, TunnelSession,
};

verus! {

/// What becomes of a request.
#[derive(Debug)]
pub enum Dispatch {
    /// The request is answered with this response and goes no further.
    Deny(HttpResponse),
    /// The request asks for a tunnel and gets a session for it.
    Tunnel(TunnelSession),
    /// The request is forwarded under this session.
    Forward(ForwardSession),
}

/// What becomes of a request, as a value.
pub enum Route {
    Deny(ResponseModel),
    Tunnel(TunnelModel),
    Forward(ForwardModel),
}

impl View for Dispatch {
    type V = Route;

    open spec fn view(&self) -> Route {
        match *self {
            Dispatch::Deny(response) => Route::Deny(response@),
            Dispatch::Tunnel(session) => Route::Tunnel(session@),
            Dispatch::Forward(session) => Route::Forward(session@),
        }
    }
}

/// The front end's rule. A request that is denied is answered with the
/// response for the denial. One that is let through becomes a tunnel if it
/// asks for one and is forwarded otherwise, in both cases with a session
/// that has not begun, to the destination the request names.
pub open spec fn route_of(
    config: ConfigModel,
    presented: Option<Seq<u8>>,
    tunnel: bool,
    host: Option<Seq<char>>,
    port: Option<u16>,
) -> Route {
    match verdict_of(config.proxy_token, config.allowed_domains, presented, tunnel, host, port) {
        Verdict::Deny(denial) => Route::Deny(denial_response(denial)),
        Verdict::Allow => if tunnel {
            Route::Tunnel(pending_tunnel(resolved(tunnel, host, port)->0, config.upstream))
        } else {
            Route::Forward(
                pending_forward(
                    resolved(tunnel, host, port)->0,
                    config.upstream,
                    config.forward_token,
                ),
            )
        },
    }
}

fn credential_copy(credential: &Option<Auth>) -> (copy: Option<Auth>)
    ensures
        copy == *credential,
{
    match credential {
        Some(auth) => Some(auth.clone()),
        None => None,
    }
}

fn token_copy(token: &Option<String>) -> (copy: Option<String>)
    ensures
        copy == *token,
{
    match token {
        Some(text) => Some(text.clone()),
        None => None,
    }
}

/// Decides what becomes of a request, from what its head holds.
///
/// `presented` is the value of the request's `Proxy-Authorization` header,
/// `tunnel` says whether the request asks for a tunnel, and `host` and `port`
/// are what its target names.
pub fn route(
    config: &ProxyConfig,
    presented: Option<&[u8]>,
    tunnel: bool,
    host: Option<&str>,
    port: Option<u16>,
) -> (dispatch: Dispatch)
    ensures
        dispatch@ == route_of(config@, slice_model(presented), tunnel, host_model(host), port),
{
    match check(config, presented, tunnel, host, port) {
        Verdict::Deny(denial) => Dispatch::Deny(denial.response()),
        Verdict::Allow => {
            let target = TargetAddress::resolve(tunnel, host, port).unwrap();
            let credential = credential_copy(&config.upstream);
            if tunnel {
                Dispatch::Tunnel(TunnelSession::new(target, credential))
            } else {
                let token = token_copy(&config.forward_token);
                Dispatch::Forward(ForwardSession::new(target, credential, token))
            }
        },
    }
}

/// Decides what becomes of a request, reading the method and the request
/// target as they were written.
pub fn dispatch(config: &ProxyConfig, head: &RequestHead) -> (dispatch: Dispatch)
    ensures
        dispatch@ == route_of(
            config@,
            bytes_model(head.proxy_authorization),
            is_connect_method(head.method@),
            uri_host_of(head.uri@),
            uri_port_of(head.uri@),
        ),
{
    let host = head.host();
    let port = head.port();
    let presented: Option<&[u8]> = match &head.proxy_authorization {
        Some(value) => Some(value.as_slice()),
        None => None,
    };
    let host_text: Option<&str> = match &host {
        Some(text) => Some(text.as_str()),
        None => None,
    };
    route(config, presented, head.is_connect(), host_text, port)
}

/// With no credential required and no list of domains, every request for a
/// tunnel that names a host and a port gets one: a session to that host and
/// port, whose first action is to connect through the gateway and which,
/// once connected, accepts the request.
pub proof fn unrestricted_tunnel_is_set_up(
    config: ConfigModel,
    presented: Option<Seq<u8>>,
    host: Seq<char>,
    port: u16,
)
    requires
        config.unrestricted(),
    ensures
        route_of(config, presented, true, Some(host), Some(port)) == Route::Tunnel(
            pending_tunnel(TargetModel { host, port }, config.upstream),
        ),
        tunnel_run(
            pending_tunnel(TargetModel { host, port }, config.upstream),
            seq![TunnelInput::Begin, TunnelInput::Connected],
        ).1 == seq![TunnelOutput::Connect, TunnelOutput::Accept],
{
    let start = pending_tunnel(TargetModel { host, port }, config.upstream);
    let inputs = seq![TunnelInput::Begin, TunnelInput::Connected];
    assert(inputs.drop_last() =~= seq![TunnelInput::Begin]);
    assert(inputs.drop_last().drop_last() =~= Seq::empty());
    reveal_with_fuel(tunnel_run, 3);
    assert(tunnel_run(start, inputs).1 =~= seq![TunnelOutput::Connect, TunnelOutput::Accept]);
}

/// With no credential required and no list of domains, every other request
/// that names a host is forwarded to that host, at the port it names or at
/// port 80. With no `Authorization` value configured the request is sent as
/// it came, and the response is passed on as it arrives.
pub proof fn unrestricted_request_is_forwarded(
    config: ConfigModel,
    presented: Option<Seq<u8>>,
    host: Seq<char>,
    port: Option<u16>,
)
    requires
        config.unrestricted(),
    ensures
        route_of(config, presented, false, Some(host), port) == Route::Forward(
            pending_forward(
                TargetModel {
                    host,
                    port: if port is Some {
                        port->0
                    } else {
                        80
                    },
                },
                config.upstream,
                config.forward_token,
            ),
        ),
        forward_run(
            pending_forward(resolved(false, Some(host), port)->0, config.upstream, None),
            seq![
                ForwardInput::Begin,
                ForwardInput::Connected,
                ForwardInput::HandshakeDone,
                ForwardInput::ResponseReceived,
            ],
        ).1 == seq![
            ForwardOutput::Connect,
            ForwardOutput::Handshake { preserve_header_case: true, title_case_headers: true },
            ForwardOutput::Send { authorization: None },
            ForwardOutput::Relay,
        ],
{
    let start = pending_forward(resolved(false, Some(host), port)->0, config.upstream, None);
    let inputs = seq![
        ForwardInput::Begin,
        ForwardInput::Connected,
        ForwardInput::HandshakeDone,
        ForwardInput::ResponseReceived,
    ];
    let three = inputs.drop_last();
    let two = three.drop_last();
    let one = two.drop_last();
    assert(three =~= seq![
        ForwardInput::Begin,
        ForwardInput::Connected,
        ForwardInput::HandshakeDone,
    ]);
    assert(two =~= seq![ForwardInput::Begin, ForwardInput::Connected]);
    assert(one =~= seq![ForwardInput::Begin]);
    assert(one.drop_last() =~= Seq::empty());
    reveal_with_fuel(forward_run, 5);
    assert(forward_run(start, inputs).1 =~= seq![
        ForwardOutput::Connect,
        ForwardOutput::Handshake { preserve_header_case: true, title_case_headers: true },
        ForwardOutput::Send { authorization: None },
        ForwardOutput::Relay,
    ]);
}

/// A request is turned away exactly when access control denies it, and then with
/// the response for that denial; no session is made for it.
pub proof fn denied_requests_get_no_session(
    config: ConfigModel,
    presented: Option<Seq<u8>>,
    tunnel: bool,
    host: Option<Seq<char>>,
    port: Option<u16>,
)
    ensures
        route_of(config, presented, tunnel, host, port) is Deny <==> verdict_of(
            config.proxy_token,
            config.allowed_domains,
            presented,
            tunnel,
            host,
            port,
        ) is Deny,
        route_of(config, presented, tunnel, host, port) is Tunnel ==> tunnel,
        route_of(config, presented, tunnel, host, port) is Forward ==> !tunnel,
{
}

} // verus!
