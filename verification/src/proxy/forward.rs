//! The session of one forwarded request: a stream through the gateway, an
//! HTTP/1.1 exchange over it, and the response on its way back.
//!
//! The session performs no I/O. Its owner reports what happened, one event at
//! a time, and performs the action the session answers with.

use vstd::prelude::*;
use crate::proxy::auth::{credential_model, Auth};
use crate::proxy::request::text_model;
use crate::proxy::response::{answer_model, bare, HttpResponse, ResponseModel, BAD_GATEWAY};
use crate::proxy::socks::{failure_response, SocksError};
use crate::proxy::target::{TargetAddress, TargetModel};

verus! {

/// Where a forwarded request stands.
#[derive(Debug, Clone, Copy, PartialEq, Eq, Structural)]
pub enum ForwardState {
    /// The request was let through and its destination is known.
    Pending,
    /// The connection through the gateway is being made.
    Connecting,
    /// The HTTP/1.1 handshake with the destination is under way.
    Handshaking,
    /// The request was sent; the response has not begun.
    Sending,
    /// The response is on its way back to the client.
    Streaming,
    /// Over. The stream through the gateway is gone.
    Closed,
}

/// Why a forwarded request is answered by the proxy itself.
#[derive(Debug, Clone, Copy, PartialEq, Eq, Structural)]
pub enum ForwardFailure {
    /// No stream to the destination was obtained.
    Socks(SocksError),
    /// The stream was obtained and the HTTP/1.1 handshake over it failed.
    Handshake,
}

/// A forwarded request as a value: its state, its destination, the
/// credential for the gateway, and the `Authorization` value to put on the
/// request, if any.
pub struct ForwardModel {
    pub state: ForwardState,
    pub target: TargetModel,
    pub credential: Option<(Seq<char>, Seq<char>)>,
    pub token: Option<Seq<char>>,
}

/// What the owner of a forwarded request reports to it.
pub enum ForwardInput {
    /// The request is to be forwarded.
    Begin,
    /// The gateway has connected to the destination.
    Connected,
    /// The connection through the gateway failed.
    ConnectFailed(SocksError),
    /// The HTTP/1.1 handshake with the destination is done.
    HandshakeDone,
    /// The HTTP/1.1 handshake with the destination failed.
    HandshakeFailed,
    /// The head of the response has arrived.
    ResponseReceived,
    /// The exchange has run to its end.
    Completed,
    /// Sending the request or receiving the response failed.
    ExchangeFailed,
}

/// What a forwarded request asks of its owner.
pub enum ForwardOutput {
    /// Nothing.
    Idle,
    /// Connect to the destination through the gateway.
    Connect,
    /// Perform the client side of an HTTP/1.1 handshake over the stream, and
    /// drive the connection apart from the request. The flags say how header
    /// names are written.
    Handshake { preserve_header_case: bool, title_case_headers: bool },
    /// Send the request. With an `authorization`, set the `Authorization`
    /// header to it first; without one, send the request as it came.
    Send { authorization: Option<Seq<char>> },
    /// Pass the response on to the client as it arrives, unchanged.
    Relay,
    /// Answer the client with the response for this failure.
    Respond(ForwardFailure),
    /// Release the stream through the gateway.
    Finish,
    /// Drop the client's connection and release the stream through the
    /// gateway.
    Abort,
}

/// The status a client is answered with when forwarding fails before a
/// response has begun.
pub open spec fn forward_failure_status(failure: ForwardFailure) -> u16 {
    forward_failure_response(failure).status
}

/// The response a client is answered with when forwarding fails before a
/// response has begun.
pub open spec fn forward_failure_response(failure: ForwardFailure) -> ResponseModel {
    match failure {
        ForwardFailure::Socks(error) => failure_response(error),
        ForwardFailure::Handshake => bare(BAD_GATEWAY, "handshake with destination failed"@),
    }
}

/// The response of its own that an action has the proxy answer the client
/// with, if it has: the response for the failure. The response an action
/// relays is the destination's and none of the proxy's.
pub open spec fn forward_answer(output: ForwardOutput) -> Option<ResponseModel> {
    match output {
        ForwardOutput::Respond(failure) => Some(forward_failure_response(failure)),
        _ => None,
    }
}

/// A forwarded request in another state, all else the same.
pub open spec fn forward_moved(forward: ForwardModel, state: ForwardState) -> ForwardModel {
    ForwardModel {
        state,
        target: forward.target,
        credential: forward.credential,
        token: forward.token,
    }
}

/// The rule of forwarding: the state after an event, and the action asked
/// for. An event that does not fit the state changes nothing and asks for
/// nothing.
pub open spec fn forward_step(forward: ForwardModel, input: ForwardInput) -> (
    ForwardModel,
    ForwardOutput,
) {
    match (forward.state, input) {
        (ForwardState::Pending, ForwardInput::Begin) => (
            forward_moved(forward, ForwardState::Connecting),
            ForwardOutput::Connect,
        ),
        (ForwardState::Connecting, ForwardInput::Connected) => (
            forward_moved(forward, ForwardState::Handshaking),
            ForwardOutput::Handshake { preserve_header_case: true, title_case_headers: true },
        ),
        (ForwardState::Connecting, ForwardInput::ConnectFailed(error)) => (
            forward_moved(forward, ForwardState::Closed),
            ForwardOutput::Respond(ForwardFailure::Socks(error)),
        ),
        (ForwardState::Handshaking, ForwardInput::HandshakeDone) => (
            forward_moved(forward, ForwardState::Sending),
            ForwardOutput::Send { authorization: forward.token },
        ),
        (ForwardState::Handshaking, ForwardInput::HandshakeFailed) => (
            forward_moved(forward, ForwardState::Closed),
            ForwardOutput::Respond(ForwardFailure::Handshake),
        ),
        (ForwardState::Sending, ForwardInput::ResponseReceived) => (
            forward_moved(forward, ForwardState::Streaming),
            ForwardOutput::Relay,
        ),
        (ForwardState::Sending, ForwardInput::ExchangeFailed) => (
            forward_moved(forward, ForwardState::Closed),
            ForwardOutput::Abort,
        ),
        (ForwardState::Streaming, ForwardInput::Completed) => (
            forward_moved(forward, ForwardState::Closed),
            ForwardOutput::Finish,
        ),
        (ForwardState::Streaming, ForwardInput::ExchangeFailed) => (
            forward_moved(forward, ForwardState::Closed),
            ForwardOutput::Abort,
        ),
        _ => (forward, ForwardOutput::Idle),
    }
}

impl ForwardFailure {
    pub fn status(&self) -> (status: u16)
        ensures
            status == forward_failure_status(*self),
            500 <= status < 600,
    {
        match self {
            ForwardFailure::Socks(error) => error.status(),
            ForwardFailure::Handshake => BAD_GATEWAY,
        }
    }

    /// The response to answer the client with.
    pub fn response(&self) -> (response: HttpResponse)
        ensures
            response@ == forward_failure_response(*self),
            500 <= response@.status < 600,
    {
        match self {
            ForwardFailure::Socks(error) => error.response(),
            ForwardFailure::Handshake => HttpResponse::new(
                BAD_GATEWAY,
                "handshake with destination failed",
            ),
        }
    }
}

/// The action a forwarded request asks for.
#[derive(Debug, PartialEq, Eq)]
pub enum ForwardAction {
    Idle,
    Connect,
    Handshake { preserve_header_case: bool, title_case_headers: bool },
    Send { authorization: Option<String> },
    Relay,
    Respond(ForwardFailure),
    Finish,
    Abort,
}

impl View for ForwardAction {
    type V = ForwardOutput;

    open spec fn view(&self) -> ForwardOutput {
        match *self {
            ForwardAction::Idle => ForwardOutput::Idle,
            ForwardAction::Connect => ForwardOutput::Connect,
            ForwardAction::Handshake {
                preserve_header_case,
                title_case_headers,
            } => ForwardOutput::Handshake { preserve_header_case, title_case_headers },
            ForwardAction::Send { authorization } => ForwardOutput::Send {
                authorization: text_model(authorization),
            },
            ForwardAction::Relay => ForwardOutput::Relay,
            ForwardAction::Respond(failure) => ForwardOutput::Respond(failure),
            ForwardAction::Finish => ForwardOutput::Finish,
            ForwardAction::Abort => ForwardOutput::Abort,
        }
    }
}

impl ForwardAction {
    /// The response of its own that the proxy answers the client with, if
    /// the action asks for one.
    pub fn answer(&self) -> (response: Option<HttpResponse>)
        ensures
            answer_model(response) == forward_answer(self@),
    {
        match self {
            ForwardAction::Respond(failure) => Some(failure.response()),
            _ => None,
        }
    }
}

/// The session of one forwarded request.
#[derive(Debug)]
pub struct ForwardSession {
    state: ForwardState,
    target: TargetAddress,
    credential: Option<Auth>,
    token: Option<String>,
}

impl View for ForwardSession {
    type V = ForwardModel;

    closed spec fn view(&self) -> ForwardModel {
        ForwardModel {
            state: self.state,
            target: self.target@,
            credential: credential_model(self.credential),
            token: text_model(self.token),
        }
    }
}

/// A forwarded request that has not begun.
pub open spec fn pending_forward(
    target: TargetModel,
    credential: Option<(Seq<char>, Seq<char>)>,
    token: Option<Seq<char>>,
) -> ForwardModel {
    ForwardModel { state: ForwardState::Pending, target, credential, token }
}

impl ForwardSession {
    /// A session for a request that was let through, to `target`, with the
    /// credential to present to the gateway and the `Authorization` value
    /// to put on the request.
    pub fn new(target: TargetAddress, credential: Option<Auth>, token: Option<String>) -> (session:
        Self)
        ensures
            session@ == pending_forward(target@, credential_model(credential), text_model(token)),
    {
        ForwardSession { state: ForwardState::Pending, target, credential, token }
    }

    pub fn state(&self) -> (state: ForwardState)
        ensures
            state == self@.state,
    {
        self.state
    }

    pub fn target(&self) -> (target: &TargetAddress)
        ensures
            target@ == self@.target,
    {
        &self.target
    }

    pub fn credential(&self) -> (credential: &Option<Auth>)
        ensures
            credential_model(*credential) == self@.credential,
    {
        &self.credential
    }

    /// Starts forwarding: asks for the connection through the gateway.
    pub fn begin(&mut self) -> (action: ForwardAction)
        ensures
            (final(self)@, action@) == forward_step(old(self)@, ForwardInput::Begin),
    {
        match self.state {
            ForwardState::Pending => {
                self.state = ForwardState::Connecting;
                ForwardAction::Connect
            },
            _ => ForwardAction::Idle,
        }
    }

    /// The gateway has connected to the destination.
    pub fn on_connected(&mut self) -> (action: ForwardAction)
        ensures
            (final(self)@, action@) == forward_step(old(self)@, ForwardInput::Connected),
    {
        match self.state {
            ForwardState::Connecting => {
                self.state = ForwardState::Handshaking;
                ForwardAction::Handshake { preserve_header_case: true, title_case_headers: true }
            },
            _ => ForwardAction::Idle,
        }
    }

    /// The connection through the gateway failed.
    pub fn on_connect_failed(&mut self, error: SocksError) -> (action: ForwardAction)
        ensures
            (final(self)@, action@) == forward_step(
                old(self)@,
                ForwardInput::ConnectFailed(error),
            ),
    {
        match self.state {
            ForwardState::Connecting => {
                self.state = ForwardState::Closed;
                ForwardAction::Respond(ForwardFailure::Socks(error))
            },
            _ => ForwardAction::Idle,
        }
    }

    /// The HTTP/1.1 handshake with the destination is done.
    pub fn on_handshake_done(&mut self) -> (action: ForwardAction)
        ensures
            (final(self)@, action@) == forward_step(old(self)@, ForwardInput::HandshakeDone),
    {
        match self.state {
            ForwardState::Handshaking => {
                self.state = ForwardState::Sending;
                let authorization = match &self.token {
                    Some(token) => Some(token.clone()),
                    None => None,
                };
                ForwardAction::Send { authorization }
            },
            _ => ForwardAction::Idle,
        }
    }

    /// The HTTP/1.1 handshake with the destination failed.
    pub fn on_handshake_failed(&mut self) -> (action: ForwardAction)
        ensures
            (final(self)@, action@) == forward_step(old(self)@, ForwardInput::HandshakeFailed),
    {
        match self.state {
            ForwardState::Handshaking => {
                self.state = ForwardState::Closed;
                ForwardAction::Respond(ForwardFailure::Handshake)
            },
            _ => ForwardAction::Idle,
        }
    }

    /// The head of the response has arrived.
    pub fn on_response(&mut self) -> (action: ForwardAction)
        ensures
            (final(self)@, action@) == forward_step(old(self)@, ForwardInput::ResponseReceived),
    {
        match self.state {
            ForwardState::Sending => {
                self.state = ForwardState::Streaming;
                ForwardAction::Relay
            },
            _ => ForwardAction::Idle,
        }
    }

    /// The exchange has run to its end.
    pub fn on_completed(&mut self) -> (action: ForwardAction)
        ensures
            (final(self)@, action@) == forward_step(old(self)@, ForwardInput::Completed),
    {
        match self.state {
            ForwardState::Streaming => {
                self.state = ForwardState::Closed;
                ForwardAction::Finish
            },
            _ => ForwardAction::Idle,
        }
    }

    /// Sending the request or receiving the response failed.
    pub fn on_exchange_failed(&mut self) -> (action: ForwardAction)
        ensures
            (final(self)@, action@) == forward_step(old(self)@, ForwardInput::ExchangeFailed),
    {
        match self.state {
            ForwardState::Sending | ForwardState::Streaming => {
                self.state = ForwardState::Closed;
                ForwardAction::Abort
            },
            _ => ForwardAction::Idle,
        }
    }
}

/// A forwarded request after a run of events, with the actions it asked
/// for, one for each event, in order.
pub open spec fn forward_run(forward: ForwardModel, inputs: Seq<ForwardInput>) -> (
    ForwardModel,
    Seq<ForwardOutput>,
)
    decreases inputs.len(),
{
    if inputs.len() == 0 {
        (forward, Seq::empty())
    } else {
        let (before, outputs) = forward_run(forward, inputs.drop_last());
        let (after, output) = forward_step(before, inputs.last());
        (after, outputs.push(output))
    }
}

/// How far a forwarded request has come; no event takes it back.
pub open spec fn forward_progress(state: ForwardState) -> nat {
    match state {
        ForwardState::Pending => 0,
        ForwardState::Connecting => 1,
        ForwardState::Handshaking => 2,
        ForwardState::Sending => 3,
        ForwardState::Streaming => 4,
        ForwardState::Closed => 5,
    }
}

/// Whether a state holds a stream through the gateway.
pub open spec fn holds_stream(state: ForwardState) -> bool {
    state == ForwardState::Handshaking || state == ForwardState::Sending || state
        == ForwardState::Streaming
}

/// Whether an action gives the client the head of a response: the proxy's
/// own, or the destination's.
pub open spec fn answers_client(output: ForwardOutput) -> bool {
    output is Respond || output is Relay
}

/// Whether an action lets go of the stream through the gateway.
pub open spec fn releases_stream(output: ForwardOutput) -> bool {
    output == ForwardOutput::Respond(ForwardFailure::Handshake) || output is Finish || output
        is Abort
}

/// How many of the actions let go of the stream through the gateway.
pub open spec fn releases(outputs: Seq<ForwardOutput>) -> nat
    decreases outputs.len(),
{
    if outputs.len() == 0 {
        0
    } else {
        releases(outputs.drop_last()) + if releases_stream(outputs.last()) {
            1nat
        } else {
            0nat
        }
    }
}

/// How many of the actions give the client the head of a response.
pub open spec fn answers(outputs: Seq<ForwardOutput>) -> nat
    decreases outputs.len(),
{
    if outputs.len() == 0 {
        0
    } else {
        answers(outputs.drop_last()) + if answers_client(outputs.last()) {
            1nat
        } else {
            0nat
        }
    }
}

/// A forwarded request never goes back to an earlier state.
pub proof fn forward_only_advances(forward: ForwardModel, inputs: Seq<ForwardInput>)
    ensures
        forward_progress(forward.state) <= forward_progress(forward_run(forward, inputs).0.state),
        forward_run(forward, inputs).1.len() == inputs.len(),
    decreases inputs.len(),
{
    if inputs.len() > 0 {
        forward_only_advances(forward, inputs.drop_last());
    }
}

/// A closed session stays closed and asks for nothing, whatever is reported
/// to it.
pub proof fn closed_forward_is_final(forward: ForwardModel, inputs: Seq<ForwardInput>, i: int)
    requires
        forward.state == ForwardState::Closed,
        0 <= i < inputs.len(),
    ensures
        forward_run(forward, inputs).0 == forward,
        forward_run(forward, inputs).1.len() == inputs.len(),
        forward_run(forward, inputs).1[i] == ForwardOutput::Idle,
    decreases inputs.len(),
{
    forward_only_advances(forward, inputs);
    forward_only_advances(forward, inputs.drop_last());
    if inputs.len() > 1 {
        closed_forward_is_final(forward, inputs.drop_last(), 0);
        if i < inputs.len() - 1 {
            closed_forward_is_final(forward, inputs.drop_last(), i);
        }
    }
}

/// The client is given the head of a response at most once: the proxy's own
/// when forwarding fails early, or the destination's, never both and never
/// either twice. A run from the start that has closed the session without
/// a failure in mid-exchange has given it exactly once.
pub proof fn client_answered_at_most_once(forward: ForwardModel, inputs: Seq<ForwardInput>)
    ensures
        answers(forward_run(forward, inputs).1) <= 1,
        answers(forward_run(forward, inputs).1) == 1 ==> forward_progress(
            forward_run(forward, inputs).0.state,
        ) >= 4,
        forward_progress(forward.state) >= 4 ==> answers(forward_run(forward, inputs).1) == 0,
        forward.state == ForwardState::Pending && forward_run(forward, inputs).0.state
            == ForwardState::Streaming ==> answers(forward_run(forward, inputs).1) == 1,
    decreases inputs.len(),
{
    if inputs.len() > 0 {
        let shorter = inputs.drop_last();
        client_answered_at_most_once(forward, shorter);
        forward_only_advances(forward, shorter);
        let before = forward_run(forward, shorter);
        let step = forward_step(before.0, inputs.last());
        assert(before.1.push(step.1).drop_last() =~= before.1);
    }
}

/// The stream through the gateway is released exactly once: a run that
/// starts with the stream in hand and ends closed has let go of it once, and
/// a run that still holds it has not let go of it.
pub proof fn stream_released_exactly_once(forward: ForwardModel, inputs: Seq<ForwardInput>)
    requires
        holds_stream(forward.state),
    ensures
        releases(forward_run(forward, inputs).1) == if holds_stream(
            forward_run(forward, inputs).0.state,
        ) {
            0nat
        } else {
            1nat
        },
        holds_stream(forward_run(forward, inputs).0.state) || forward_run(forward, inputs).0.state
            == ForwardState::Closed,
    decreases inputs.len(),
{
    if inputs.len() > 0 {
        let shorter = inputs.drop_last();
        stream_released_exactly_once(forward, shorter);
        let before = forward_run(forward, shorter);
        let step = forward_step(before.0, inputs.last());
        assert(before.1.push(step.1).drop_last() =~= before.1);
    }
}

/// Whether a run of actions asked for the handshake, which is asked for
/// when, and only when, the stream through the gateway was obtained.
pub open spec fn stream_obtained(outputs: Seq<ForwardOutput>) -> bool
    decreases outputs.len(),
{
    if outputs.len() == 0 {
        false
    } else {
        outputs.last() is Handshake || stream_obtained(outputs.drop_last())
    }
}

/// Every stream is released once, on every way out, and none is released
/// that was not obtained: a run from the start has let go of the stream once
/// if it obtained one and has closed the session, and not at all otherwise.
pub proof fn every_stream_is_released_once(forward: ForwardModel, inputs: Seq<ForwardInput>)
    requires
        forward_progress(forward.state) <= 1,
    ensures
        releases(forward_run(forward, inputs).1) == if stream_obtained(
            forward_run(forward, inputs).1,
        ) && forward_run(forward, inputs).0.state == ForwardState::Closed {
            1nat
        } else {
            0nat
        },
        holds_stream(forward_run(forward, inputs).0.state) ==> stream_obtained(
            forward_run(forward, inputs).1,
        ),
        stream_obtained(forward_run(forward, inputs).1) ==> forward_progress(
            forward_run(forward, inputs).0.state,
        ) >= 2,
    decreases inputs.len(),
{
    if inputs.len() > 0 {
        let shorter = inputs.drop_last();
        every_stream_is_released_once(forward, shorter);
        let before = forward_run(forward, shorter);
        let step = forward_step(before.0, inputs.last());
        assert(before.1.push(step.1).drop_last() =~= before.1);
    }
}

/// A request is sent on as it came unless a value for its `Authorization`
/// header was configured: the action that sends it carries that value, and
/// none where none was configured.
pub proof fn request_is_sent_as_configured(forward: ForwardModel)
    requires
        forward.state == ForwardState::Handshaking,
    ensures
        forward_step(forward, ForwardInput::HandshakeDone).1 == (ForwardOutput::Send {
            authorization: forward.token,
        }),
        forward.token is None ==> forward_step(forward, ForwardInput::HandshakeDone).1 == (
        ForwardOutput::Send { authorization: None }),
{
}

/// Every failure before a response has begun is answered with a `5xx`
/// status.
pub proof fn early_failures_are_server_errors(failure: ForwardFailure)
    ensures
        500 <= forward_failure_status(failure) < 600,
{
}

} // verus!
