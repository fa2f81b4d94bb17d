//! The session of one tunnel: from the accepted request, through the
//! connection to the gateway, to the moment either end goes away.
//!
//! The session performs no I/O. Its owner reports what happened, one event at
//! a time, and performs the action the session answers with.

use vstd::prelude::*;
use crate::proxy::auth::{credential_model, Auth};
use crate::proxy::response::{answer_model, established, HttpResponse, ResponseModel};
use crate::proxy::socks::{failure_response, SocksError};
use crate::proxy::target::{TargetAddress, TargetModel};

verus! {

/// One end of a tunnel.
#[derive(Debug, Clone, Copy, PartialEq, Eq, Structural)]
pub enum Side {
    /// The client that asked for the tunnel.
    Client,
    /// The destination, reached through the gateway.
    Target,
}

/// Where a tunnel stands.
#[derive(Debug, Clone, Copy, PartialEq, Eq, Structural)]
pub enum TunnelState {
    /// The request was let through and its destination is known.
    Pending,
    /// The connection through the gateway is being made.
    Connecting,
    /// Bytes flow between the two ends.
    Tunneling,
    /// Over. Nothing is read or written any more.
    Closed,
}

/// A tunnel as a value: its state, its destination, the credential for the
/// gateway, and the bytes counted so far in each direction.
pub struct TunnelModel {
    pub state: TunnelState,
    pub target: TargetModel,
    pub credential: Option<(Seq<char>, Seq<char>)>,
    /// Bytes read from the client and passed on to the destination.
    pub sent: u64,
    /// Bytes read from the destination and passed on to the client.
    pub received: u64,
}

/// What the owner of a tunnel reports to it.
pub enum TunnelInput {
    /// The tunnel is to be set up.
    Begin,
    /// The gateway has connected to the destination.
    Connected,
    /// The connection through the gateway failed.
    ConnectFailed(SocksError),
    /// A read on one end returned these bytes; none means that end closed.
    Read(Side, Seq<u8>),
    /// A read or a write on one end failed.
    Failed(Side),
}

/// What a tunnel asks of its owner.
pub enum TunnelOutput {
    /// Nothing.
    Idle,
    /// Connect to the destination through the gateway.
    Connect,
    /// Answer the request with `200` and an empty body, and take the client's
    /// connection over as a raw stream.
    Accept,
    /// Answer the request with the response for this error. The client's
    /// connection stays an HTTP connection.
    Reject(SocksError),
    /// Write these bytes to one end.
    Write(Side, Seq<u8>),
    /// Close both ends. The counts are final.
    Close { sent: u64, received: u64 },
}

/// The response an action answers the request with, if it answers it:
/// `200` with an empty body where it accepts the request, and the response
/// for the error where it rejects it.
pub open spec fn tunnel_answer(output: TunnelOutput) -> Option<ResponseModel> {
    match output {
        TunnelOutput::Accept => Some(established()),
        TunnelOutput::Reject(error) => Some(failure_response(error)),
        _ => None,
    }
}

/// The other end.
pub open spec fn opposite(side: Side) -> Side {
    match side {
        Side::Client => Side::Target,
        Side::Target => Side::Client,
    }
}

/// A count after `more` bytes; it stops at the largest number it can hold.
pub open spec fn counted(count: u64, more: nat) -> u64 {
    if count + more > u64::MAX {
        u64::MAX
    } else {
        (count + more) as u64
    }
}

/// A tunnel in another state, all else the same.
pub open spec fn moved(tunnel: TunnelModel, state: TunnelState) -> TunnelModel {
    TunnelModel {
        state,
        target: tunnel.target,
        credential: tunnel.credential,
        sent: tunnel.sent,
        received: tunnel.received,
    }
}

/// A tunnel after `more` bytes read from one end were passed to the other.
pub open spec fn relayed(tunnel: TunnelModel, from: Side, more: nat) -> TunnelModel {
    TunnelModel {
        state: tunnel.state,
        target: tunnel.target,
        credential: tunnel.credential,
        sent: if from == Side::Client {
            counted(tunnel.sent, more)
        } else {
            tunnel.sent
        },
        received: if from == Side::Target {
            counted(tunnel.received, more)
        } else {
            tunnel.received
        },
    }
}

/// The rule of the tunnel: the state after an event, and the action asked
/// for. An event that does not fit the state changes nothing and asks for
/// nothing.
pub open spec fn tunnel_step(tunnel: TunnelModel, input: TunnelInput) -> (
    TunnelModel,
    TunnelOutput,
) {
    match (tunnel.state, input) {
        (TunnelState::Pending, TunnelInput::Begin) => (
            moved(tunnel, TunnelState::Connecting),
            TunnelOutput::Connect,
        ),
        (TunnelState::Connecting, TunnelInput::Connected) => (
            moved(tunnel, TunnelState::Tunneling),
            TunnelOutput::Accept,
        ),
        (TunnelState::Connecting, TunnelInput::ConnectFailed(error)) => (
            moved(tunnel, TunnelState::Closed),
            TunnelOutput::Reject(error),
        ),
        (TunnelState::Tunneling, TunnelInput::Read(from, bytes)) => if bytes.len() == 0 {
            (
                moved(tunnel, TunnelState::Closed),
                TunnelOutput::Close { sent: tunnel.sent, received: tunnel.received },
            )
        } else {
            (relayed(tunnel, from, bytes.len()), TunnelOutput::Write(opposite(from), bytes))
        },
        (TunnelState::Tunneling, TunnelInput::Failed(_)) => (
            moved(tunnel, TunnelState::Closed),
            TunnelOutput::Close { sent: tunnel.sent, received: tunnel.received },
        ),
        _ => (tunnel, TunnelOutput::Idle),
    }
}

/// The action a tunnel asks for. Bytes to write are the bytes that were
/// read, borrowed and not copied.
#[derive(Debug, PartialEq, Eq)]
pub enum TunnelAction<'a> {
    Idle,
    Connect,
    Accept,
    Reject(SocksError),
    Write { to: Side, bytes: &'a [u8] },
    Close { sent: u64, received: u64 },
}

impl<'a> View for TunnelAction<'a> {
    type V = TunnelOutput;

    open spec fn view(&self) -> TunnelOutput {
        match *self {
            TunnelAction::Idle => TunnelOutput::Idle,
            TunnelAction::Connect => TunnelOutput::Connect,
            TunnelAction::Accept => TunnelOutput::Accept,
            TunnelAction::Reject(error) => TunnelOutput::Reject(error),
            TunnelAction::Write { to, bytes } => TunnelOutput::Write(to, bytes@),
            TunnelAction::Close { sent, received } => TunnelOutput::Close { sent, received },
        }
    }
}

impl<'a> TunnelAction<'a> {
    /// The response to answer the request with, if the action answers it.
    pub fn answer(&self) -> (response: Option<HttpResponse>)
        ensures
            answer_model(response) == tunnel_answer(self@),
    {
        match self {
            TunnelAction::Accept => Some(HttpResponse::established()),
            TunnelAction::Reject(error) => Some(error.response()),
            _ => None,
        }
    }
}

impl Side {
    pub fn other(self) -> (side: Side)
        ensures
            side == opposite(self),
    {
        match self {
            Side::Client => Side::Target,
            Side::Target => Side::Client,
        }
    }
}

/// Adds to a count without passing the largest number it can hold.
fn count_more(count: u64, more: usize) -> (sum: u64)
    ensures
        sum == counted(count, more as nat),
{
    let more: u64 = more as u64;
    if more > u64::MAX - count {
        u64::MAX
    } else {
        count + more
    }
}

/// The session of one tunnel.
#[derive(Debug)]
pub struct TunnelSession {
    state: TunnelState,
    target: TargetAddress,
    credential: Option<Auth>,
    sent: u64,
    received: u64,
}

impl View for TunnelSession {
    type V = TunnelModel;

    closed spec fn view(&self) -> TunnelModel {
        TunnelModel {
            state: self.state,
            target: self.target@,
            credential: credential_model(self.credential),
            sent: self.sent,
            received: self.received,
        }
    }
}

/// A tunnel that has not begun.
pub open spec fn pending_tunnel(target: TargetModel, credential: Option<(Seq<char>, Seq<char>)>)
    -> TunnelModel {
    TunnelModel { state: TunnelState::Pending, target, credential, sent: 0, received: 0 }
}

impl TunnelSession {
    /// A session for a request that was let through, to `target`, with the
    /// credential to present to the gateway.
    pub fn new(target: TargetAddress, credential: Option<Auth>) -> (session: Self)
        ensures
            session@ == pending_tunnel(target@, credential_model(credential)),
    {
        TunnelSession { state: TunnelState::Pending, target, credential, sent: 0, received: 0 }
    }

    pub fn state(&self) -> (state: TunnelState)
        ensures
            state == self@.state,
    {
        self.state
    }

    pub fn target(&self) -> (target: &TargetAddress)
        ensures
            target@ == self@.target,
    {
        &self.target
    }

    pub fn credential(&self) -> (credential: &Option<Auth>)
        ensures
            credential_model(*credential) == self@.credential,
    {
        &self.credential
    }

    /// Bytes passed from the client to the destination so far.
    pub fn sent(&self) -> (count: u64)
        ensures
            count == self@.sent,
    {
        self.sent
    }

    /// Bytes passed from the destination to the client so far.
    pub fn received(&self) -> (count: u64)
        ensures
            count == self@.received,
    {
        self.received
    }

    /// Starts the tunnel: asks for the connection through the gateway.
    pub fn begin(&mut self) -> (action: TunnelAction<'static>)
        ensures
            (final(self)@, action@) == tunnel_step(old(self)@, TunnelInput::Begin),
    {
        match self.state {
            TunnelState::Pending => {
                self.state = TunnelState::Connecting;
                TunnelAction::Connect
            },
            _ => TunnelAction::Idle,
        }
    }

    /// The gateway has connected to the destination.
    pub fn on_connected(&mut self) -> (action: TunnelAction<'static>)
        ensures
            (final(self)@, action@) == tunnel_step(old(self)@, TunnelInput::Connected),
    {
        match self.state {
            TunnelState::Connecting => {
                self.state = TunnelState::Tunneling;
                TunnelAction::Accept
            },
            _ => TunnelAction::Idle,
        }
    }

    /// The connection through the gateway failed.
    pub fn on_connect_failed(&mut self, error: SocksError) -> (action: TunnelAction<'static>)
        ensures
            (final(self)@, action@) == tunnel_step(old(self)@, TunnelInput::ConnectFailed(error)),
    {
        match self.state {
            TunnelState::Connecting => {
                self.state = TunnelState::Closed;
                TunnelAction::Reject(error)
            },
            _ => TunnelAction::Idle,
        }
    }

    /// A read on the end `from` returned `chunk`. An empty chunk means that
    /// end has closed.
    pub fn on_read<'a>(&mut self, from: Side, chunk: &'a [u8]) -> (action: TunnelAction<'a>)
        ensures
            (final(self)@, action@) == tunnel_step(old(self)@, TunnelInput::Read(from, chunk@)),
    {
        match self.state {
            TunnelState::Tunneling => {
                if chunk.len() == 0 {
                    self.state = TunnelState::Closed;
                    TunnelAction::Close { sent: self.sent, received: self.received }
                } else {
                    match from {
                        Side::Client => {
                            self.sent = count_more(self.sent, chunk.len());
                        },
                        Side::Target => {
                            self.received = count_more(self.received, chunk.len());
                        },
                    }
                    TunnelAction::Write { to: from.other(), bytes: chunk }
                }
            },
            _ => TunnelAction::Idle,
        }
    }

    /// A read or a write on the end `side` failed.
    pub fn on_failure(&mut self, side: Side) -> (action: TunnelAction<'static>)
        ensures
            (final(self)@, action@) == tunnel_step(old(self)@, TunnelInput::Failed(side)),
    {
        match self.state {
            TunnelState::Tunneling => {
                self.state = TunnelState::Closed;
                TunnelAction::Close { sent: self.sent, received: self.received }
            },
            _ => TunnelAction::Idle,
        }
    }
}

/// A tunnel after a run of events, with the actions it asked for, one for
/// each event, in order.
pub open spec fn tunnel_run(tunnel: TunnelModel, inputs: Seq<TunnelInput>) -> (
    TunnelModel,
    Seq<TunnelOutput>,
)
    decreases inputs.len(),
{
    if inputs.len() == 0 {
        (tunnel, Seq::empty())
    } else {
        let (before, outputs) = tunnel_run(tunnel, inputs.drop_last());
        let (after, output) = tunnel_step(before, inputs.last());
        (after, outputs.push(output))
    }
}

/// How far a tunnel has come; no event takes it back.
pub open spec fn progress(state: TunnelState) -> nat {
    match state {
        TunnelState::Pending => 0,
        TunnelState::Connecting => 1,
        TunnelState::Tunneling => 2,
        TunnelState::Closed => 3,
    }
}

/// Whether an action answers the request that asked for the tunnel.
pub open spec fn is_answer(output: TunnelOutput) -> bool {
    tunnel_answer(output) is Some
}

/// How many of the actions answer the request.
pub open spec fn answers(outputs: Seq<TunnelOutput>) -> nat
    decreases outputs.len(),
{
    if outputs.len() == 0 {
        0
    } else {
        answers(outputs.drop_last()) + if is_answer(outputs.last()) {
            1nat
        } else {
            0nat
        }
    }
}

/// Whether one of the actions accepts the request.
pub open spec fn accepted(outputs: Seq<TunnelOutput>) -> bool
    decreases outputs.len(),
{
    if outputs.len() == 0 {
        false
    } else {
        outputs.last() is Accept || accepted(outputs.drop_last())
    }
}

/// How many of the actions ask to close both ends.
pub open spec fn closes(outputs: Seq<TunnelOutput>) -> nat
    decreases outputs.len(),
{
    if outputs.len() == 0 {
        0
    } else {
        closes(outputs.drop_last()) + if outputs.last() is Close {
            1nat
        } else {
            0nat
        }
    }
}

/// The bytes of one event that were read from `from`.
pub open spec fn read_by(input: TunnelInput, from: Side) -> Seq<u8> {
    match input {
        TunnelInput::Read(side, bytes) => if side == from {
            bytes
        } else {
            Seq::empty()
        },
        _ => Seq::empty(),
    }
}

/// The bytes of one action that are written to `to`.
pub open spec fn written_by(output: TunnelOutput, to: Side) -> Seq<u8> {
    match output {
        TunnelOutput::Write(side, bytes) => if side == to {
            bytes
        } else {
            Seq::empty()
        },
        _ => Seq::empty(),
    }
}

/// All bytes read from `from` in a run of events, in order.
pub open spec fn bytes_read(inputs: Seq<TunnelInput>, from: Side) -> Seq<u8>
    decreases inputs.len(),
{
    if inputs.len() == 0 {
        Seq::empty()
    } else {
        bytes_read(inputs.drop_last(), from) + read_by(inputs.last(), from)
    }
}

/// All bytes written to `to` by a run of actions, in order.
pub open spec fn bytes_written(outputs: Seq<TunnelOutput>, to: Side) -> Seq<u8>
    decreases outputs.len(),
{
    if outputs.len() == 0 {
        Seq::empty()
    } else {
        bytes_written(outputs.drop_last(), to) + written_by(outputs.last(), to)
    }
}

/// A tunnel never goes back to an earlier state, and a run asks for one
/// action for each event.
pub proof fn tunnel_only_advances(tunnel: TunnelModel, inputs: Seq<TunnelInput>)
    ensures
        progress(tunnel.state) <= progress(tunnel_run(tunnel, inputs).0.state),
        tunnel_run(tunnel, inputs).1.len() == inputs.len(),
    decreases inputs.len(),
{
    if inputs.len() > 0 {
        tunnel_only_advances(tunnel, inputs.drop_last());
    }
}

/// A closed tunnel stays closed and asks for nothing, whatever is reported
/// to it: after it is closed nothing is read or written.
pub proof fn closed_is_final(tunnel: TunnelModel, inputs: Seq<TunnelInput>, i: int)
    requires
        tunnel.state == TunnelState::Closed,
        0 <= i < inputs.len(),
    ensures
        tunnel_run(tunnel, inputs).0 == tunnel,
        tunnel_run(tunnel, inputs).1.len() == inputs.len(),
        tunnel_run(tunnel, inputs).1[i] == TunnelOutput::Idle,
    decreases inputs.len(),
{
    tunnel_only_advances(tunnel, inputs);
    tunnel_only_advances(tunnel, inputs.drop_last());
    if inputs.len() > 1 {
        closed_is_final(tunnel, inputs.drop_last(), 0);
        if i < inputs.len() - 1 {
            closed_is_final(tunnel, inputs.drop_last(), i);
        }
    }
}

/// When either end closes or fails while bytes flow, the tunnel is closed at
/// once: the very next action is to close both ends, and the counts it
/// reports are those reached.
pub proof fn either_end_going_away_closes_the_tunnel(tunnel: TunnelModel, side: Side)
    requires
        tunnel.state == TunnelState::Tunneling,
    ensures
        tunnel_step(tunnel, TunnelInput::Read(side, Seq::empty())) == (
            moved(tunnel, TunnelState::Closed),
            TunnelOutput::Close { sent: tunnel.sent, received: tunnel.received },
        ),
        tunnel_step(tunnel, TunnelInput::Failed(side)) == (
            moved(tunnel, TunnelState::Closed),
            TunnelOutput::Close { sent: tunnel.sent, received: tunnel.received },
        ),
{
}

/// A request for a tunnel is answered `200` with an empty body where it is
/// accepted, and with a `5xx` status, `500` or `502`, where it is rejected.
pub proof fn answer_is_200_or_5xx(error: SocksError)
    ensures
        tunnel_answer(TunnelOutput::Accept) == Some(established()),
        established().status == 200,
        established().body == Seq::<char>::empty(),
        tunnel_answer(TunnelOutput::Reject(error)) == Some(failure_response(error)),
        failure_response(error).status == 500 || failure_response(error).status == 502,
{
}

/// The request is answered at most once: of all the actions of a run, at
/// most one accepts or rejects it. So a tunnel is never both accepted and
/// rejected, and `200` is never sent twice.
pub proof fn answered_at_most_once(tunnel: TunnelModel, inputs: Seq<TunnelInput>)
    ensures
        answers(tunnel_run(tunnel, inputs).1) <= 1,
        answers(tunnel_run(tunnel, inputs).1) == 1 ==> progress(
            tunnel_run(tunnel, inputs).0.state,
        ) >= 2,
        progress(tunnel.state) >= 2 ==> answers(tunnel_run(tunnel, inputs).1) == 0,
        accepted(tunnel_run(tunnel, inputs).1) ==> answers(tunnel_run(tunnel, inputs).1) == 1,
    decreases inputs.len(),
{
    if inputs.len() > 0 {
        let shorter = inputs.drop_last();
        answered_at_most_once(tunnel, shorter);
        tunnel_only_advances(tunnel, shorter);
        let before = tunnel_run(tunnel, shorter);
        let step = tunnel_step(before.0, inputs.last());
        assert(before.1.push(step.1).drop_last() =~= before.1);
    }
}

/// Both ends are released exactly once, on every way out, and only where a
/// stream through the gateway was obtained: a run from the start has asked
/// to close the two ends once if it accepted the request and has closed the
/// session, and not at all otherwise.
pub proof fn every_tunnel_is_closed_once(tunnel: TunnelModel, inputs: Seq<TunnelInput>)
    requires
        progress(tunnel.state) <= 1,
    ensures
        closes(tunnel_run(tunnel, inputs).1) == if accepted(tunnel_run(tunnel, inputs).1)
            && tunnel_run(tunnel, inputs).0.state == TunnelState::Closed {
            1nat
        } else {
            0nat
        },
        tunnel_run(tunnel, inputs).0.state == TunnelState::Tunneling ==> accepted(
            tunnel_run(tunnel, inputs).1,
        ),
        accepted(tunnel_run(tunnel, inputs).1) ==> progress(tunnel_run(tunnel, inputs).0.state)
            >= 2,
    decreases inputs.len(),
{
    if inputs.len() > 0 {
        let shorter = inputs.drop_last();
        every_tunnel_is_closed_once(tunnel, shorter);
        let before = tunnel_run(tunnel, shorter);
        let step = tunnel_step(before.0, inputs.last());
        assert(before.1.push(step.1).drop_last() =~= before.1);
    }
}

/// Bytes are written only to a tunnel that was accepted: a run from the
/// start that was never accepted has written nothing to either end.
pub proof fn writes_follow_acceptance(tunnel: TunnelModel, inputs: Seq<TunnelInput>, to: Side)
    requires
        progress(tunnel.state) <= 1,
    ensures
        !accepted(tunnel_run(tunnel, inputs).1) ==> bytes_written(
            tunnel_run(tunnel, inputs).1,
            to,
        ) == Seq::<u8>::empty(),
    decreases inputs.len(),
{
    if inputs.len() > 0 {
        let shorter = inputs.drop_last();
        writes_follow_acceptance(tunnel, shorter, to);
        every_tunnel_is_closed_once(tunnel, shorter);
        let before = tunnel_run(tunnel, shorter);
        let step = tunnel_step(before.0, inputs.last());
        assert(before.1.push(step.1).drop_last() =~= before.1);
        if !accepted(tunnel_run(tunnel, inputs).1) {
            assert(bytes_written(before.1, to) + written_by(step.1, to) =~= Seq::<u8>::empty());
        }
    }
}

/// The tunnel carries bytes exactly: what is written to one end is what was
/// read from the other, the same bytes in the same order, nothing added,
/// dropped or changed. While the tunnel stands, all that was read has been
/// passed on; once it is closed, nothing more is.
pub proof fn tunnel_is_byte_exact(tunnel: TunnelModel, inputs: Seq<TunnelInput>, to: Side)
    requires
        tunnel.state == TunnelState::Tunneling,
    ensures
        bytes_written(tunnel_run(tunnel, inputs).1, to).is_prefix_of(
            bytes_read(inputs, opposite(to)),
        ),
        tunnel_run(tunnel, inputs).0.state == TunnelState::Tunneling ==> bytes_written(
            tunnel_run(tunnel, inputs).1,
            to,
        ) == bytes_read(inputs, opposite(to)),
    decreases inputs.len(),
{
    if inputs.len() > 0 {
        let shorter = inputs.drop_last();
        tunnel_is_byte_exact(tunnel, shorter, to);
        tunnel_only_advances(tunnel, shorter);
        let before = tunnel_run(tunnel, shorter);
        let step = tunnel_step(before.0, inputs.last());
        assert(before.1.push(step.1).drop_last() =~= before.1);
        let written = bytes_written(before.1, to);
        let read = bytes_read(shorter, opposite(to));
        if before.0.state == TunnelState::Tunneling {
            assert(written_by(step.1, to) =~= read_by(inputs.last(), opposite(to)));
        } else {
            assert(written + written_by(step.1, to) =~= written);
            assert(written.is_prefix_of(read + read_by(inputs.last(), opposite(to))));
        }
    } else {
        assert(bytes_written(tunnel_run(tunnel, inputs).1, to) =~= bytes_read(
            inputs,
            opposite(to),
        ));
    }
}

/// The counts are the bytes passed on: after a run, each count is the count
/// before it and the number of bytes written to the end it counts for.
pub proof fn counts_are_bytes_written(tunnel: TunnelModel, inputs: Seq<TunnelInput>)
    ensures
        tunnel_run(tunnel, inputs).0.sent == counted(
            tunnel.sent,
            bytes_written(tunnel_run(tunnel, inputs).1, Side::Target).len(),
        ),
        tunnel_run(tunnel, inputs).0.received == counted(
            tunnel.received,
            bytes_written(tunnel_run(tunnel, inputs).1, Side::Client).len(),
        ),
    decreases inputs.len(),
{
    if inputs.len() > 0 {
        let shorter = inputs.drop_last();
        counts_are_bytes_written(tunnel, shorter);
        let before = tunnel_run(tunnel, shorter);
        let step = tunnel_step(before.0, inputs.last());
        assert(before.1.push(step.1).drop_last() =~= before.1);
    }
}

} // verus!
