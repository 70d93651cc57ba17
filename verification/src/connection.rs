//! The decisions a server takes for one connection: what a failed read means, when a
//! request is complete, and what follows a reply.  The caller does the reading and sending
//! and hands each outcome to these functions.
use vstd::prelude::*;
use crate::util::{generate_random_u8_vec, random_len};
use crate::s_type::{
    accepts, from_slice, packet_meta_wire, read_packet_meta, wire_roundtrip, PacketMeta, SystemSType,
};

verus! {

// ---------------------------------------------------------------------------------------
// Framed streams.
// ---------------------------------------------------------------------------------------

/// The kind of a failed read from a framed stream.
#[derive(PartialEq, Eq, Structural, Clone, Copy, Debug)]
pub enum StreamErrorKind {
    ConnectionReset,
    ConnectionAborted,
    BrokenPipe,
    UnexpectedEof,
    /// A frame over the codec's size limit, among others.
    InvalidData,
    Other,
}

/// What one read from a framed stream gave.
pub enum ReadOutcome {
    /// A frame, after the traffic processors.
    Frame(Vec<u8>),
    /// The peer is gone.
    Fatal,
    /// This frame is lost, the connection is not.
    Recoverable,
    /// Nothing to hand on this time.
    Nothing,
}

/// Whether a failed read means that the peer is gone: a reset, aborted or broken
/// connection, or an unexpected end of the stream.  Other failures lose one frame only.
pub fn is_disconnect(kind: StreamErrorKind) -> (b: bool)
    ensures
        b <==> (kind == StreamErrorKind::ConnectionReset || kind == StreamErrorKind::ConnectionAborted
            || kind == StreamErrorKind::BrokenPipe || kind == StreamErrorKind::UnexpectedEof),
{
    match kind {
        StreamErrorKind::ConnectionReset
        | StreamErrorKind::ConnectionAborted
        | StreamErrorKind::BrokenPipe
        | StreamErrorKind::UnexpectedEof => true,
        StreamErrorKind::InvalidData | StreamErrorKind::Other => false,
    }
}

/// The outcome of a read that failed with `kind`; a stream that ended reads as a failure
/// the peer caused.
pub fn read_failure(kind: Option<StreamErrorKind>) -> (r: ReadOutcome)
    ensures
        match kind {
            None => r is Fatal,
            Some(k) => if (k == StreamErrorKind::ConnectionReset || k
                == StreamErrorKind::ConnectionAborted || k == StreamErrorKind::BrokenPipe || k
                == StreamErrorKind::UnexpectedEof) {
                r is Fatal
            } else {
                r is Recoverable
            },
        },
{
    match kind {
        None => ReadOutcome::Fatal,
        Some(k) => if is_disconnect(k) {
            ReadOutcome::Fatal
        } else {
            ReadOutcome::Recoverable
        },
    }
}

/// Where a connection stands between reads.
pub enum ConnectionState {
    /// The next frame is a request header.
    AwaitMeta,
    /// The header was read and announced a payload, which is the next frame.
    AwaitPayload { meta: Vec<u8> },
}

/// What the server does next on a connection.
pub enum ConnectionAction {
    /// Read the next frame.
    ReadNext,
    /// Close the connection.
    Close,
    /// Serve the request made of this header and payload, then send the reply.
    Serve { meta: Vec<u8>, payload: Vec<u8> },
}

/// [`ReadOutcome`] as a mathematical value.
pub enum ReadOutcomeView {
    Frame(Seq<u8>),
    Fatal,
    Recoverable,
    Nothing,
}

impl View for ReadOutcome {
    type V = ReadOutcomeView;

    open spec fn view(&self) -> ReadOutcomeView {
        match self {
            ReadOutcome::Frame(f) => ReadOutcomeView::Frame(f@),
            ReadOutcome::Fatal => ReadOutcomeView::Fatal,
            ReadOutcome::Recoverable => ReadOutcomeView::Recoverable,
            ReadOutcome::Nothing => ReadOutcomeView::Nothing,
        }
    }
}

/// [`ConnectionState`] as a mathematical value.
pub enum ConnectionStateView {
    AwaitMeta,
    AwaitPayload { meta: Seq<u8> },
}

impl View for ConnectionState {
    type V = ConnectionStateView;

    open spec fn view(&self) -> ConnectionStateView {
        match self {
            ConnectionState::AwaitMeta => ConnectionStateView::AwaitMeta,
            ConnectionState::AwaitPayload { meta } => ConnectionStateView::AwaitPayload { meta: meta@ },
        }
    }
}

/// [`ConnectionAction`] as a mathematical value.
pub enum ConnectionActionView {
    ReadNext,
    Close,
    Serve { meta: Seq<u8>, payload: Seq<u8> },
}

impl View for ConnectionAction {
    type V = ConnectionActionView;

    open spec fn view(&self) -> ConnectionActionView {
        match self {
            ConnectionAction::ReadNext => ConnectionActionView::ReadNext,
            ConnectionAction::Close => ConnectionActionView::Close,
            ConnectionAction::Serve { meta, payload } => ConnectionActionView::Serve { meta: meta@, payload: payload@ },
        }
    }
}

/// The next state and action of a connection after a read, as [`on_read`] takes them.
pub open spec fn spec_on_read(state: ConnectionStateView, outcome: ReadOutcomeView) -> (ConnectionStateView, ConnectionActionView) {
    match outcome {
        ReadOutcomeView::Fatal => (ConnectionStateView::AwaitMeta, ConnectionActionView::Close),
        ReadOutcomeView::Recoverable => (ConnectionStateView::AwaitMeta, ConnectionActionView::ReadNext),
        ReadOutcomeView::Nothing => match state {
            ConnectionStateView::AwaitMeta => (ConnectionStateView::AwaitMeta, ConnectionActionView::ReadNext),
            ConnectionStateView::AwaitPayload { .. } => (ConnectionStateView::AwaitMeta, ConnectionActionView::Close),
        },
        ReadOutcomeView::Frame(f) => match state {
            ConnectionStateView::AwaitMeta => if announces_payload(f) {
                (ConnectionStateView::AwaitPayload { meta: f }, ConnectionActionView::ReadNext)
            } else {
                (ConnectionStateView::AwaitMeta, ConnectionActionView::Serve { meta: f, payload: Seq::empty() })
            },
            ConnectionStateView::AwaitPayload { meta } => (
                ConnectionStateView::AwaitMeta,
                ConnectionActionView::Serve { meta, payload: f },
            ),
        },
    }
}

/// Whether a header announces a payload: it must be a request header that says so.
pub open spec fn announces_payload(meta: Seq<u8>) -> bool {
    accepts::<PacketMeta>(meta) && read_packet_meta(meta).unwrap().0.has_payload
}

/// Whether a header announces a payload.
pub fn has_payload(meta: &[u8]) -> (b: bool)
    ensures
        b == announces_payload(meta@),
{
    match from_slice::<PacketMeta>(meta) {
        Ok(m) => m.has_payload,
        Err(_) => false,
    }
}

/// The next state and action of a connection after a read.  A header that announces a
/// payload waits for the next frame; any other header is served with an empty payload.  A
/// lost frame is skipped, which drops a header that waited for its payload.  The peer
/// leaving closes the connection, and so does a missing payload.
pub fn on_read(state: ConnectionState, outcome: ReadOutcome) -> (r: (ConnectionState, ConnectionAction))
    ensures
        (r.0@, r.1@) == spec_on_read(state@, outcome@),
        match outcome {
            ReadOutcome::Fatal => r.0 is AwaitMeta && r.1 is Close,
            ReadOutcome::Recoverable => r.0 is AwaitMeta && r.1 is ReadNext,
            ReadOutcome::Nothing => match state {
                ConnectionState::AwaitMeta => r.0 is AwaitMeta && r.1 is ReadNext,
                ConnectionState::AwaitPayload { .. } => r.0 is AwaitMeta && r.1 is Close,
            },
            ReadOutcome::Frame(f) => match state {
                ConnectionState::AwaitMeta => if announces_payload(f@) {
                    r.0 matches ConnectionState::AwaitPayload { meta } && meta@ == f@ && r.1 is ReadNext
                } else {
                    r.0 is AwaitMeta && (r.1 matches ConnectionAction::Serve { meta, payload }
                        && meta@ == f@ && payload@.len() == 0)
                },
                ConnectionState::AwaitPayload { meta: m } => r.0 is AwaitMeta && (r.1 matches ConnectionAction::Serve { meta, payload }
                    && meta@ == m@ && payload@ == f@),
            },
        },
{
    match outcome {
        ReadOutcome::Fatal => (ConnectionState::AwaitMeta, ConnectionAction::Close),
        ReadOutcome::Recoverable => (ConnectionState::AwaitMeta, ConnectionAction::ReadNext),
        ReadOutcome::Nothing => match state {
            ConnectionState::AwaitMeta => (ConnectionState::AwaitMeta, ConnectionAction::ReadNext),
            ConnectionState::AwaitPayload { .. } => (ConnectionState::AwaitMeta, ConnectionAction::Close),
        },
        ReadOutcome::Frame(frame) => match state {
            ConnectionState::AwaitMeta => if has_payload(frame.as_slice()) {
                (ConnectionState::AwaitPayload { meta: frame }, ConnectionAction::ReadNext)
            } else {
                (ConnectionState::AwaitMeta, ConnectionAction::Serve { meta: frame, payload: Vec::new() })
            },
            ConnectionState::AwaitPayload { meta } => (
                ConnectionState::AwaitMeta,
                ConnectionAction::Serve { meta, payload: frame },
            ),
        },
    }
}

/// What follows a reply.
#[derive(PartialEq, Eq, Structural, Clone, Copy, Debug)]
pub enum AfterReply {
    /// A handler asked for the connection: hand it over.
    Handover,
    /// Sending failed: close the connection.
    Close,
    /// Read the next request.
    Continue,
}

/// What follows a reply, as [`after_reply`] decides it.
pub open spec fn spec_after_reply(sent: bool, move_requested: bool) -> AfterReply {
    if move_requested {
        AfterReply::Handover
    } else if !sent {
        AfterReply::Close
    } else {
        AfterReply::Continue
    }
}

/// What follows a reply: a handler that asked for the stream gets it, even when the reply
/// was not sent; otherwise a failed send closes the connection.
pub fn after_reply(sent: bool, move_requested: bool) -> (r: AfterReply)
    ensures
        r == spec_after_reply(sent, move_requested),
        move_requested ==> r == AfterReply::Handover,
        !move_requested && !sent ==> r == AfterReply::Close,
        !move_requested && sent ==> r == AfterReply::Continue,
{
    if move_requested {
        AfterReply::Handover
    } else if !sent {
        AfterReply::Close
    } else {
        AfterReply::Continue
    }
}

// ---------------------------------------------------------------------------------------
// WebSocket streams.
// ---------------------------------------------------------------------------------------

/// A message read from a WebSocket.
pub enum WsMessage {
    Text,
    Binary(Vec<u8>),
    Ping,
    Pong,
    Close,
    Frame,
}

/// The kind of a failed read from a WebSocket.
#[derive(PartialEq, Eq, Structural, Clone, Copy, Debug)]
pub enum WsReadError {
    ConnectionClosed,
    AlreadyClosed,
    Io,
    Tls,
    Capacity,
    Protocol,
    WriteBufferFull,
    Utf8,
    AttackAttempt,
    Url,
    Http,
    HttpFormat,
}

/// What to do with what a read from a WebSocket gave.
pub enum WsReaction {
    /// Hand these bytes on.
    Deliver(Vec<u8>),
    /// Answer a ping with a pong of random bytes.
    SendPong,
    /// Answer a pong with a ping of random bytes.
    SendPing,
    /// Nothing to hand on this time.
    Idle,
    /// Close the socket and forget the connection.
    Drop,
}

/// What to do with a read from a WebSocket: binary messages are handed on; pings and pongs
/// are answered; a failed read at the I/O level waits for the next one; text, close and raw
/// frames, and every other failure, end the connection.
pub fn ws_reaction(read: Result<WsMessage, WsReadError>) -> (r: WsReaction)
    ensures
        match read {
            Ok(WsMessage::Binary(b)) => r matches WsReaction::Deliver(d) && d@ == b@,
            Ok(WsMessage::Ping) => r is SendPong,
            Ok(WsMessage::Pong) => r is SendPing,
            Ok(_) => r is Drop,
            Err(WsReadError::Io) => r is Idle,
            Err(_) => r is Drop,
        },
{
    match read {
        Ok(WsMessage::Binary(data)) => WsReaction::Deliver(data),
        Ok(WsMessage::Ping) => WsReaction::SendPong,
        Ok(WsMessage::Pong) => WsReaction::SendPing,
        Ok(WsMessage::Text) | Ok(WsMessage::Close) | Ok(WsMessage::Frame) => WsReaction::Drop,
        Err(WsReadError::Io) => WsReaction::Idle,
        Err(_) => WsReaction::Drop,
    }
}

/// The body of a ping or pong the server answers with: between 1 and 123 random bytes,
/// each below 255.
pub fn heartbeat_payload() -> (r: Vec<u8>)
    ensures
        1 <= r@.len() < 124,
        forall|i: int| 0 <= i < r@.len() ==> #[trigger] r@[i] < 255,
{
    let len = random_len(1, 124);
    generate_random_u8_vec(len)
}

/// What follows answering a ping or pong: nothing to hand on if it was sent, otherwise the
/// connection ends.
pub fn ws_heartbeat_sent(sent: bool) -> (r: WsReaction)
    ensures
        sent ==> r is Idle,
        !sent ==> r is Drop,
{
    if sent {
        WsReaction::Idle
    } else {
        WsReaction::Drop
    }
}

/// What a WebSocket connection's turn does next.
pub enum WsStep {
    /// Read the payload announced by this header.
    ReadPayload { meta: Vec<u8> },
    /// Serve this request and send the reply.
    Serve { meta: Vec<u8>, payload: Vec<u8> },
    /// End the turn; the connection may be picked up again.
    Release,
    /// End the turn; the connection is already gone.
    Stop,
    /// Close the socket and forget the connection.
    Close,
}

/// The step after reading a header in a WebSocket connection's turn (`Ok(None)` when there
/// was nothing to hand on, `Err` when the connection ended).
pub fn ws_on_meta(read: Result<Option<Vec<u8>>, ()>) -> (r: WsStep)
    ensures
        match read {
            Err(_) => r is Stop,
            Ok(None) => r is Release,
            Ok(Some(m)) => if announces_payload(m@) {
                r matches WsStep::ReadPayload { meta } && meta@ == m@
            } else {
                r matches WsStep::Serve { meta, payload } && meta@ == m@ && payload@.len() == 0
            },
        },
{
    match read {
        Err(_) => WsStep::Stop,
        Ok(None) => WsStep::Release,
        Ok(Some(meta)) => if has_payload(meta.as_slice()) {
            WsStep::ReadPayload { meta }
        } else {
            WsStep::Serve { meta, payload: Vec::new() }
        },
    }
}

/// The step after reading the payload of `meta`.
pub fn ws_on_payload(meta: Vec<u8>, read: Result<Option<Vec<u8>>, ()>) -> (r: WsStep)
    ensures
        match read {
            Err(_) => r is Release,
            Ok(None) => r is Close,
            Ok(Some(p)) => r matches WsStep::Serve { meta: m, payload } && m@ == meta@ && payload@
                == p@,
        },
{
    match read {
        Err(_) => WsStep::Release,
        Ok(None) => WsStep::Close,
        Ok(Some(payload)) => WsStep::Serve { meta, payload },
    }
}

/// The step after sending a reply on a WebSocket.
pub fn ws_after_reply(sent: bool) -> (r: WsStep)
    ensures
        sent ==> r is Release,
        !sent ==> r is Close,
{
    if sent {
        WsStep::Release
    } else {
        WsStep::Close
    }
}


/// Requests on a connection are served in order, one reply each.  Waiting for a header, a
/// header frame that announces no payload is served at once with an empty payload; one that
/// announces a payload is served with exactly the next frame as its payload.  Either way the
/// connection then waits for the next header, and after a reply that was sent, with no
/// handler asking for the stream, it reads on: the reply goes out before the next header is
/// read.
pub proof fn requests_served_in_order(meta: Seq<u8>, next: Seq<u8>)
    ensures
        !announces_payload(meta) ==> spec_on_read(ConnectionStateView::AwaitMeta, ReadOutcomeView::Frame(meta))
            == (ConnectionStateView::AwaitMeta, ConnectionActionView::Serve { meta, payload: Seq::empty() }),
        announces_payload(meta) ==> spec_on_read(ConnectionStateView::AwaitMeta, ReadOutcomeView::Frame(meta))
            == (ConnectionStateView::AwaitPayload { meta }, ConnectionActionView::ReadNext),
        spec_on_read(ConnectionStateView::AwaitPayload { meta }, ReadOutcomeView::Frame(next))
            == (ConnectionStateView::AwaitMeta, ConnectionActionView::Serve { meta, payload: next }),
        spec_after_reply(true, false) == AfterReply::Continue,
{
}

/// A server waits for a payload after a request header exactly when the header says one
/// follows; so the header a client writes for a non-empty payload keeps the server reading,
/// and the header for an empty one is served at once.
pub proof fn payload_announcement(m: PacketMeta, tail: Seq<u8>)
    requires
        m.s_type == SystemSType::PacketMeta,
    ensures
        announces_payload(packet_meta_wire(m) + tail) == m.has_payload,
{
    wire_roundtrip::<PacketMeta>(m, tail);
}

} // verus!
