use tfserver::connection::{
    after_reply, has_payload, is_disconnect, on_read, read_failure, ws_after_reply,
    ws_heartbeat_sent, ws_on_meta, ws_on_payload, ws_reaction, AfterReply, ConnectionAction,
    ConnectionState, ReadOutcome, StreamErrorKind, WsMessage, WsReaction, WsReadError, WsStep,
};
use tfserver::s_type::{to_vec, PacketMeta, SystemSType};

fn header(has_payload: bool) -> Vec<u8> {
    to_vec(&PacketMeta { s_type: SystemSType::PacketMeta, s_type_req: 1, handler_id: 0, has_payload }).unwrap()
}

#[test]
fn disconnect_kinds() {
    assert!(is_disconnect(StreamErrorKind::ConnectionReset));
    assert!(is_disconnect(StreamErrorKind::ConnectionAborted));
    assert!(is_disconnect(StreamErrorKind::BrokenPipe));
    assert!(is_disconnect(StreamErrorKind::UnexpectedEof));
    assert!(!is_disconnect(StreamErrorKind::InvalidData));
    assert!(!is_disconnect(StreamErrorKind::Other));
    assert!(matches!(read_failure(None), ReadOutcome::Fatal));
    assert!(matches!(read_failure(Some(StreamErrorKind::InvalidData)), ReadOutcome::Recoverable));
}

#[test]
fn header_with_payload_waits_for_it() {
    let meta = header(true);
    assert!(has_payload(&meta));
    let (state, action) = on_read(ConnectionState::AwaitMeta, ReadOutcome::Frame(meta.clone()));
    assert!(matches!(action, ConnectionAction::ReadNext));
    let (state, action) = on_read(state, ReadOutcome::Frame(vec![7, 8]));
    assert!(matches!(state, ConnectionState::AwaitMeta));
    match action {
        ConnectionAction::Serve { meta: m, payload } => {
            assert_eq!(m, meta);
            assert_eq!(payload, vec![7, 8]);
        }
        _ => panic!("expected a request to serve"),
    }
}

#[test]
fn header_without_payload_is_served_at_once() {
    let meta = header(false);
    assert!(!has_payload(&meta));
    match on_read(ConnectionState::AwaitMeta, ReadOutcome::Frame(meta.clone())).1 {
        ConnectionAction::Serve { meta: m, payload } => {
            assert_eq!(m, meta);
            assert!(payload.is_empty());
        }
        _ => panic!("expected a request to serve"),
    }
    // Bytes that are no header are served as they are, without a payload.
    assert!(matches!(
        on_read(ConnectionState::AwaitMeta, ReadOutcome::Frame(vec![1])).1,
        ConnectionAction::Serve { .. }
    ));
}

#[test]
fn failures_close_or_skip() {
    assert!(matches!(on_read(ConnectionState::AwaitMeta, ReadOutcome::Fatal).1, ConnectionAction::Close));
    let (state, action) = on_read(ConnectionState::AwaitPayload { meta: header(true) }, ReadOutcome::Recoverable);
    assert!(matches!(state, ConnectionState::AwaitMeta));
    assert!(matches!(action, ConnectionAction::ReadNext));
    assert!(matches!(
        on_read(ConnectionState::AwaitPayload { meta: header(true) }, ReadOutcome::Nothing).1,
        ConnectionAction::Close
    ));
    assert!(matches!(on_read(ConnectionState::AwaitMeta, ReadOutcome::Nothing).1, ConnectionAction::ReadNext));
}

#[test]
fn what_follows_a_reply() {
    assert_eq!(after_reply(true, true), AfterReply::Handover);
    assert_eq!(after_reply(false, true), AfterReply::Handover);
    assert_eq!(after_reply(false, false), AfterReply::Close);
    assert_eq!(after_reply(true, false), AfterReply::Continue);
}

#[test]
fn websocket_reactions() {
    match ws_reaction(Ok(WsMessage::Binary(vec![3]))) {
        WsReaction::Deliver(data) => assert_eq!(data, vec![3]),
        _ => panic!("expected a delivery"),
    }
    assert!(matches!(ws_reaction(Ok(WsMessage::Ping)), WsReaction::SendPong));
    assert!(matches!(ws_reaction(Ok(WsMessage::Pong)), WsReaction::SendPing));
    assert!(matches!(ws_reaction(Ok(WsMessage::Text)), WsReaction::Drop));
    assert!(matches!(ws_reaction(Ok(WsMessage::Close)), WsReaction::Drop));
    assert!(matches!(ws_reaction(Ok(WsMessage::Frame)), WsReaction::Drop));
    assert!(matches!(ws_reaction(Err(WsReadError::Io)), WsReaction::Idle));
    assert!(matches!(ws_reaction(Err(WsReadError::ConnectionClosed)), WsReaction::Drop));
    assert!(matches!(ws_reaction(Err(WsReadError::Protocol)), WsReaction::Drop));
    assert!(matches!(ws_heartbeat_sent(true), WsReaction::Idle));
    assert!(matches!(ws_heartbeat_sent(false), WsReaction::Drop));
}

#[test]
fn websocket_turn() {
    assert!(matches!(ws_on_meta(Err(())), WsStep::Stop));
    assert!(matches!(ws_on_meta(Ok(None)), WsStep::Release));
    assert!(matches!(ws_on_meta(Ok(Some(header(true)))), WsStep::ReadPayload { .. }));
    assert!(matches!(ws_on_meta(Ok(Some(header(false)))), WsStep::Serve { .. }));
    assert!(matches!(ws_on_payload(header(true), Err(())), WsStep::Release));
    assert!(matches!(ws_on_payload(header(true), Ok(None)), WsStep::Close));
    match ws_on_payload(header(true), Ok(Some(vec![4]))) {
        WsStep::Serve { payload, .. } => assert_eq!(payload, vec![4]),
        _ => panic!("expected a request to serve"),
    }
    assert!(matches!(ws_after_reply(true), WsStep::Release));
    assert!(matches!(ws_after_reply(false), WsStep::Close));
}
