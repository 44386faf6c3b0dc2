use libp2p_streaming::{
    InboundStreamId, NetworkAction, OutboundFailure, OutboundStreamId, PeerKey, Streaming, StreamingError,
    StreamingEvent, StreamingProtocolsHandler, StreamingProtocolsHandlerEvent,
};

fn peer(byte: u8) -> PeerKey {
    PeerKey::from_bytes(vec![0, 1, byte])
}

#[test]
fn open_stream_to_unconnected_peer_is_refused() {
    let mut streaming: Streaming<&'static str> = Streaming::default();
    match streaming.open_stream(peer(1)) {
        Err(StreamingError::NotConnected(p)) => assert_eq!(p.to_bytes(), vec![0, 1, 1]),
        Ok(id) => panic!("opened {:?} to an unconnected peer", id),
    }
    assert!(streaming.poll().is_none());
}

#[test]
fn open_stream_hands_out_consecutive_ids() {
    let mut streaming: Streaming<&'static str> = Streaming::default();
    streaming.inject_connected(&peer(1));
    let first = streaming.open_stream(peer(1)).unwrap();
    let second = streaming.open_stream(peer(1)).unwrap();
    assert_eq!(first, OutboundStreamId::default());
    assert_ne!(first, second);
    assert_eq!(format!("{:?}", first), "OutboundStreamId(0)");
    assert_eq!(format!("{:?}", second), "OutboundStreamId(1)");
}

#[test]
fn open_stream_notifies_a_handler_of_the_peer() {
    let mut streaming: Streaming<&'static str> = Streaming::default();
    streaming.inject_connected(&peer(7));
    let id = streaming.open_stream(peer(7)).unwrap();
    match streaming.poll() {
        Some(NetworkAction::NotifyHandler { peer_id, event }) => {
            assert_eq!(peer_id.to_bytes(), vec![0, 1, 7]);
            assert_eq!(event, id);
        }
        other => panic!("unexpected action {:?}", other),
    }
    assert!(streaming.poll().is_none());
}

#[test]
fn refused_open_stream_uses_no_id() {
    let mut streaming: Streaming<&'static str> = Streaming::default();
    streaming.inject_connected(&peer(1));
    assert!(streaming.open_stream(peer(2)).is_err());
    let id = streaming.open_stream(peer(1)).unwrap();
    assert_eq!(id, OutboundStreamId::default());
}

#[test]
fn disconnected_peer_is_refused() {
    let mut streaming: Streaming<&'static str> = Streaming::default();
    streaming.inject_connected(&peer(3));
    assert!(streaming.is_connected(&peer(3)));
    streaming.inject_disconnected(&peer(3));
    assert!(!streaming.is_connected(&peer(3)));
    match streaming.open_stream(peer(3)) {
        Err(StreamingError::NotConnected(p)) => assert_eq!(p.to_bytes(), vec![0, 1, 3]),
        Ok(id) => panic!("opened {:?} to a disconnected peer", id),
    }
}

#[test]
fn connecting_twice_then_disconnecting_once_forgets_the_peer() {
    let mut streaming: Streaming<&'static str> = Streaming::default();
    streaming.inject_connected(&peer(4));
    streaming.inject_connected(&peer(4));
    streaming.inject_disconnected(&peer(4));
    assert!(!streaming.is_connected(&peer(4)));
}

#[test]
fn fresh_behaviour_has_ids_left() {
    let streaming: Streaming<&'static str> = Streaming::default();
    assert!(!streaming.stream_ids_exhausted());
}

#[test]
fn handler_events_are_reported_with_the_peer() {
    let mut streaming: Streaming<&'static str> = Streaming::default();
    let handler: StreamingProtocolsHandler<&'static str, ()> = streaming.new_handler();
    let (inbound, _timeout_ms): (InboundStreamId, u64) = handler.listen_protocol();
    streaming.inject_event(
        peer(5),
        StreamingProtocolsHandlerEvent::NewIncoming { id: inbound, stream: "in" },
    );
    streaming.inject_event(
        peer(6),
        StreamingProtocolsHandlerEvent::StreamOpened { id: OutboundStreamId::default(), stream: "out" },
    );
    match streaming.poll() {
        Some(NetworkAction::GenerateEvent(StreamingEvent::NewIncoming { peer_id, id, stream })) => {
            assert_eq!(peer_id.to_bytes(), vec![0, 1, 5]);
            assert_eq!(id, inbound);
            assert_eq!(stream, "in");
        }
        other => panic!("unexpected action {:?}", other),
    }
    match streaming.poll() {
        Some(NetworkAction::GenerateEvent(StreamingEvent::StreamOpened { peer_id, id, stream })) => {
            assert_eq!(peer_id.to_bytes(), vec![0, 1, 6]);
            assert_eq!(id, OutboundStreamId::default());
            assert_eq!(stream, "out");
        }
        other => panic!("unexpected action {:?}", other),
    }
    assert!(streaming.poll().is_none());
}

#[test]
fn actions_come_out_in_the_order_they_were_queued() {
    let mut streaming: Streaming<u32> = Streaming::default();
    streaming.inject_connected(&peer(1));
    let a = streaming.open_stream(peer(1)).unwrap();
    streaming.inject_event(
        peer(1),
        StreamingProtocolsHandlerEvent::StreamOpened { id: a, stream: 10 },
    );
    let b = streaming.open_stream(peer(1)).unwrap();
    assert!(matches!(streaming.poll(), Some(NetworkAction::NotifyHandler { event, .. }) if event == a));
    assert!(matches!(
        streaming.poll(),
        Some(NetworkAction::GenerateEvent(StreamingEvent::StreamOpened { id, stream: 10, .. })) if id == a
    ));
    assert!(matches!(streaming.poll(), Some(NetworkAction::NotifyHandler { event, .. }) if event == b));
    assert!(streaming.poll().is_none());
}

#[test]
fn a_long_queue_drains_completely() {
    let mut streaming: Streaming<u32> = Streaming::default();
    for i in 0..300u32 {
        streaming.inject_event(
            peer(1),
            StreamingProtocolsHandlerEvent::StreamOpened { id: OutboundStreamId::default(), stream: i },
        );
    }
    for i in 0..300u32 {
        match streaming.poll() {
            Some(NetworkAction::GenerateEvent(StreamingEvent::StreamOpened { stream, .. })) => {
                assert_eq!(stream, i)
            }
            other => panic!("unexpected action {:?}", other),
        }
    }
    assert!(streaming.poll().is_none());
    streaming.inject_event(
        peer(1),
        StreamingProtocolsHandlerEvent::StreamOpened { id: OutboundStreamId::default(), stream: 7 },
    );
    assert!(matches!(
        streaming.poll(),
        Some(NetworkAction::GenerateEvent(StreamingEvent::StreamOpened { stream: 7, .. }))
    ));
}

#[test]
fn outbound_failures_compare_by_kind() {
    let t = OutboundFailure::Timeout;
    assert_eq!(t.clone(), OutboundFailure::Timeout);
    assert_ne!(OutboundFailure::ConnectionClosed, OutboundFailure::UnsupportedProtocols);
}
