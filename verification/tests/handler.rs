use libp2p_streaming::{
    HandlerOutput, InboundStreamId, NetworkAction, OutboundStreamId, PeerKey, Streaming,
    StreamingProtocol, StreamingProtocolsHandler, StreamingProtocolsHandlerEvent, UpgradeError,
};

fn handler() -> (Streaming<&'static str>, StreamingProtocolsHandler<&'static str, String>) {
    let mut streaming: Streaming<&'static str> = Streaming::default();
    let handler = streaming.new_handler();
    (streaming, handler)
}

fn outbound_ids(n: usize) -> Vec<OutboundStreamId> {
    let mut streaming: Streaming<&'static str> = Streaming::default();
    let peer = PeerKey::from_bytes(vec![1]);
    streaming.inject_connected(&peer);
    (0..n).map(|_| streaming.open_stream(peer.clone()).unwrap()).collect()
}

#[test]
fn protocol_name_is_streaming_raw() {
    let name = StreamingProtocol.protocol_info();
    assert_eq!(name, b"/streaming/raw/1.0.0".to_vec());
    assert_eq!(name[0], b'/');
}

#[test]
fn fresh_handler_has_nothing_to_do_and_keeps_alive() {
    let (_, mut h) = handler();
    assert!(h.poll().is_none());
    assert!(h.connection_keep_alive());
}

#[test]
fn inbound_ids_count_up_across_handlers() {
    let mut streaming: Streaming<&'static str> = Streaming::default();
    let h1: StreamingProtocolsHandler<&'static str, ()> = streaming.new_handler();
    let h2: StreamingProtocolsHandler<&'static str, ()> = streaming.new_handler();
    let (a, _) = h1.listen_protocol();
    let (b, _) = h2.listen_protocol();
    let (c, _) = h1.listen_protocol();
    assert_eq!(a, InboundStreamId::default());
    assert_eq!(format!("{:?}", b), "InboundStreamId(1)");
    assert_eq!(format!("{:?}", c), "InboundStreamId(2)");
    assert_ne!(a, b);
    assert_ne!(b, c);
}

#[test]
fn requested_substream_carries_id_and_timeout() {
    let (_, mut h) = handler();
    let ids = outbound_ids(2);
    h.inject_event(ids[0]);
    h.inject_event(ids[1]);
    assert!(h.connection_keep_alive());
    match h.poll() {
        Some(HandlerOutput::OutboundSubstreamRequest { info, timeout_ms }) => {
            assert_eq!(info, ids[0]);
            assert_eq!(timeout_ms, 500);
        }
        other => panic!("unexpected output {:?}", other),
    }
    assert!(matches!(
        h.poll(),
        Some(HandlerOutput::OutboundSubstreamRequest { info, timeout_ms: 500 }) if info == ids[1]
    ));
    assert!(h.poll().is_none());
}

#[test]
fn negotiated_substreams_are_reported() {
    let (_, mut h) = handler();
    let (inbound, _) = h.listen_protocol();
    let ids = outbound_ids(1);
    h.inject_fully_negotiated_inbound("in", inbound);
    h.inject_fully_negotiated_outbound("out", ids[0]);
    assert!(matches!(
        h.poll(),
        Some(HandlerOutput::Custom(StreamingProtocolsHandlerEvent::NewIncoming { id, stream: "in" })) if id == inbound
    ));
    assert!(matches!(
        h.poll(),
        Some(HandlerOutput::Custom(StreamingProtocolsHandlerEvent::StreamOpened { id, stream: "out" })) if id == ids[0]
    ));
    assert!(h.poll().is_none());
}

#[test]
fn dial_timeout_is_reported_as_event() {
    let (_, mut h) = handler();
    let ids = outbound_ids(1);
    h.inject_dial_upgrade_error(ids[0], UpgradeError::Timeout);
    assert!(matches!(
        h.poll(),
        Some(HandlerOutput::Custom(StreamingProtocolsHandlerEvent::OutboundTimeout(id))) if id == ids[0]
    ));
    assert!(h.poll().is_none());
}

#[test]
fn failed_negotiation_is_reported_as_event() {
    let (_, mut h) = handler();
    let ids = outbound_ids(1);
    h.inject_dial_upgrade_error(ids[0], UpgradeError::UnsupportedProtocols);
    assert!(matches!(
        h.poll(),
        Some(HandlerOutput::Custom(StreamingProtocolsHandlerEvent::OutboundUnsupportedProtocols(id))) if id == ids[0]
    ));
}

#[test]
fn fatal_error_closes_before_anything_else() {
    let (_, mut h) = handler();
    let ids = outbound_ids(2);
    h.inject_event(ids[0]);
    h.inject_fully_negotiated_outbound("out", ids[1]);
    h.inject_dial_upgrade_error(ids[1], UpgradeError::Fatal("broken pipe".to_string()));
    match h.poll() {
        Some(HandlerOutput::Close(e)) => assert_eq!(e, "broken pipe"),
        other => panic!("unexpected output {:?}", other),
    }
    assert!(matches!(h.poll(), Some(HandlerOutput::Custom(StreamingProtocolsHandlerEvent::StreamOpened { .. }))));
    assert!(matches!(h.poll(), Some(HandlerOutput::OutboundSubstreamRequest { info, .. }) if info == ids[0]));
    assert!(h.poll().is_none());
}

#[test]
fn later_fatal_error_replaces_earlier_one() {
    let (_, mut h) = handler();
    let ids = outbound_ids(1);
    h.inject_dial_upgrade_error(ids[0], UpgradeError::Fatal("first".to_string()));
    h.inject_dial_upgrade_error(ids[0], UpgradeError::Fatal("second".to_string()));
    assert!(matches!(h.poll(), Some(HandlerOutput::Close(e)) if e == "second"));
    assert!(h.poll().is_none());
}

#[test]
fn events_go_out_before_outbound_requests() {
    let (_, mut h) = handler();
    let ids = outbound_ids(2);
    h.inject_event(ids[0]);
    h.inject_dial_upgrade_error(ids[1], UpgradeError::Timeout);
    assert!(matches!(
        h.poll(),
        Some(HandlerOutput::Custom(StreamingProtocolsHandlerEvent::OutboundTimeout(id))) if id == ids[1]
    ));
    assert!(matches!(h.poll(), Some(HandlerOutput::OutboundSubstreamRequest { info, .. }) if info == ids[0]));
}

#[test]
fn many_requests_drain_in_order() {
    let (_, mut h) = handler();
    let ids = outbound_ids(250);
    for id in &ids {
        h.inject_event(*id);
    }
    for id in &ids {
        assert!(matches!(h.poll(), Some(HandlerOutput::OutboundSubstreamRequest { info, .. }) if info == *id));
    }
    assert!(h.poll().is_none());
    h.inject_event(ids[3]);
    assert!(matches!(h.poll(), Some(HandlerOutput::OutboundSubstreamRequest { info, .. }) if info == ids[3]));
}

#[test]
fn stream_opened_end_to_end_keeps_its_id() {
    let mut streaming: Streaming<&'static str> = Streaming::default();
    let mut h: StreamingProtocolsHandler<&'static str, ()> = streaming.new_handler();
    let remote = PeerKey::from_bytes(vec![4, 2]);
    streaming.inject_connected(&remote);
    let id = streaming.open_stream(remote.clone()).unwrap();
    let event = match streaming.poll() {
        Some(NetworkAction::NotifyHandler { peer_id, event }) => {
            assert!(peer_id.same_peer(&remote));
            event
        }
        other => panic!("unexpected action {:?}", other),
    };
    h.inject_event(event);
    let info = match h.poll() {
        Some(HandlerOutput::OutboundSubstreamRequest { info, timeout_ms: 500 }) => info,
        other => panic!("unexpected output {:?}", other),
    };
    h.inject_fully_negotiated_outbound("stream", info);
    let reported = match h.poll() {
        Some(HandlerOutput::Custom(ev)) => ev,
        other => panic!("unexpected output {:?}", other),
    };
    streaming.inject_event(remote.clone(), reported);
    match streaming.poll() {
        Some(NetworkAction::GenerateEvent(libp2p_streaming::StreamingEvent::StreamOpened {
            peer_id,
            id: opened,
            stream,
        })) => {
            assert!(peer_id.same_peer(&remote));
            assert_eq!(Some(opened), Some(id));
            assert_eq!(stream, "stream");
        }
        other => panic!("unexpected action {:?}", other),
    }
}

#[test]
fn inbound_substreams_get_the_handler_timeout() {
    let (_, h) = handler();
    let (_, timeout_ms) = h.listen_protocol();
    assert_eq!(timeout_ms, 500);
}

#[test]
fn drain_hands_out_events_then_requests_then_nothing() {
    let (_, mut h) = handler();
    let ids = outbound_ids(3);
    h.inject_event(ids[0]);
    h.inject_fully_negotiated_outbound("a", ids[1]);
    h.inject_event(ids[1]);
    h.inject_dial_upgrade_error(ids[2], UpgradeError::UnsupportedProtocols);
    assert!(matches!(
        h.poll(),
        Some(HandlerOutput::Custom(StreamingProtocolsHandlerEvent::StreamOpened { stream: "a", .. }))
    ));
    assert!(matches!(
        h.poll(),
        Some(HandlerOutput::Custom(StreamingProtocolsHandlerEvent::OutboundUnsupportedProtocols(id))) if id == ids[2]
    ));
    assert!(matches!(h.poll(), Some(HandlerOutput::OutboundSubstreamRequest { info, timeout_ms: 500 }) if info == ids[0]));
    assert!(matches!(h.poll(), Some(HandlerOutput::OutboundSubstreamRequest { info, timeout_ms: 500 }) if info == ids[1]));
    assert!(h.poll().is_none());
    assert!(h.connection_keep_alive());
}
