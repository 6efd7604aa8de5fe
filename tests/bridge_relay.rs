use webxash3d_proxy::bridge::{BridgeState, ShutdownCause, UdpAction, MAX_PACKET_SIZE};

fn forwarded(a: UdpAction) -> Option<Vec<u8>> {
    match a {
        UdpAction::Forward(v) => Some(v),
        _ => None,
    }
}

#[test]
fn datagram_is_forwarded_whole() {
    let mut b = BridgeState::new();
    let mut buf = vec![0u8; MAX_PACKET_SIZE];
    for (i, x) in buf.iter_mut().enumerate().take(5) {
        *x = i as u8 + 1;
    }
    let out = forwarded(b.on_udp_receive(&buf, Some(5))).expect("one message");
    assert_eq!(out, vec![1, 2, 3, 4, 5]);
    assert!(!b.is_stopped());
}

#[test]
fn largest_datagram_is_forwarded_unsplit() {
    let mut b = BridgeState::new();
    let buf: Vec<u8> = (0..MAX_PACKET_SIZE).map(|i| (i % 251) as u8).collect();
    let out = forwarded(b.on_udp_receive(&buf, Some(MAX_PACKET_SIZE))).expect("one message");
    assert_eq!(out.len(), 65536);
    assert_eq!(out, buf);
}

#[test]
fn single_byte_datagram_is_forwarded() {
    let mut b = BridgeState::new();
    let buf = vec![0xabu8, 0xcd];
    let out = forwarded(b.on_udp_receive(&buf, Some(1))).expect("one message");
    assert_eq!(out, vec![0xab]);
}

#[test]
fn empty_datagram_is_skipped_and_loop_continues() {
    let mut b = BridgeState::new();
    let buf = vec![9u8; 16];
    assert!(matches!(b.on_udp_receive(&buf, Some(0)), UdpAction::Skip));
    assert!(!b.is_stopped());
    let out = forwarded(b.on_udp_receive(&buf, Some(2))).expect("still running");
    assert_eq!(out, vec![9, 9]);
}

#[test]
fn three_datagrams_ten_zero_two_hundred() {
    let mut b = BridgeState::new();
    let mut sent: Vec<Vec<u8>> = Vec::new();
    for (len, fill) in [(10usize, 1u8), (0, 2), (200, 3)] {
        let mut buf = vec![0u8; MAX_PACKET_SIZE];
        for x in buf.iter_mut().take(len) {
            *x = fill;
        }
        match b.on_udp_receive(&buf, Some(len)) {
            UdpAction::Forward(v) => sent.push(v),
            UdpAction::Skip => {}
            UdpAction::Stop => panic!("loop stopped"),
        }
    }
    assert_eq!(sent.len(), 2);
    assert_eq!(sent[0], vec![1u8; 10]);
    assert_eq!(sent[1], vec![3u8; 200]);
}

#[test]
fn receive_error_stops_bridge() {
    let mut b = BridgeState::new();
    let buf = vec![0u8; 4];
    assert!(matches!(b.on_udp_receive(&buf, None), UdpAction::Stop));
    assert!(b.is_stopped());
    assert!(matches!(b.on_udp_receive(&buf, Some(3)), UdpAction::Stop));
}

#[test]
fn outbound_write_failure_stops_bridge() {
    let mut b = BridgeState::new();
    assert!(b.on_outbound_written(true));
    assert!(!b.is_stopped());
    assert!(!b.on_outbound_written(false));
    assert!(b.is_stopped());
    let buf = vec![1u8; 4];
    assert!(matches!(b.on_udp_receive(&buf, Some(4)), UdpAction::Stop));
}

#[test]
fn inbound_message_becomes_one_datagram() {
    let b = BridgeState::new();
    let msg = vec![7u8, 0, 255, 42];
    assert_eq!(b.on_inbound_message(&msg), Some(vec![7u8, 0, 255, 42]));
    assert_eq!(b.on_inbound_message(&[]), Some(vec![]));
}

#[test]
fn nothing_forwarded_after_shutdown() {
    let mut b = BridgeState::new();
    assert!(b.trigger_shutdown(ShutdownCause::InboundClosed));
    assert_eq!(b.on_inbound_message(&[1, 2, 3]), None);
    let buf = vec![5u8; 8];
    assert!(matches!(b.on_udp_receive(&buf, Some(8)), UdpAction::Stop));
}

#[test]
fn shutdown_is_idempotent() {
    let mut b = BridgeState::new();
    let causes = [
        ShutdownCause::StopRequested,
        ShutdownCause::InboundErrored,
        ShutdownCause::InboundClosed,
        ShutdownCause::UdpReceiveFailed,
        ShutdownCause::OutboundWriteFailed,
    ];
    let firsts: Vec<bool> = causes.into_iter().map(|c| b.trigger_shutdown(c)).collect();
    assert_eq!(firsts, vec![true, false, false, false, false]);
    assert!(b.is_stopped());
}

#[test]
fn shutdown_from_both_directions_stops_once() {
    let mut b = BridgeState::new();
    let buf = vec![0u8; 8];
    assert!(matches!(b.on_udp_receive(&buf, None), UdpAction::Stop));
    assert!(!b.trigger_shutdown(ShutdownCause::InboundErrored));
    assert!(!b.trigger_shutdown(ShutdownCause::StopRequested));
    assert!(b.is_stopped());
}
