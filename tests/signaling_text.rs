use webxash3d_proxy::signal::{
    answer_sdp, candidate_message, frame_offer, offer_message, signal_kind, SignalKind,
};

#[test]
fn event_kinds() {
    assert!(matches!(signal_kind("offer"), SignalKind::Offer));
    assert!(matches!(signal_kind("answer"), SignalKind::Answer));
    assert!(matches!(signal_kind("candidate"), SignalKind::Candidate));
    assert!(matches!(signal_kind("foo"), SignalKind::Unknown));
    assert!(matches!(signal_kind("Answer"), SignalKind::Unknown));
    assert!(matches!(signal_kind(""), SignalKind::Unknown));
}

#[test]
fn offer_frame_text() {
    assert_eq!(
        frame_offer("\"v=0\""),
        "{\"event\":\"offer\",\"data\":{\"sdp\":\"v=0\",\"type\":\"offer\"}}"
    );
}

#[test]
fn offer_message_escapes_sdp() {
    let m = offer_message("v=0\r\no=- 1 2 IN IP4 \"x\"\r\n");
    assert_eq!(
        m,
        "{\"event\":\"offer\",\"data\":{\"sdp\":\"v=0\\r\\no=- 1 2 IN IP4 \\\"x\\\"\\r\\n\",\"type\":\"offer\"}}"
    );
    let v: serde_json::Value = serde_json::from_str(&m).unwrap();
    assert_eq!(v["data"]["sdp"], "v=0\r\no=- 1 2 IN IP4 \"x\"\r\n");
    assert_eq!(v["event"], "offer");
}

#[test]
fn candidate_frame_text() {
    let c = "{\"candidate\":\"candidate:1 1 udp 1 10.0.0.1 5000 typ host\",\"sdpMid\":\"0\"}";
    let m = candidate_message(c);
    assert_eq!(
        m,
        "{\"event\":\"candidate\",\"data\":{\"candidate\":\"candidate:1 1 udp 1 10.0.0.1 5000 typ host\",\"sdpMid\":\"0\"}}"
    );
}

#[test]
fn answer_sdp_defaults_to_empty() {
    assert_eq!(answer_sdp(Some("v=0")), "v=0");
    assert_eq!(answer_sdp(None), "");
}

#[test]
fn offer_message_escapes_control_characters() {
    assert_eq!(
        offer_message("a\u{1}\u{8}\t\u{1f}\\b"),
        "{\"event\":\"offer\",\"data\":{\"sdp\":\"a\\u0001\\b\\t\\u001f\\\\b\",\"type\":\"offer\"}}"
    );
}
