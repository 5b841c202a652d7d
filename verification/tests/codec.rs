use inference_relay::detection::{encode_detections, escape_str, Detection};
use inference_relay::frame::{decode, encode_pong, InboundFrame};
use inference_relay::status::status_body;

fn det(label: &str, confidence: &str) -> Detection {
    Detection { label: label.to_string(), confidence: confidence.to_string() }
}

#[test]
fn decode_ping() {
    assert!(matches!(decode("ping"), InboundFrame::Ping));
}

#[test]
fn decode_data_url() {
    match decode("data:image/png;base64,AAA") {
        InboundFrame::ImageData(p) => assert_eq!(p, "AAA"),
        _ => panic!("expected an image frame"),
    }
}

#[test]
fn decode_data_url_without_comma() {
    match decode("data:image") {
        InboundFrame::ImageData(p) => assert_eq!(p, ""),
        _ => panic!("expected an image frame"),
    }
}

#[test]
fn decode_unknown() {
    match decode("hello") {
        InboundFrame::Unknown(raw) => assert_eq!(raw, "hello"),
        _ => panic!("expected an unknown frame"),
    }
}

#[test]
fn decode_ping_is_case_sensitive() {
    assert!(matches!(decode("PING"), InboundFrame::Unknown(_)));
    assert!(matches!(decode("ping "), InboundFrame::Unknown(_)));
}

#[test]
fn decode_payload_runs_past_later_commas() {
    match decode("data:image/png;base64,AAA,BBB") {
        InboundFrame::ImageData(p) => assert_eq!(p, "AAA,BBB"),
        _ => panic!("expected an image frame"),
    }
}

#[test]
fn decode_is_deterministic() {
    let raw = "data:image/jpeg;base64,Zm9v";
    let a = decode(raw);
    let b = decode(raw);
    match (a, b) {
        (InboundFrame::ImageData(x), InboundFrame::ImageData(y)) => assert_eq!(x, y),
        _ => panic!("expected equal image frames"),
    }
    assert!(matches!(decode("ping"), InboundFrame::Ping));
    assert!(matches!(decode("ping"), InboundFrame::Ping));
}

#[test]
fn encode_empty_list() {
    let ds: Vec<Detection> = Vec::new();
    assert_eq!(encode_detections(&ds), "[]");
}

#[test]
fn encode_single_detection() {
    let ds = vec![det("cat", "0.9")];
    assert_eq!(encode_detections(&ds), "[{\"class\":\"cat\",\"confidence\":0.9}]");
}

#[test]
fn encode_preserves_order() {
    let ds = vec![det("cat", "0.9"), det("dog", "0.5"), det("cat", "0.1")];
    assert_eq!(
        encode_detections(&ds),
        "[{\"class\":\"cat\",\"confidence\":0.9},{\"class\":\"dog\",\"confidence\":0.5},{\"class\":\"cat\",\"confidence\":0.1}]"
    );
}

#[test]
fn encode_escapes_label() {
    let ds = vec![det("a\"b\\c\nd", "1")];
    assert_eq!(
        encode_detections(&ds),
        "[{\"class\":\"a\\\"b\\\\c\\nd\",\"confidence\":1}]"
    );
}

#[test]
fn escape_control_characters() {
    assert_eq!(escape_str("\u{8}\u{c}\t\r\u{1}\u{1f}"), "\\b\\f\\t\\r\\u0001\\u001f");
    assert_eq!(escape_str("plain"), "plain");
}

#[test]
fn pong_is_literal() {
    assert_eq!(encode_pong(), "pong");
}

#[test]
fn status_body_is_fixed_shape() {
    assert_eq!(status_body("0.1.0"), "{\"status\":\"ok\",\"version\":\"0.1.0\"}");
}
