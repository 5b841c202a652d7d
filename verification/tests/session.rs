use inference_relay::detection::Detection;
use inference_relay::provider::{FailureReason, InferenceOutcome};
use inference_relay::session::{
    inference_reply, session_step, SessionAction, SessionEvent, SessionState,
};

fn msg(text: &str) -> SessionEvent {
    SessionEvent::Message(text.to_string())
}

#[test]
fn ping_is_answered_with_pong_and_session_stays_open() {
    let (st, act) = session_step(SessionState::Open, msg("ping"));
    assert_eq!(st, SessionState::Open);
    match act {
        SessionAction::Reply(r) => assert_eq!(r, "pong"),
        _ => panic!("expected a reply"),
    }
}

#[test]
fn image_frame_starts_inference_with_its_payload() {
    let (st, act) = session_step(SessionState::Open, msg("data:image/png;base64,QUJD"));
    assert_eq!(st, SessionState::Open);
    match act {
        SessionAction::Infer(p) => assert_eq!(p, "QUJD"),
        _ => panic!("expected an inference action"),
    }
}

#[test]
fn unknown_frame_is_silently_ignored() {
    let (st, act) = session_step(SessionState::Open, msg("hello"));
    assert_eq!(st, SessionState::Open);
    assert!(matches!(act, SessionAction::Continue));
}

#[test]
fn receive_failure_closes_the_session() {
    let (st, act) = session_step(SessionState::Open, SessionEvent::ReceiveFailed);
    assert_eq!(st, SessionState::Closed);
    assert!(matches!(act, SessionAction::Close));
}

#[test]
fn send_failure_closes_the_session() {
    let (st, act) = session_step(SessionState::Open, SessionEvent::SendFailed);
    assert_eq!(st, SessionState::Closed);
    assert!(matches!(act, SessionAction::Close));
}

#[test]
fn closed_session_is_terminal() {
    let (st, act) = session_step(SessionState::Closed, msg("ping"));
    assert_eq!(st, SessionState::Closed);
    assert!(matches!(act, SessionAction::Close));
}

#[test]
fn failed_inference_is_answered_with_empty_list() {
    for reason in [FailureReason::Transport, FailureReason::Provider, FailureReason::Decode] {
        let reply = inference_reply(&InferenceOutcome::Failure(reason));
        assert_eq!(reply, "[]");
    }
}

#[test]
fn successful_inference_is_answered_with_encoded_detections() {
    let outcome = InferenceOutcome::Success(vec![Detection {
        label: "fish".to_string(),
        confidence: "1.0".to_string(),
    }]);
    assert_eq!(inference_reply(&outcome), "[{\"class\":\"fish\",\"confidence\":1.0}]");
}
