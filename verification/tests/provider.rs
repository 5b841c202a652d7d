use inference_relay::provider::{
    detect_outcome, request_body, request_url, FailureReason, InferenceOutcome, ProviderConfig,
    ProviderReply,
};

fn answered(status: u16, body: &str) -> ProviderReply {
    ProviderReply::Answered(status, body.to_string())
}

#[test]
fn success_with_extra_fields_ignored() {
    let body = "{\"predictions\":[{\"class\":\"fish\",\"confidence\":1.0,\"x\":0,\"y\":0,\"width\":1,\"height\":1,\"class_id\":0}]}";
    match detect_outcome(&answered(200, body)) {
        InferenceOutcome::Success(ds) => {
            assert_eq!(ds.len(), 1);
            assert_eq!(ds[0].label, "fish");
            assert_eq!(ds[0].confidence, "1.0");
        },
        _ => panic!("expected success"),
    }
}

#[test]
fn success_without_extra_fields() {
    let body = "{\"predictions\": [ {\"confidence\": 0.25, \"class\": \"cat\"} , {\"class\":\"dog\",\"confidence\":3e-2} ]}";
    match detect_outcome(&answered(204, body)) {
        InferenceOutcome::Success(ds) => {
            assert_eq!(ds.len(), 2);
            assert_eq!(ds[0].label, "cat");
            assert_eq!(ds[0].confidence, "0.25");
            assert_eq!(ds[1].label, "dog");
            assert_eq!(ds[1].confidence, "3e-2");
        },
        _ => panic!("expected success"),
    }
}

#[test]
fn success_with_empty_predictions() {
    match detect_outcome(&answered(200, "{\"predictions\":[]}")) {
        InferenceOutcome::Success(ds) => assert_eq!(ds.len(), 0),
        _ => panic!("expected success"),
    }
}

#[test]
fn extra_members_of_any_shape_are_skipped() {
    let body = "{\"time\": 0.2, \"image\": {\"w\": [1, {\"deep\": [true, null, \"x\"]}]}, \"predictions\": [{\"meta\": {\"a\": [1,2,3]}, \"class\": \"bird\", \"confidence\": 0.5, \"flag\": false}]}";
    match detect_outcome(&answered(200, body)) {
        InferenceOutcome::Success(ds) => {
            assert_eq!(ds.len(), 1);
            assert_eq!(ds[0].label, "bird");
            assert_eq!(ds[0].confidence, "0.5");
        },
        _ => panic!("expected success"),
    }
}

#[test]
fn label_escapes_are_unescaped() {
    let body = "{\"predictions\":[{\"class\":\"\\u0041\\n\\\"q\\\" \\uD83D\\uDE00\",\"confidence\":0.75}]}";
    match detect_outcome(&answered(200, body)) {
        InferenceOutcome::Success(ds) => {
            assert_eq!(ds[0].label, "A\n\"q\" \u{1F600}");
        },
        _ => panic!("expected success"),
    }
}

#[test]
fn provider_error_on_500() {
    match detect_outcome(&answered(500, "internal error")) {
        InferenceOutcome::Failure(r) => assert_eq!(r, FailureReason::Provider),
        _ => panic!("expected a failure"),
    }
}

#[test]
fn provider_error_on_4xx_even_with_good_body() {
    match detect_outcome(&answered(403, "{\"predictions\":[]}")) {
        InferenceOutcome::Failure(r) => assert_eq!(r, FailureReason::Provider),
        _ => panic!("expected a failure"),
    }
}

#[test]
fn decode_error_on_unparsable_json() {
    match detect_outcome(&answered(200, "not json at all")) {
        InferenceOutcome::Failure(r) => assert_eq!(r, FailureReason::Decode),
        _ => panic!("expected a failure"),
    }
}

#[test]
fn decode_error_on_missing_predictions() {
    match detect_outcome(&answered(200, "{\"other\": 1}")) {
        InferenceOutcome::Failure(r) => assert_eq!(r, FailureReason::Decode),
        _ => panic!("expected a failure"),
    }
}

#[test]
fn decode_error_on_prediction_missing_required_field() {
    match detect_outcome(&answered(200, "{\"predictions\":[{\"class\":\"cat\"}]}")) {
        InferenceOutcome::Failure(r) => assert_eq!(r, FailureReason::Decode),
        _ => panic!("expected a failure"),
    }
}

#[test]
fn decode_error_on_duplicate_required_field() {
    let body = "{\"predictions\":[{\"class\":\"a\",\"class\":\"b\",\"confidence\":1}]}";
    match detect_outcome(&answered(200, body)) {
        InferenceOutcome::Failure(r) => assert_eq!(r, FailureReason::Decode),
        _ => panic!("expected a failure"),
    }
}

#[test]
fn decode_error_on_trailing_content() {
    match detect_outcome(&answered(200, "{\"predictions\":[]} x")) {
        InferenceOutcome::Failure(r) => assert_eq!(r, FailureReason::Decode),
        _ => panic!("expected a failure"),
    }
}

#[test]
fn decode_error_on_wrong_confidence_type() {
    match detect_outcome(&answered(200, "{\"predictions\":[{\"class\":\"a\",\"confidence\":\"high\"}]}")) {
        InferenceOutcome::Failure(r) => assert_eq!(r, FailureReason::Decode),
        _ => panic!("expected a failure"),
    }
}

#[test]
fn transport_failure_on_no_reply() {
    match detect_outcome(&ProviderReply::Unreachable) {
        InferenceOutcome::Failure(r) => assert_eq!(r, FailureReason::Transport),
        _ => panic!("expected a failure"),
    }
}

#[test]
fn negative_and_exponent_numbers_kept_verbatim() {
    let body = "{\"predictions\":[{\"class\":\"a\",\"confidence\":-0.5},{\"class\":\"b\",\"confidence\":1.25E+2}]}";
    match detect_outcome(&answered(200, body)) {
        InferenceOutcome::Success(ds) => {
            assert_eq!(ds[0].confidence, "-0.5");
            assert_eq!(ds[1].confidence, "1.25E+2");
        },
        _ => panic!("expected success"),
    }
}

#[test]
fn request_url_has_fixed_shape() {
    let cfg = ProviderConfig {
        api_key: "k123".to_string(),
        model_id: "things".to_string(),
        model_version: "3".to_string(),
    };
    assert_eq!(request_url(&cfg), "https://detect.roboflow.com/things/3?api_key=k123");
}

#[test]
fn request_body_embeds_base64_verbatim() {
    assert_eq!(request_body("Zm9vL2Jhcg=="), "image=Zm9vL2Jhcg==");
}

#[test]
fn deeply_nested_extras_are_still_skipped() {
    let mut nested = String::new();
    for _ in 0..200 {
        nested.push('[');
    }
    nested.push('1');
    for _ in 0..200 {
        nested.push(']');
    }
    let body = format!(
        "{{\"deep\": {nested}, \"predictions\": [{{\"class\": \"ok\", \"confidence\": 0.1}}]}}"
    );
    match detect_outcome(&answered(200, &body)) {
        InferenceOutcome::Success(ds) => {
            assert_eq!(ds.len(), 1);
            assert_eq!(ds[0].label, "ok");
        },
        _ => panic!("expected success"),
    }
}

#[test]
fn long_prediction_lists_parse_whole() {
    let mut body = String::from("{\"predictions\":[");
    for i in 0..500 {
        if i > 0 {
            body.push(',');
        }
        body.push_str(&format!("{{\"class\":\"c{i}\",\"confidence\":0.5,\"x\":{i}}}"));
    }
    body.push_str("]}");
    match detect_outcome(&answered(200, &body)) {
        InferenceOutcome::Success(ds) => {
            assert_eq!(ds.len(), 500);
            assert_eq!(ds[0].label, "c0");
            assert_eq!(ds[499].label, "c499");
        },
        _ => panic!("expected success"),
    }
}
