use outbreak_gateway::gateway::{classify_outcome, gateway_reply, reply_for, ClassifiedOutcome};
use outbreak_gateway::json::{render_result, request_json};
use outbreak_gateway::model::{
    Feature, HttpReply, PredictionRequest, PredictionResult, UpstreamOutcome,
};

fn replied(status: u16, body: &str) -> UpstreamOutcome {
    UpstreamOutcome::Replied {
        status,
        body: Some(body.to_string()),
    }
}

fn check(reply: &HttpReply, status: u16, body: &str) {
    assert_eq!(reply.status, status);
    assert_eq!(reply.body.as_str(), body);
}

#[test]
fn ok_result_reserialized() {
    let r = gateway_reply(replied(
        200,
        "{\"prediction\": 0.82, \"outbreak_risk\": \"high\"}",
    ));
    check(&r, 200, "{\"prediction\":0.82,\"outbreak_risk\":\"high\"}");
}

#[test]
fn upstream_error_forwarded() {
    let r = gateway_reply(replied(503, "model unavailable"));
    check(&r, 502, "Python service error: model unavailable");
}

#[test]
fn transport_failure_is_500() {
    let r = gateway_reply(UpstreamOutcome::TransportFailed);
    check(&r, 500, "Failed to connect to Python service");
}

#[test]
fn missing_field_is_500() {
    let r = gateway_reply(replied(200, "{\"outbreak_risk\": \"high\"}"));
    check(&r, 500, "Failed to parse prediction response");
}

#[test]
fn non_numeric_prediction_is_500() {
    let r = gateway_reply(replied(
        200,
        "{\"prediction\": \"0.82\", \"outbreak_risk\": \"high\"}",
    ));
    check(&r, 500, "Failed to parse prediction response");
}

#[test]
fn malformed_json_is_500() {
    let r = gateway_reply(replied(200, "model ready"));
    check(&r, 500, "Failed to parse prediction response");
}

#[test]
fn unreadable_success_body_is_500() {
    let r = gateway_reply(UpstreamOutcome::Replied {
        status: 200,
        body: None,
    });
    check(&r, 500, "Failed to parse prediction response");
}

#[test]
fn unreadable_error_body_is_placeholder() {
    let r = gateway_reply(UpstreamOutcome::Replied {
        status: 503,
        body: None,
    });
    check(&r, 502, "Python service error: Unknown error");
}

#[test]
fn status_band_edges() {
    let ok_body = "{\"prediction\": 2, \"outbreak_risk\": \"low\"}";
    let r = gateway_reply(replied(299, ok_body));
    check(&r, 200, "{\"prediction\":2,\"outbreak_risk\":\"low\"}");
    let r = gateway_reply(replied(300, ok_body));
    check(&r, 502, &format!("Python service error: {}", ok_body));
    let r = gateway_reply(replied(199, ok_body));
    check(&r, 502, &format!("Python service error: {}", ok_body));
    let r = gateway_reply(replied(599, "gone"));
    check(&r, 502, "Python service error: gone");
}

#[test]
fn plot_kept_when_present() {
    let r = gateway_reply(replied(
        200,
        "{\"prediction\": 0.5, \"outbreak_risk\": \"medium\", \"seaborn_plot\": \"aGk=\"}",
    ));
    check(
        &r,
        200,
        "{\"prediction\":0.5,\"outbreak_risk\":\"medium\",\"seaborn_plot\":\"aGk=\"}",
    );
}

#[test]
fn plot_omitted_when_null() {
    let r = gateway_reply(replied(
        200,
        "{\"prediction\": 0.5, \"outbreak_risk\": \"medium\", \"seaborn_plot\": null}",
    ));
    check(&r, 200, "{\"prediction\":0.5,\"outbreak_risk\":\"medium\"}");
}

#[test]
fn extra_fields_ignored() {
    let r = gateway_reply(replied(
        200,
        "{\"prediction\": 1, \"outbreak_risk\": \"low\", \"note\": [1, 2]}",
    ));
    check(&r, 200, "{\"prediction\":1,\"outbreak_risk\":\"low\"}");
}

#[test]
fn mapping_policy_for_parsed_result() {
    let r = reply_for(ClassifiedOutcome::Parsed(PredictionResult {
        prediction: "0.82".to_string(),
        outbreak_risk: "high".to_string(),
        seaborn_plot: None,
    }));
    check(&r, 200, "{\"prediction\":0.82,\"outbreak_risk\":\"high\"}");
}

#[test]
fn mapping_policy_for_shape_mismatch() {
    let r = reply_for(ClassifiedOutcome::ShapeMismatch);
    check(&r, 500, "Failed to parse prediction response");
}

#[test]
fn classification_of_rejection() {
    match classify_outcome(replied(404, "not found")) {
        ClassifiedOutcome::Rejected { status, body } => {
            assert_eq!(status, 404);
            assert_eq!(body.as_deref(), Some("not found"));
        }
        _ => panic!("expected a rejection"),
    }
}

#[test]
fn classification_of_parsed_success() {
    match classify_outcome(replied(200, "{\"prediction\": 3.5, \"outbreak_risk\": \"low\"}")) {
        ClassifiedOutcome::Parsed(res) => {
            assert_eq!(res.prediction.as_str(), "3.5");
            assert_eq!(res.outbreak_risk.as_str(), "low");
            assert!(res.seaborn_plot.is_none());
        }
        _ => panic!("expected a parsed result"),
    }
}

fn feature(name: &str, value: &str) -> Feature {
    Feature {
        name: name.to_string(),
        value: value.to_string(),
    }
}

#[test]
fn request_json_two_features() {
    let req = PredictionRequest::new(vec![feature("fever", "1"), feature("diarrhea", "1")])
        .expect("a well-formed request");
    assert_eq!(
        request_json(&req).as_str(),
        "{\"features\":{\"fever\":1,\"diarrhea\":1}}"
    );
}

#[test]
fn request_json_escapes_names() {
    let req = PredictionRequest::new(vec![feature("fe\"ver\\\n", "0.5")])
        .expect("a well-formed request");
    assert_eq!(
        request_json(&req).as_str(),
        "{\"features\":{\"fe\\\"ver\\\\\\n\":0.5}}"
    );
}

#[test]
fn request_rejects_empty_features() {
    assert!(PredictionRequest::new(Vec::new()).is_none());
}

#[test]
fn request_rejects_bad_numbers() {
    for bad in ["", "01", "1.", ".5", "+1", "abc", "1e", "-", "1.2.3", "NaN", "inf", "1 "] {
        assert!(
            PredictionRequest::new(vec![feature("f", bad)]).is_none(),
            "accepted {:?}",
            bad
        );
    }
}

#[test]
fn request_accepts_number_tokens() {
    for good in ["0", "-0", "123", "-1.5e3", "0.82", "1E+10", "2e-7", "10.25"] {
        assert!(
            PredictionRequest::new(vec![feature("f", good)]).is_some(),
            "rejected {:?}",
            good
        );
    }
}

#[test]
fn render_result_escapes_label() {
    let res = PredictionResult {
        prediction: "0.1".to_string(),
        outbreak_risk: "hi\"gh\n\u{1}".to_string(),
        seaborn_plot: None,
    };
    assert_eq!(
        render_result(&res).as_str(),
        "{\"prediction\":0.1,\"outbreak_risk\":\"hi\\\"gh\\n\\u0001\"}"
    );
}
