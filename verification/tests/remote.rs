use scan_dispatch::document::{read_document, Reading};
use scan_dispatch::error::DispatchError;
use scan_dispatch::http::{is_success, HttpMethod, HttpOutcome, HttpRequest, Payload};
use scan_dispatch::record::ResultRecord;
use scan_dispatch::remote::{
    classify_request, classify_response, remote_record, ANALYZE_URL, CLASSIFY_TIMEOUT_SECS,
};

fn answered(status: u16, body: &str) -> HttpOutcome {
    HttpOutcome::Answered { status, body: body.to_string() }
}

const FULL: &str = r#"{"url":"http://good.example","classification":"phishing","confidence":0.93,"risk_score":87,"explanation":"looks bad","features":{"length":19,"tld":"example"}}"#;

#[test]
fn success_status_is_the_two_hundreds() {
    assert!(!is_success(0));
    assert!(!is_success(199));
    assert!(is_success(200));
    assert!(is_success(204));
    assert!(is_success(299));
    assert!(!is_success(300));
    assert!(!is_success(404));
    assert!(!is_success(500));
    assert!(!is_success(u16::MAX));
}

#[test]
fn classify_request_is_an_authorized_post() {
    let request = classify_request("http://x.example/a?b=1", "tok123");
    assert_eq!(
        request,
        HttpRequest {
            method: HttpMethod::Post,
            url: "http://localhost:8000/api/v1/analyze".to_string(),
            authorization: Some("Bearer tok123".to_string()),
            body: Some(Payload::Scan { url: "http://x.example/a?b=1".to_string(), force_scan: false }),
            timeout_secs: 30,
        }
    );
    assert_eq!(request.url, ANALYZE_URL);
    assert_eq!(request.timeout_secs, CLASSIFY_TIMEOUT_SECS);
}

#[test]
fn well_formed_answer_round_trips() {
    let record = classify_response(answered(200, FULL)).unwrap();
    assert_eq!(record.url, "http://good.example");
    assert_eq!(record.classification, "phishing");
    assert_eq!(f64::from_bits(record.confidence_bits), 0.93);
    assert_eq!(record.risk_score, 87);
    assert_eq!(record.explanation, "looks bad");
    let features: serde_json::Value =
        serde_json::from_str(r#"{"length":19,"tld":"example"}"#).unwrap();
    assert_eq!(record.features, Some(features));
}

#[test]
fn answer_without_features_has_none() {
    let body = r#"{"url":"u","classification":"benign","confidence":1,"risk_score":-2,"explanation":""}"#;
    let record = classify_response(answered(201, body)).unwrap();
    assert_eq!(
        record,
        ResultRecord {
            url: "u".to_string(),
            classification: "benign".to_string(),
            confidence_bits: 1.0f64.to_bits(),
            risk_score: -2,
            explanation: String::new(),
            features: None,
        }
    );
}

#[test]
fn unreachable_backend_is_a_transport_error() {
    let outcome = HttpOutcome::Unreachable { detail: "connection refused".to_string() };
    assert_eq!(
        classify_response(outcome),
        Err(DispatchError::Transport { detail: "API request failed: connection refused".to_string() })
    );
}

#[test]
fn failure_status_is_a_backend_error_with_the_body() {
    assert_eq!(
        classify_response(answered(500, "internal")),
        Err(DispatchError::Backend { status: Some(500), body: "internal".to_string() })
    );
    assert_eq!(
        classify_response(answered(401, FULL)),
        Err(DispatchError::Backend { status: Some(401), body: FULL.to_string() })
    );
    assert_eq!(
        classify_response(answered(300, "")),
        Err(DispatchError::Backend { status: Some(300), body: String::new() })
    );
}

#[test]
fn body_that_is_not_json_is_a_decode_error() {
    let error = classify_response(answered(200, "<html>")).unwrap_err();
    let expected = serde_json::from_str::<serde_json::Value>("<html>").unwrap_err();
    assert_eq!(
        error,
        DispatchError::Decode { detail: format!("Failed to parse response: {}", expected) }
    );
    assert_eq!(error.message(), "Failed to parse response: expected value at line 1 column 1");
}

fn shape_error(field: &str) -> DispatchError {
    DispatchError::Decode {
        detail: format!("Failed to parse response: field `{}` is missing or of the wrong type", field),
    }
}

#[test]
fn missing_field_is_a_decode_error_naming_it() {
    let body = r#"{"classification":"c","confidence":0.5,"risk_score":1,"explanation":"e"}"#;
    assert_eq!(classify_response(answered(200, body)), Err(shape_error("url")));
    let body = r#"{"url":"u","confidence":0.5,"risk_score":1,"explanation":"e"}"#;
    assert_eq!(classify_response(answered(200, body)), Err(shape_error("classification")));
    let body = r#"{"url":"u","classification":"c","risk_score":1,"explanation":"e"}"#;
    assert_eq!(classify_response(answered(200, body)), Err(shape_error("confidence")));
    let body = r#"{"url":"u","classification":"c","confidence":0.5,"explanation":"e"}"#;
    assert_eq!(classify_response(answered(200, body)), Err(shape_error("risk_score")));
    let body = r#"{"url":"u","classification":"c","confidence":0.5,"risk_score":1}"#;
    assert_eq!(classify_response(answered(200, body)), Err(shape_error("explanation")));
}

#[test]
fn first_missing_field_is_the_one_reported() {
    assert_eq!(classify_response(answered(200, "{}")), Err(shape_error("url")));
    assert_eq!(classify_response(answered(200, "[]")), Err(shape_error("url")));
    assert_eq!(classify_response(answered(200, r#"{"url":"u"}"#)), Err(shape_error("classification")));
}

#[test]
fn mistyped_field_is_not_coerced() {
    let body = r#"{"url":1,"classification":"c","confidence":0.5,"risk_score":1,"explanation":"e"}"#;
    assert_eq!(classify_response(answered(200, body)), Err(shape_error("url")));
    let body = r#"{"url":"u","classification":"c","confidence":"0.5","risk_score":1,"explanation":"e"}"#;
    assert_eq!(classify_response(answered(200, body)), Err(shape_error("confidence")));
    let body = r#"{"url":"u","classification":"c","confidence":0.5,"risk_score":87.0,"explanation":"e"}"#;
    assert_eq!(classify_response(answered(200, body)), Err(shape_error("risk_score")));
    let body = r#"{"url":"u","classification":"c","confidence":0.5,"risk_score":"87","explanation":"e"}"#;
    assert_eq!(classify_response(answered(200, body)), Err(shape_error("risk_score")));
    let body = r#"{"url":"u","classification":"c","confidence":0.5,"risk_score":1,"explanation":null}"#;
    assert_eq!(classify_response(answered(200, body)), Err(shape_error("explanation")));
}

#[test]
fn risk_score_must_fit_the_record() {
    let body = r#"{"url":"u","classification":"c","confidence":0.5,"risk_score":2147483647,"explanation":"e"}"#;
    assert_eq!(classify_response(answered(200, body)).unwrap().risk_score, i32::MAX);
    let body = r#"{"url":"u","classification":"c","confidence":0.5,"risk_score":-2147483648,"explanation":"e"}"#;
    assert_eq!(classify_response(answered(200, body)).unwrap().risk_score, i32::MIN);
    let body = r#"{"url":"u","classification":"c","confidence":0.5,"risk_score":2147483648,"explanation":"e"}"#;
    assert_eq!(classify_response(answered(200, body)), Err(shape_error("risk_score")));
    let body = r#"{"url":"u","classification":"c","confidence":0.5,"risk_score":-2147483649,"explanation":"e"}"#;
    assert_eq!(classify_response(answered(200, body)), Err(shape_error("risk_score")));
    let body = r#"{"url":"u","classification":"c","confidence":0.5,"risk_score":18446744073709551615,"explanation":"e"}"#;
    assert_eq!(classify_response(answered(200, body)), Err(shape_error("risk_score")));
}

#[test]
fn remote_record_takes_the_fields_as_read() {
    let features: serde_json::Value = serde_json::from_str("[1,2]").unwrap();
    let reading = Reading {
        url: Some("u".to_string()),
        classification: Some("error".to_string()),
        confidence_bits: Some(0.25f64.to_bits()),
        risk_score: Some(12),
        explanation: Some("why".to_string()),
        features: Some(features.clone()),
    };
    assert_eq!(
        remote_record(reading),
        Ok(ResultRecord {
            url: "u".to_string(),
            classification: "error".to_string(),
            confidence_bits: 0.25f64.to_bits(),
            risk_score: 12,
            explanation: "why".to_string(),
            features: Some(features),
        })
    );
}

#[test]
fn read_document_reads_each_field_on_its_own() {
    let doc: serde_json::Value = serde_json::from_str(FULL).unwrap();
    let reading = read_document(&doc);
    assert_eq!(reading.url.as_deref(), Some("http://good.example"));
    assert_eq!(reading.classification.as_deref(), Some("phishing"));
    assert_eq!(reading.confidence_bits, Some(0.93f64.to_bits()));
    assert_eq!(reading.risk_score, Some(87));
    assert_eq!(reading.explanation.as_deref(), Some("looks bad"));
    assert_eq!(reading.features, doc.get("features").cloned());

    let doc: serde_json::Value =
        serde_json::from_str(r#"{"url":7,"confidence":2,"risk_score":1.5,"features":null}"#).unwrap();
    let reading = read_document(&doc);
    assert_eq!(reading.url, None);
    assert_eq!(reading.classification, None);
    assert_eq!(reading.confidence_bits, Some(2.0f64.to_bits()));
    assert_eq!(reading.risk_score, None);
    assert_eq!(reading.explanation, None);
    assert_eq!(reading.features, Some(serde_json::Value::Null));
}
