use scan_dispatch::batch::{scan_many, settle, BatchScanner};
use scan_dispatch::context::{BackendKind, Configuration, ExecutionContext};
use scan_dispatch::dispatch::{plan_scan, scan_one, ScanAction, ScanEvent};
use scan_dispatch::error::DispatchError;
use scan_dispatch::http::{HttpOutcome, HttpRequest};
use scan_dispatch::local::{Invocation, ProcessOutcome};
use scan_dispatch::record::ResultRecord;
use scan_dispatch::remote::{classify_request, classify_response};

fn urls(items: &[&str]) -> Vec<String> {
    items.iter().map(|s| s.to_string()).collect()
}

fn body_for(url: &str) -> String {
    format!(
        r#"{{"url":"{}","classification":"benign","confidence":0.5,"risk_score":10,"explanation":"fine"}}"#,
        url
    )
}

fn backend(url: &String) -> Result<ResultRecord, DispatchError> {
    if url.contains("bad") {
        classify_response(HttpOutcome::Answered { status: 500, body: "backend exploded".to_string() })
    } else {
        classify_response(HttpOutcome::Answered { status: 200, body: body_for(url) })
    }
}

fn good(url: &str) -> ResultRecord {
    ResultRecord {
        url: url.to_string(),
        classification: "benign".to_string(),
        confidence_bits: 0.5f64.to_bits(),
        risk_score: 10,
        explanation: "fine".to_string(),
        features: None,
    }
}

#[test]
fn settle_keeps_a_record_and_replaces_an_error() {
    assert_eq!(settle("asked", Ok(good("echoed"))), good("echoed"));
    let error = DispatchError::Decode { detail: "bad shape".to_string() };
    let record = settle("asked", Err(error));
    assert_eq!(record.url, "asked");
    assert_eq!(record.classification, "error");
    assert_eq!(record.confidence_bits, 0);
    assert_eq!(record.risk_score, 0);
    assert_eq!(record.explanation, "bad shape");
    assert_eq!(record.features, None);
}

#[test]
fn batch_with_one_failing_item() {
    let input = urls(&["http://good.example", "http://bad.example"]);
    let output = scan_many(&input, backend);
    assert_eq!(output.len(), 2);
    assert_eq!(output[0], good("http://good.example"));
    assert_ne!(output[0].classification, "error");
    assert_eq!(output[1].classification, "error");
    assert_eq!(f64::from_bits(output[1].confidence_bits), 0.0);
    assert_eq!(output[1].risk_score, 0);
    assert_eq!(output[1].url, "http://bad.example");
    assert_eq!(output[1].explanation, "API error 500: backend exploded");
}

#[test]
fn batch_has_one_record_per_url_in_order() {
    let input = urls(&["http://a.example", "http://bad.example/1", "http://b.example", "http://bad.example/2", "http://c.example"]);
    let output = scan_many(&input, backend);
    assert_eq!(output.len(), input.len());
    for (i, url) in input.iter().enumerate() {
        assert_eq!(&output[i].url, url);
        assert_eq!(output[i].is_failure(), url.contains("bad"));
    }
}

#[test]
fn batch_does_not_stop_at_a_failure() {
    let input = urls(&["http://bad.example", "http://good.example"]);
    let output = scan_many(&input, backend);
    assert_eq!(output.len(), 2);
    assert!(output[0].is_failure());
    assert_eq!(output[1], good("http://good.example"));
}

#[test]
fn one_failure_leaves_the_other_records_as_they_are() {
    let input = urls(&["http://a.example", "http://b.example", "http://c.example"]);
    let all_good = scan_many(&input, backend);
    let one_bad = scan_many(&input, |url: &String| {
        if url == "http://b.example" {
            Err(DispatchError::Transport { detail: "API request failed: reset".to_string() })
        } else {
            backend(url)
        }
    });
    assert_eq!(one_bad.len(), 3);
    assert_eq!(one_bad[0], all_good[0]);
    assert_eq!(one_bad[2], all_good[2]);
    assert!(one_bad[1].is_failure());
    assert_eq!(one_bad[1].url, "http://b.example");
    assert_eq!(one_bad[1].explanation, "API request failed: reset");
    assert!(!one_bad[0].is_failure());
    assert!(!one_bad[2].is_failure());
}

#[test]
fn empty_batch_has_no_records() {
    let output = scan_many(&Vec::new(), backend);
    assert!(output.is_empty());
    let scanner = BatchScanner::new(Vec::new());
    assert!(scanner.is_finished());
    assert_eq!(scanner.pending(), None);
    assert!(scanner.into_records().is_empty());
}

#[test]
fn batch_of_failures_only() {
    let input = urls(&["http://bad.example/1", "http://bad.example/2"]);
    let output = scan_many(&input, backend);
    assert_eq!(output.len(), 2);
    assert!(output.iter().all(|record| record.is_failure()));
    assert_eq!(output[0].url, "http://bad.example/1");
    assert_eq!(output[1].url, "http://bad.example/2");
}

#[test]
fn scanner_hands_out_urls_in_order() {
    let input = urls(&["http://good.example", "http://bad.example"]);
    let mut scanner = BatchScanner::new(input.clone());
    assert!(!scanner.is_finished());
    let mut asked: Vec<String> = Vec::new();
    while let Some(url) = scanner.pending() {
        let url = url.clone();
        let outcome = backend(&url);
        asked.push(url);
        scanner.settle(outcome);
    }
    assert!(scanner.is_finished());
    assert_eq!(asked, input);
    assert_eq!(scanner.into_records(), scan_many(&input, backend));
}

#[test]
fn scanner_ignores_an_outcome_when_nothing_is_pending() {
    let mut scanner = BatchScanner::new(urls(&["http://a.example"]));
    scanner.settle(Ok(good("http://a.example")));
    assert!(scanner.is_finished());
    scanner.settle(Ok(good("http://extra.example")));
    scanner.settle(Err(DispatchError::Decode { detail: "late".to_string() }));
    assert!(scanner.is_finished());
    assert_eq!(scanner.into_records(), vec![good("http://a.example")]);
}

#[test]
fn scanner_can_be_read_mid_batch() {
    let mut scanner = BatchScanner::new(urls(&["http://a.example", "http://b.example"]));
    scanner.settle(Err(DispatchError::Unavailable { detail: "no interpreter".to_string() }));
    assert!(!scanner.is_finished());
    assert_eq!(scanner.pending().map(|url| url.as_str()), Some("http://b.example"));
    let records = scanner.into_records();
    assert_eq!(records.len(), 1);
    assert_eq!(records[0].url, "http://a.example");
    assert_eq!(records[0].explanation, "no interpreter");
}

fn configuration(backend: BackendKind) -> Configuration {
    Configuration {
        backend,
        executable: "python3".to_string(),
        script: "classify.py".to_string(),
        working_directory: "/srv/model".to_string(),
    }
}

#[test]
fn context_hands_out_copies_of_the_configuration() {
    let context = ExecutionContext::new(configuration(BackendKind::Local));
    assert_eq!(context.backend(), BackendKind::Local);
    assert_eq!(context.snapshot(), configuration(BackendKind::Local));
    assert_eq!(configuration(BackendKind::Remote).duplicate(), configuration(BackendKind::Remote));
}

#[test]
fn replace_swaps_the_whole_configuration() {
    let mut context = ExecutionContext::new(configuration(BackendKind::Local));
    let snapshot = context.snapshot();
    let next = Configuration {
        backend: BackendKind::Remote,
        executable: "py".to_string(),
        script: "other.py".to_string(),
        working_directory: "/tmp".to_string(),
    };
    let previous = context.replace(next.clone());
    assert_eq!(previous, configuration(BackendKind::Local));
    assert_eq!(context.snapshot(), next);
    assert_eq!(context.backend(), BackendKind::Remote);
    assert_eq!(snapshot, configuration(BackendKind::Local));
}

#[test]
fn plan_follows_the_active_backend() {
    let remote: HttpRequest = classify_request("http://x.example", "tok");
    assert_eq!(
        plan_scan(&configuration(BackendKind::Remote), "http://x.example", "tok"),
        ScanAction::Send(remote)
    );
    assert_eq!(
        plan_scan(&configuration(BackendKind::Local), "http://x.example", "tok"),
        ScanAction::Run(Invocation {
            program: "python3".to_string(),
            args: vec!["classify.py".to_string(), "--json".to_string(), "http://x.example".to_string()],
            working_directory: Some("/srv/model".to_string()),
            timeout_secs: 60,
        })
    );
}

#[test]
fn scan_one_reads_the_event_by_its_backend() {
    let sparse = r#"{"risk_score":3}"#;
    let exchanged = ScanEvent::Exchanged(HttpOutcome::Answered { status: 200, body: sparse.to_string() });
    assert!(matches!(scan_one("asked", exchanged), Err(DispatchError::Decode { .. })));
    let ran = ScanEvent::Ran(ProcessOutcome::Exited {
        code: Some(0),
        stdout: sparse.to_string(),
        stderr: String::new(),
    });
    let record = scan_one("asked", ran).unwrap();
    assert_eq!(record.url, "asked");
    assert_eq!(record.classification, "unknown");
    assert_eq!(record.risk_score, 3);
}

#[test]
fn scan_one_hands_a_failure_to_the_caller() {
    let event = ScanEvent::Exchanged(HttpOutcome::Unreachable { detail: "dns".to_string() });
    assert_eq!(
        scan_one("asked", event),
        Err(DispatchError::Transport { detail: "API request failed: dns".to_string() })
    );
    let event = ScanEvent::Ran(ProcessOutcome::NotStarted { detail: "missing".to_string() });
    assert_eq!(
        scan_one("asked", event),
        Err(DispatchError::Unavailable { detail: "Failed to start the classifier: missing".to_string() })
    );
    assert_eq!(
        scan_one("asked", ScanEvent::Ran(ProcessOutcome::TimedOut)),
        Err(DispatchError::Transport { detail: "The classifier timed out".to_string() })
    );
    let event = ScanEvent::Exchanged(HttpOutcome::Answered { status: 200, body: body_for("http://z.example") });
    assert_eq!(scan_one("asked", event), Ok(good("http://z.example")));
}
