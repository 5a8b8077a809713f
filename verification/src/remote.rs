//! The remote backend: an authenticated HTTP classification service.
//!
//! [`classify_request`] says what to send for a URL; [`classify_response`]
//! turns the outcome of that exchange into a record or an error. The remote
//! answer is decoded strictly: every field of the record must be there, with
//! the right kind of value, and is taken over as it is.

use vstd::prelude::*;
use crate::document::{read_document, reading_of, Reading, ReadingView};
use crate::error::{DispatchError, DispatchErrorView};
use crate::http::{is_success, success_status, HttpMethod, HttpOutcome, HttpRequest, Payload};
use crate::json::{error_text, json_error_text, json_parse, parse};
use crate::record::{result_view, RecordView, ResultRecord};
use crate::text::join;

verus! {

/// Where classification requests go.
pub const ANALYZE_URL: &'static str = "http://localhost:8000/api/v1/analyze";

/// Seconds after which a classification exchange is given up.
pub const CLASSIFY_TIMEOUT_SECS: u64 = 30;

/// `request` is the classification request for `url` under `token`: a POST
/// to the analysis endpoint, with the bearer token as authorization and the
/// URL in the body, a forced scan not asked for.
pub open spec fn is_classify_request(request: HttpRequest, url: Seq<char>, token: Seq<char>) -> bool {
    &&& request.method == HttpMethod::Post
    &&& request.url@ == ANALYZE_URL@
    &&& request.authorization matches Some(value) && value@ == "Bearer "@ + token
    &&& request.body matches Some(Payload::Scan { url: subject, force_scan }) && subject@ == url
        && !force_scan
    &&& request.timeout_secs == CLASSIFY_TIMEOUT_SECS
}

/// The decode error for a response whose `field` is missing or holds a value
/// of the wrong kind.
pub open spec fn shape_error_view(field: Seq<char>) -> DispatchErrorView {
    DispatchErrorView::Decode {
        detail: "Failed to parse response: field `"@ + field + "` is missing or of the wrong type"@,
    }
}

/// What a remote answer with the given fields decodes to. All five required
/// fields must have been read, and the risk score must fit the record; the
/// first field that fails, in the order of the record, is the one reported.
pub open spec fn remote_view(reading: ReadingView) -> Result<RecordView, DispatchErrorView> {
    if reading.url is None {
        Err(shape_error_view("url"@))
    } else if reading.classification is None {
        Err(shape_error_view("classification"@))
    } else if reading.confidence_bits is None {
        Err(shape_error_view("confidence"@))
    } else if reading.risk_score is None || !(i32::MIN <= reading.risk_score->0 <= i32::MAX) {
        Err(shape_error_view("risk_score"@))
    } else if reading.explanation is None {
        Err(shape_error_view("explanation"@))
    } else {
        Ok(
            RecordView {
                url: reading.url->0,
                classification: reading.classification->0,
                confidence_bits: reading.confidence_bits->0,
                risk_score: reading.risk_score->0 as int,
                explanation: reading.explanation->0,
                features: reading.features,
            },
        )
    }
}

/// What the outcome of a classification exchange amounts to.
pub open spec fn remote_outcome(outcome: HttpOutcome) -> Result<RecordView, DispatchErrorView> {
    match outcome {
        HttpOutcome::Unreachable { detail } => Err(
            DispatchErrorView::Transport { detail: "API request failed: "@ + detail@ },
        ),
        HttpOutcome::Answered { status, body } => if !success_status(status) {
            Err(DispatchErrorView::Backend { status: Some(status), body: body@ })
        } else {
            match json_parse(body@) {
                Err(error) => Err(
                    DispatchErrorView::Decode {
                        detail: "Failed to parse response: "@ + json_error_text(error),
                    },
                ),
                Ok(doc) => remote_view(reading_of(doc)),
            }
        },
    }
}

/// The request that asks the remote backend to classify `url`.
pub fn classify_request(url: &str, token: &str) -> (r: HttpRequest)
    ensures
        is_classify_request(r, url@, token@),
{
    HttpRequest {
        method: HttpMethod::Post,
        url: String::from_str(ANALYZE_URL),
        authorization: Some(join("Bearer ", token)),
        body: Some(Payload::Scan { url: String::from_str(url), force_scan: false }),
        timeout_secs: CLASSIFY_TIMEOUT_SECS,
    }
}

fn shape_error(field: &str) -> (r: DispatchError)
    ensures
        r@ == shape_error_view(field@),
{
    let mut detail = String::from_str("Failed to parse response: field `");
    detail.append(field);
    detail.append("` is missing or of the wrong type");
    DispatchError::Decode { detail }
}

/// Decodes the fields of a remote answer into a record, strictly.
pub fn remote_record(reading: Reading) -> (r: Result<ResultRecord, DispatchError>)
    ensures
        result_view(r) == remote_view(reading@),
{
    let Reading { url, classification, confidence_bits, risk_score, explanation, features } =
        reading;
    let url = match url {
        Some(text) => text,
        None => { return Err(shape_error("url")); },
    };
    let classification = match classification {
        Some(text) => text,
        None => { return Err(shape_error("classification")); },
    };
    let confidence_bits = match confidence_bits {
        Some(bits) => bits,
        None => { return Err(shape_error("confidence")); },
    };
    let risk_score: i32 = match risk_score {
        Some(score) => if -2147483648 <= score && score <= 2147483647 {
            score as i32
        } else {
            return Err(shape_error("risk_score"));
        },
        None => { return Err(shape_error("risk_score")); },
    };
    let explanation = match explanation {
        Some(text) => text,
        None => { return Err(shape_error("explanation")); },
    };
    Ok(ResultRecord { url, classification, confidence_bits, risk_score, explanation, features })
}

/// Turns the outcome of a classification exchange into a record or an error:
/// a transport error when no response arrived, a backend error for a
/// non-success status, a decode error for a body that is not a JSON document
/// of the record's shape, and otherwise the record that the body spells out.
pub fn classify_response(outcome: HttpOutcome) -> (r: Result<ResultRecord, DispatchError>)
    ensures
        result_view(r) == remote_outcome(outcome),
{
    match outcome {
        HttpOutcome::Unreachable { detail } => Err(
            DispatchError::Transport { detail: join("API request failed: ", detail.as_str()) },
        ),
        HttpOutcome::Answered { status, body } => {
            if !is_success(status) {
                return Err(DispatchError::Backend { status: Some(status), body });
            }
            match parse(body.as_str()) {
                Err(error) => Err(
                    DispatchError::Decode {
                        detail: join("Failed to parse response: ", error_text(&error).as_str()),
                    },
                ),
                Ok(doc) => remote_record(read_document(&doc)),
            }
        },
    }
}

/// A remote answer in which every required field was read decodes to a
/// record that holds exactly those fields, and the features as they came.
pub proof fn lemma_remote_round_trip(reading: ReadingView)
    requires
        reading.url is Some,
        reading.classification is Some,
        reading.confidence_bits is Some,
        reading.risk_score is Some,
        i32::MIN <= reading.risk_score->0 <= i32::MAX,
        reading.explanation is Some,
    ensures
        remote_view(reading) is Ok,
        remote_view(reading)->Ok_0.url == reading.url->0,
        remote_view(reading)->Ok_0.classification == reading.classification->0,
        remote_view(reading)->Ok_0.confidence_bits == reading.confidence_bits->0,
        remote_view(reading)->Ok_0.risk_score == reading.risk_score->0,
        remote_view(reading)->Ok_0.explanation == reading.explanation->0,
        remote_view(reading)->Ok_0.features == reading.features,
{
}

} // verus!
