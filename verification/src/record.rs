//! The normalised outcome of one classification.

use vstd::prelude::*;
use crate::error::{DispatchError, DispatchErrorView};

verus! {

/// One classification outcome, whichever backend produced it.
///
/// `confidence_bits` is the IEEE-754 binary64 bit pattern of the confidence,
/// so `0` stands for `0.0`. `features` is the structured payload that only
/// the remote backend supplies; it is carried as it came.
#[derive(Debug, Clone, PartialEq)]
pub struct ResultRecord {
    pub url: String,
    pub classification: String,
    pub confidence_bits: u64,
    pub risk_score: i32,
    pub explanation: String,
    pub features: Option<serde_json::Value>,
}

/// Mathematical model of a [`ResultRecord`].
pub struct RecordView {
    pub url: Seq<char>,
    pub classification: Seq<char>,
    pub confidence_bits: u64,
    pub risk_score: int,
    pub explanation: Seq<char>,
    pub features: Option<serde_json::Value>,
}

impl View for ResultRecord {
    type V = RecordView;

    open spec fn view(&self) -> RecordView {
        RecordView {
            url: self.url@,
            classification: self.classification@,
            confidence_bits: self.confidence_bits,
            risk_score: self.risk_score as int,
            explanation: self.explanation@,
            features: self.features,
        }
    }
}

/// The classification label reserved for dispatch-level failures.
pub open spec fn failure_label() -> Seq<char> {
    "error"@
}

/// The record that stands for a failed dispatch of `url`: the reserved
/// label, zero confidence, zero risk, and the error's message as explanation.
pub open spec fn failure_view(url: Seq<char>, error: DispatchErrorView) -> RecordView {
    RecordView {
        url,
        classification: failure_label(),
        confidence_bits: 0,
        risk_score: 0,
        explanation: error.message(),
        features: None,
    }
}

/// The model of what a dispatch returns: a record or an error.
pub open spec fn result_view(result: Result<ResultRecord, DispatchError>) -> Result<
    RecordView,
    DispatchErrorView,
> {
    match result {
        Ok(record) => Ok(record@),
        Err(error) => Err(error@),
    }
}

impl RecordView {
    /// Whether the record carries the reserved failure label.
    pub open spec fn is_failure(self) -> bool {
        self.classification == failure_label()
    }
}

impl ResultRecord {
    /// The record that stands for a failed dispatch of `url`.
    pub fn failure(url: &str, error: &DispatchError) -> (r: ResultRecord)
        ensures
            r@ == failure_view(url@, error@),
    {
        ResultRecord {
            url: String::from_str(url),
            classification: String::from_str("error"),
            confidence_bits: 0,
            risk_score: 0,
            explanation: error.message(),
            features: None,
        }
    }

    /// Whether the record carries the reserved failure label.
    pub fn is_failure(&self) -> (r: bool)
        ensures
            r == self@.is_failure(),
    {
        let label = String::from_str("error");
        self.classification == label
    }
}

} // verus!
