//! The local backend: an executable that classifies one URL per run.
//!
//! [`classify_invocation`] says what to run for a URL; [`classify_outcome`]
//! turns the outcome of that run into a record or an error. The output of
//! the executable is decoded leniently: a field that is missing or mistyped
//! gets its default, and the rest of the record stands.

use vstd::prelude::*;
use crate::document::{read_document, reading_of, Reading, ReadingView};
use crate::error::{DispatchError, DispatchErrorView};
use crate::json::{error_text, json_error_text, json_parse, parse};
use crate::record::{result_view, RecordView, ResultRecord};
use crate::text::join;

verus! {

/// Seconds after which a classification run is given up.
pub const CLASSIFY_RUN_TIMEOUT_SECS: u64 = 60;

/// A process for the caller to run: `program` with `args`, in
/// `working_directory` where one is given. The run is given up, and the
/// process ended, after `timeout_secs` seconds.
#[derive(Debug, Clone, PartialEq, Eq)]
pub struct Invocation {
    pub program: String,
    pub args: Vec<String>,
    pub working_directory: Option<String>,
    pub timeout_secs: u64,
}

/// How a run went.
#[derive(Debug, Clone, PartialEq, Eq)]
pub enum ProcessOutcome {
    /// The process could not be started.
    NotStarted { detail: String },
    /// The process was still running when its time was up.
    TimedOut,
    /// The process ran to its end. `code` is its exit code, `None` when it
    /// ended without one.
    Exited { code: Option<i32>, stdout: String, stderr: String },
}

/// The characters of each string of a sequence.
pub open spec fn texts(strings: Seq<String>) -> Seq<Seq<char>> {
    strings.map_values(|s: String| s@)
}

/// `invocation` runs `executable` on `script` for `url`, asking for
/// machine-readable output, in `directory`.
pub open spec fn is_classify_invocation(
    invocation: Invocation,
    executable: Seq<char>,
    script: Seq<char>,
    url: Seq<char>,
    directory: Seq<char>,
) -> bool {
    &&& invocation.program@ == executable
    &&& texts(invocation.args@) == seq![script, "--json"@, url]
    &&& invocation.working_directory matches Some(dir) && dir@ == directory
    &&& invocation.timeout_secs == CLASSIFY_RUN_TIMEOUT_SECS
}

/// Whether a process ended with exit code zero.
pub open spec fn exited_cleanly(code: Option<i32>) -> bool {
    code == Some(0i32)
}

/// The record that the fields of a local answer amount to for a request of
/// `url`. A field that was not read gets its default: the requested URL,
/// `unknown`, zero confidence, zero risk, an empty explanation. A risk score
/// that does not fit the record counts as not read. There are no features.
pub open spec fn local_view(url: Seq<char>, reading: ReadingView) -> RecordView {
    RecordView {
        url: match reading.url {
            Some(text) => text,
            None => url,
        },
        classification: match reading.classification {
            Some(text) => text,
            None => "unknown"@,
        },
        confidence_bits: match reading.confidence_bits {
            Some(bits) => bits,
            None => 0,
        },
        risk_score: match reading.risk_score {
            Some(score) => if i32::MIN <= score <= i32::MAX {
                score as int
            } else {
                0
            },
            None => 0,
        },
        explanation: match reading.explanation {
            Some(text) => text,
            None => Seq::empty(),
        },
        features: None,
    }
}

/// What the outcome of a classification run for `url` amounts to.
pub open spec fn local_outcome(url: Seq<char>, outcome: ProcessOutcome) -> Result<
    RecordView,
    DispatchErrorView,
> {
    match outcome {
        ProcessOutcome::NotStarted { detail } => Err(
            DispatchErrorView::Unavailable { detail: "Failed to start the classifier: "@ + detail@ },
        ),
        ProcessOutcome::TimedOut => Err(
            DispatchErrorView::Transport { detail: "The classifier timed out"@ },
        ),
        ProcessOutcome::Exited { code, stdout, stderr } => if !exited_cleanly(code) {
            Err(DispatchErrorView::Backend { status: None, body: stderr@ })
        } else {
            match json_parse(stdout@) {
                Err(error) => Err(
                    DispatchErrorView::Decode {
                        detail: "Failed to parse classifier output: "@ + json_error_text(error),
                    },
                ),
                Ok(doc) => Ok(local_view(url, reading_of(doc))),
            }
        },
    }
}

/// The run that asks the local backend to classify `url`:
/// `<executable> <script> --json <url>` in `directory`.
pub fn classify_invocation(executable: &str, script: &str, url: &str, directory: &str) -> (r:
    Invocation)
    ensures
        is_classify_invocation(r, executable@, script@, url@, directory@),
{
    let mut args: Vec<String> = Vec::new();
    args.push(String::from_str(script));
    args.push(String::from_str("--json"));
    args.push(String::from_str(url));
    assert(texts(args@) =~= seq![script@, "--json"@, url@]);
    Invocation {
        program: String::from_str(executable),
        args,
        working_directory: Some(String::from_str(directory)),
        timeout_secs: CLASSIFY_RUN_TIMEOUT_SECS,
    }
}

/// Whether a process ended with exit code zero.
pub fn is_clean_exit(code: Option<i32>) -> (r: bool)
    ensures
        r == exited_cleanly(code),
{
    match code {
        Some(value) => value == 0,
        None => false,
    }
}

/// Builds the record for a request of `url` out of the fields of a local
/// answer, each missing field replaced by its default.
pub fn local_record(url: &str, reading: Reading) -> (r: ResultRecord)
    ensures
        r@ == local_view(url@, reading@),
{
    let Reading { url: subject, classification, confidence_bits, risk_score, explanation, features: _ } =
        reading;
    ResultRecord {
        url: match subject {
            Some(text) => text,
            None => String::from_str(url),
        },
        classification: match classification {
            Some(text) => text,
            None => String::from_str("unknown"),
        },
        confidence_bits: match confidence_bits {
            Some(bits) => bits,
            None => 0,
        },
        risk_score: match risk_score {
            Some(score) => if -2147483648 <= score && score <= 2147483647 {
                score as i32
            } else {
                0
            },
            None => 0,
        },
        explanation: match explanation {
            Some(text) => text,
            None => String::new(),
        },
        features: None,
    }
}

/// Turns the outcome of a classification run for `url` into a record or an
/// error: unavailable when the process could not be started, a transport
/// error when it did not end in time, a backend error
/// with the captured error output for a non-zero exit, a decode error for
/// output that is not a JSON document, and otherwise the record that the
/// output spells out, defaults filled in.
pub fn classify_outcome(url: &str, outcome: ProcessOutcome) -> (r: Result<
    ResultRecord,
    DispatchError,
>)
    ensures
        result_view(r) == local_outcome(url@, outcome),
{
    match outcome {
        ProcessOutcome::NotStarted { detail } => Err(
            DispatchError::Unavailable {
                detail: join("Failed to start the classifier: ", detail.as_str()),
            },
        ),
        ProcessOutcome::TimedOut => Err(
            DispatchError::Transport { detail: String::from_str("The classifier timed out") },
        ),
        ProcessOutcome::Exited { code, stdout, stderr } => {
            if !is_clean_exit(code) {
                return Err(DispatchError::Backend { status: None, body: stderr });
            }
            match parse(stdout.as_str()) {
                Err(error) => Err(
                    DispatchError::Decode {
                        detail: join(
                            "Failed to parse classifier output: ",
                            error_text(&error).as_str(),
                        ),
                    },
                ),
                Ok(doc) => Ok(local_record(url, read_document(&doc))),
            }
        },
    }
}

/// Each field of a local record is the field that was read, or its default
/// when none was: the requested URL, `unknown`, zero confidence, zero risk,
/// an empty explanation. One missing field changes no other.
pub proof fn lemma_local_defaults(url: Seq<char>, reading: ReadingView)
    ensures
        local_view(url, reading).url == (if reading.url is Some {
            reading.url->0
        } else {
            url
        }),
        local_view(url, reading).classification == (if reading.classification is Some {
            reading.classification->0
        } else {
            "unknown"@
        }),
        local_view(url, reading).confidence_bits == (if reading.confidence_bits is Some {
            reading.confidence_bits->0
        } else {
            0
        }),
        local_view(url, reading).risk_score == (if reading.risk_score is Some && i32::MIN
            <= reading.risk_score->0 <= i32::MAX {
            reading.risk_score->0 as int
        } else {
            0
        }),
        local_view(url, reading).explanation == (if reading.explanation is Some {
            reading.explanation->0
        } else {
            Seq::<char>::empty()
        }),
        local_view(url, reading).features is None,
{
}

} // verus!
