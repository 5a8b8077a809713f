//! One scan: which backend to ask, and what its answer amounts to.
//!
//! [`plan_scan`] picks the backend that the configuration names and says
//! what to do for a URL; [`scan_one`] reads the outcome of that action. A
//! failure of a single scan is handed to the caller as it is.

use vstd::prelude::*;
use crate::context::{BackendKind, Configuration, ConfigurationView};
use crate::error::{DispatchError, DispatchErrorView};
use crate::http::{HttpOutcome, HttpRequest};
use crate::local::{
    classify_invocation, classify_outcome, is_classify_invocation, local_outcome, Invocation,
    ProcessOutcome,
};
use crate::record::{result_view, RecordView, ResultRecord};
use crate::remote::{classify_request, classify_response, is_classify_request, remote_outcome};

verus! {

/// What the caller is to do for one scan.
#[derive(Debug, Clone, PartialEq, Eq)]
pub enum ScanAction {
    /// Send this request to the remote backend.
    Send(HttpRequest),
    /// Run this process, the local backend.
    Run(Invocation),
}

/// What came of the action of one scan.
#[derive(Debug, Clone, PartialEq, Eq)]
pub enum ScanEvent {
    /// The outcome of the request to the remote backend.
    Exchanged(HttpOutcome),
    /// The outcome of the run of the local backend.
    Ran(ProcessOutcome),
}

/// `action` is the action for `url` under `configuration`: the
/// classification request with `token` when the remote backend is active,
/// the run of the configured classifier when the local one is.
pub open spec fn is_scan_action(
    action: ScanAction,
    configuration: ConfigurationView,
    url: Seq<char>,
    token: Seq<char>,
) -> bool {
    match configuration.backend {
        BackendKind::Remote => action matches ScanAction::Send(request) && is_classify_request(
            request,
            url,
            token,
        ),
        BackendKind::Local => action matches ScanAction::Run(invocation)
            && is_classify_invocation(
            invocation,
            configuration.executable,
            configuration.script,
            url,
            configuration.working_directory,
        ),
    }
}

/// What the event of a scan of `url` amounts to, by the backend that it
/// came from.
pub open spec fn scan_outcome(url: Seq<char>, event: ScanEvent) -> Result<
    RecordView,
    DispatchErrorView,
> {
    match event {
        ScanEvent::Exchanged(outcome) => remote_outcome(outcome),
        ScanEvent::Ran(outcome) => local_outcome(url, outcome),
    }
}

/// The action that classifies `url` with the backend that `configuration`
/// names. The token is used by the remote backend only.
pub fn plan_scan(configuration: &Configuration, url: &str, token: &str) -> (r: ScanAction)
    ensures
        is_scan_action(r, configuration@, url@, token@),
{
    match configuration.backend {
        BackendKind::Remote => ScanAction::Send(classify_request(url, token)),
        BackendKind::Local => ScanAction::Run(
            classify_invocation(
                configuration.executable.as_str(),
                configuration.script.as_str(),
                url,
                configuration.working_directory.as_str(),
            ),
        ),
    }
}

/// Turns the event of a scan of `url` into a record or an error, as the
/// backend that it came from defines it.
pub fn scan_one(url: &str, event: ScanEvent) -> (r: Result<ResultRecord, DispatchError>)
    ensures
        result_view(r) == scan_outcome(url@, event),
{
    match event {
        ScanEvent::Exchanged(outcome) => classify_response(outcome),
        ScanEvent::Ran(outcome) => classify_outcome(url, outcome),
    }
}

} // verus!
