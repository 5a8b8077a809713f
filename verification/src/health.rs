//! Readiness probes: the health endpoint of the remote backend, and the
//! interpreter and dependencies of the local one.
//!
//! A backend that is not ready is a normal answer of a probe, not an error.
//! Only a probe that could not be carried out at all fails.

use vstd::prelude::*;
use crate::error::{DispatchError, DispatchErrorView};
use crate::http::{HttpMethod, HttpOutcome, HttpRequest};
use crate::json::{error_text, json_error_text, json_parse, parse};
use crate::local::{texts, Invocation, ProcessOutcome};
use crate::text::{contains, contains_text, join};

verus! {

/// Where the remote backend reports its health.
pub const HEALTH_URL: &'static str = "http://localhost:8000/health";

/// Seconds after which a health check is given up.
pub const HEALTH_TIMEOUT_SECS: u64 = 5;

/// Seconds after which a probe of the interpreter is given up.
pub const PROBE_TIMEOUT_SECS: u64 = 30;

/// What the dependency probe prints when every import succeeded.
pub const READY_MARKER: &'static str = "OK";

/// Whether the local backend can run.
#[derive(Debug, Clone, Copy, PartialEq, Eq)]
pub enum EnvironmentStatus {
    Ready,
    MissingDependencies,
}

/// What the probes of the local environment found.
#[derive(Debug, Clone, PartialEq, Eq)]
pub struct EnvironmentReport {
    /// What the interpreter's version check printed.
    pub interpreter_version: String,
    /// Whether the dependency probe printed the ready marker.
    pub dependencies_present: bool,
    /// Ready exactly when the dependencies are present.
    pub status: EnvironmentStatus,
}

/// Mathematical model of an [`EnvironmentReport`].
pub struct ReportView {
    pub interpreter_version: Seq<char>,
    pub dependencies_present: bool,
    pub status: EnvironmentStatus,
}

impl View for EnvironmentReport {
    type V = ReportView;

    open spec fn view(&self) -> ReportView {
        ReportView {
            interpreter_version: self.interpreter_version@,
            dependencies_present: self.dependencies_present,
            status: self.status,
        }
    }
}

/// `request` is the health check: a GET of the health endpoint, without
/// authorization or body, given up after five seconds.
pub open spec fn is_health_request(request: HttpRequest) -> bool {
    &&& request.method == HttpMethod::Get
    &&& request.url@ == HEALTH_URL@
    &&& request.authorization is None
    &&& request.body is None
    &&& request.timeout_secs == HEALTH_TIMEOUT_SECS
}

/// What the outcome of a health check amounts to: the body as a document,
/// whatever the status and whatever it says, or why there is none.
pub open spec fn health_outcome(outcome: HttpOutcome) -> Result<
    serde_json::Value,
    DispatchErrorView,
> {
    match outcome {
        HttpOutcome::Unreachable { detail } => Err(
            DispatchErrorView::Transport { detail: "Health check failed: "@ + detail@ },
        ),
        HttpOutcome::Answered { status, body } => match json_parse(body@) {
            Err(error) => Err(
                DispatchErrorView::Decode {
                    detail: "Failed to parse health response: "@ + json_error_text(error),
                },
            ),
            Ok(doc) => Ok(doc),
        },
    }
}

/// The model of what a health check returns.
pub open spec fn health_view(result: Result<serde_json::Value, DispatchError>) -> Result<
    serde_json::Value,
    DispatchErrorView,
> {
    match result {
        Ok(doc) => Ok(doc),
        Err(error) => Err(error@),
    }
}

/// The status that goes with the presence of the dependencies.
pub open spec fn status_for(dependencies_present: bool) -> EnvironmentStatus {
    if dependencies_present {
        EnvironmentStatus::Ready
    } else {
        EnvironmentStatus::MissingDependencies
    }
}

/// The names, separated by a comma and a space.
pub open spec fn comma_joined(names: Seq<Seq<char>>) -> Seq<char>
    decreases names.len(),
{
    if names.len() == 0 {
        Seq::empty()
    } else if names.len() == 1 {
        names[0]
    } else {
        comma_joined(names.drop_last()) + ", "@ + names.last()
    }
}

/// The program of the dependency probe: it imports every module and then
/// prints the ready marker, so the marker appears only if no import failed.
pub open spec fn probe_program(modules: Seq<Seq<char>>) -> Seq<char> {
    if modules.len() == 0 {
        "print('OK')"@
    } else {
        "import "@ + comma_joined(modules) + "; print('OK')"@
    }
}

/// `invocation` asks `executable` for its version: `<executable> --version`.
pub open spec fn is_version_invocation(invocation: Invocation, executable: Seq<char>) -> bool {
    &&& invocation.program@ == executable
    &&& texts(invocation.args@) == seq!["--version"@]
    &&& invocation.working_directory is None
    &&& invocation.timeout_secs == PROBE_TIMEOUT_SECS
}

/// `invocation` probes the dependencies: `<executable> -c <program>`.
pub open spec fn is_dependency_invocation(
    invocation: Invocation,
    executable: Seq<char>,
    modules: Seq<Seq<char>>,
) -> bool {
    &&& invocation.program@ == executable
    &&& texts(invocation.args@) == seq!["-c"@, probe_program(modules)]
    &&& invocation.working_directory is None
    &&& invocation.timeout_secs == PROBE_TIMEOUT_SECS
}

/// Why a probe that did not run to its end yields no report, if it did
/// not: unavailable when the process could not be started, a transport
/// error when it did not end in time.
pub open spec fn probe_failure(outcome: ProcessOutcome) -> Option<DispatchErrorView> {
    match outcome {
        ProcessOutcome::NotStarted { detail } => Some(
            DispatchErrorView::Unavailable {
                detail: "Failed to start the interpreter: "@ + detail@,
            },
        ),
        ProcessOutcome::TimedOut => Some(
            DispatchErrorView::Transport { detail: "The interpreter timed out"@ },
        ),
        ProcessOutcome::Exited { .. } => None,
    }
}

/// What the two probes of the local environment amount to. The report is
/// owed whenever both processes ran to their end, whatever their exit codes;
/// the dependencies count as present exactly when the probe's output holds
/// the ready marker. Otherwise the error is that of the version check, or
/// else that of the dependency probe.
pub open spec fn environment_outcome(version: ProcessOutcome, probe: ProcessOutcome) -> Result<
    ReportView,
    DispatchErrorView,
> {
    if probe_failure(version) is Some {
        Err(probe_failure(version)->0)
    } else if probe_failure(probe) is Some {
        Err(probe_failure(probe)->0)
    } else {
        let present = contains_text(probe->stdout@, READY_MARKER@);
        Ok(
            ReportView {
                interpreter_version: version->stdout@,
                dependencies_present: present,
                status: status_for(present),
            },
        )
    }
}

/// The model of what the environment check returns.
pub open spec fn environment_view(result: Result<EnvironmentReport, DispatchError>) -> Result<
    ReportView,
    DispatchErrorView,
> {
    match result {
        Ok(report) => Ok(report@),
        Err(error) => Err(error@),
    }
}

impl EnvironmentStatus {
    /// The status that goes with the presence of the dependencies.
    pub fn from_presence(dependencies_present: bool) -> (r: EnvironmentStatus)
        ensures
            r == status_for(dependencies_present),
    {
        if dependencies_present {
            EnvironmentStatus::Ready
        } else {
            EnvironmentStatus::MissingDependencies
        }
    }

    /// The status as the caller shows it: `ready` or `missing_dependencies`.
    pub fn label(&self) -> (r: &'static str)
        ensures
            r@ == (match *self {
                EnvironmentStatus::Ready => "ready"@,
                EnvironmentStatus::MissingDependencies => "missing_dependencies"@,
            }),
    {
        match self {
            EnvironmentStatus::Ready => "ready",
            EnvironmentStatus::MissingDependencies => "missing_dependencies",
        }
    }
}

/// The request that asks the remote backend for its health.
pub fn health_request() -> (r: HttpRequest)
    ensures
        is_health_request(r),
{
    HttpRequest {
        method: HttpMethod::Get,
        url: String::from_str(HEALTH_URL),
        authorization: None,
        body: None,
        timeout_secs: HEALTH_TIMEOUT_SECS,
    }
}

/// Turns the outcome of a health check into the backend's own status
/// document, or an error: a transport error when no response arrived, a
/// decode error for a body that is not JSON. What the document says of the
/// backend's readiness is for the caller to read.
pub fn check_api_health(outcome: HttpOutcome) -> (r: Result<serde_json::Value, DispatchError>)
    ensures
        health_view(r) == health_outcome(outcome),
{
    match outcome {
        HttpOutcome::Unreachable { detail } => Err(
            DispatchError::Transport { detail: join("Health check failed: ", detail.as_str()) },
        ),
        HttpOutcome::Answered { status: _, body } => match parse(body.as_str()) {
            Err(error) => Err(
                DispatchError::Decode {
                    detail: join("Failed to parse health response: ", error_text(&error).as_str()),
                },
            ),
            Ok(doc) => Ok(doc),
        },
    }
}

/// The run that asks the interpreter for its version.
pub fn version_invocation(executable: &str) -> (r: Invocation)
    ensures
        is_version_invocation(r, executable@),
{
    let mut args: Vec<String> = Vec::new();
    args.push(String::from_str("--version"));
    assert(texts(args@) =~= seq!["--version"@]);
    Invocation {
        program: String::from_str(executable),
        args,
        working_directory: None,
        timeout_secs: PROBE_TIMEOUT_SECS,
    }
}

/// The names, separated by a comma and a space.
pub fn comma_join(names: &Vec<String>) -> (r: String)
    ensures
        r@ == comma_joined(texts(names@)),
{
    let mut out = String::new();
    let mut i: usize = 0;
    while i < names.len()
        invariant
            i <= names@.len(),
            out@ == comma_joined(texts(names@).take(i as int)),
        decreases names@.len() - i,
    {
        let ghost before = texts(names@).take(i as int);
        let ghost after = texts(names@).take(i + 1);
        if i > 0 {
            out.append(", ");
        }
        out.append(names[i].as_str());
        proof {
            assert(after.drop_last() =~= before);
            assert(after.last() == names@[i as int]@);
            assert(out@ =~= comma_joined(after));
        }
        i = i + 1;
    }
    assert(texts(names@).take(i as int) =~= texts(names@));
    out
}

/// The run that probes whether the interpreter can import `modules`.
pub fn dependency_invocation(executable: &str, modules: &Vec<String>) -> (r: Invocation)
    ensures
        is_dependency_invocation(r, executable@, texts(modules@)),
{
    let program = if modules.len() == 0 {
        String::from_str("print('OK')")
    } else {
        let mut text = String::from_str("import ");
        text.append(comma_join(modules).as_str());
        text.append("; print('OK')");
        text
    };
    assert(program@ =~= probe_program(texts(modules@)));
    let mut args: Vec<String> = Vec::new();
    args.push(String::from_str("-c"));
    args.push(program);
    assert(texts(args@) =~= seq!["-c"@, probe_program(texts(modules@))]);
    Invocation {
        program: String::from_str(executable),
        args,
        working_directory: None,
        timeout_secs: PROBE_TIMEOUT_SECS,
    }
}

fn interpreter_not_started(detail: &str) -> (r: DispatchError)
    ensures
        r@ == (DispatchErrorView::Unavailable {
            detail: "Failed to start the interpreter: "@ + detail@,
        }),
{
    DispatchError::Unavailable { detail: join("Failed to start the interpreter: ", detail) }
}

fn interpreter_timed_out() -> (r: DispatchError)
    ensures
        r@ == (DispatchErrorView::Transport { detail: "The interpreter timed out"@ }),
{
    DispatchError::Transport { detail: String::from_str("The interpreter timed out") }
}

/// Turns the outcomes of the version check and of the dependency probe into
/// a report, or an error when either process did not run to its end.
pub fn check_environment(version: ProcessOutcome, probe: ProcessOutcome) -> (r: Result<
    EnvironmentReport,
    DispatchError,
>)
    ensures
        environment_view(r) == environment_outcome(version, probe),
{
    let interpreter_version = match version {
        ProcessOutcome::NotStarted { detail } => {
            return Err(interpreter_not_started(detail.as_str()));
        },
        ProcessOutcome::TimedOut => { return Err(interpreter_timed_out()); },
        ProcessOutcome::Exited { code: _, stdout, stderr: _ } => stdout,
    };
    let probed = match probe {
        ProcessOutcome::NotStarted { detail } => {
            return Err(interpreter_not_started(detail.as_str()));
        },
        ProcessOutcome::TimedOut => { return Err(interpreter_timed_out()); },
        ProcessOutcome::Exited { code: _, stdout, stderr: _ } => stdout,
    };
    let dependencies_present = contains(probed.as_str(), READY_MARKER);
    Ok(
        EnvironmentReport {
            interpreter_version,
            dependencies_present,
            status: EnvironmentStatus::from_presence(dependencies_present),
        },
    )
}

/// A health check that reached no backend is a transport error, never a
/// document.
pub proof fn lemma_unreachable_health_is_transport(outcome: HttpOutcome)
    requires
        outcome is Unreachable,
    ensures
        health_outcome(outcome) is Err,
        health_outcome(outcome)->Err_0 is Transport,
{
}

/// The status of an environment report is decided by the presence of the
/// dependencies alone.
pub proof fn lemma_status_follows_presence(version: ProcessOutcome, probe: ProcessOutcome)
    requires
        environment_outcome(version, probe) is Ok,
    ensures
        environment_outcome(version, probe)->Ok_0.status == status_for(
            environment_outcome(version, probe)->Ok_0.dependencies_present,
        ),
        environment_outcome(version, probe)->Ok_0.status == EnvironmentStatus::Ready
            <==> environment_outcome(version, probe)->Ok_0.dependencies_present,
{
}

} // verus!
