//! The outbound side of the tray shell: which call each backend action
//! stands for, and how the terminal outcome of one attempt is reported.
//!
//! The platform layer performs the calls themselves (an HTTP POST for
//! pause and resume, a browser launch for the dashboard); everything that
//! can be decided about them — the exact URL, the mechanism, and the
//! report produced for each outcome — is decided and proved here.

use vstd::prelude::*;
use vstd::string::*;

verus! {

use crate::BackendAction;

/// The mechanism an outbound call uses.
#[derive(Clone, Copy, PartialEq, Eq, Debug, Structural)]
pub enum RequestKind {
    /// An HTTP POST with an empty body and no authentication.
    HttpPost,
    /// A request to the operating system to open the default browser.
    BrowserOpen,
}

/// The single outbound call that one backend action stands for.
pub struct OutboundRequest {
    /// How the call is carried out.
    pub kind: RequestKind,
    /// The full URL the call targets.
    pub url: String,
}

/// How one attempt at an outbound call ended. An attempt has exactly two
/// terminal outcomes: it completed (for HTTP, a response arrived with
/// whatever status; for the dashboard, the operating system accepted the
/// open request), or it could not be completed at all.
pub enum AttemptOutcome {
    /// The round trip finished.
    Completed,
    /// The call could not be completed; `detail` renders the underlying
    /// transport or launch error.
    Failed { detail: String },
}

/// What the HTTP transport handed back for a pause or resume call: a
/// response carrying some status code, or a transport-level error
/// (connection refused, name resolution failure, timeout).
pub enum HttpCallOutcome {
    /// A response arrived; `status` is its HTTP status code.
    Response { status: u16 },
    /// The request could not be completed; `detail` renders the error.
    TransportError { detail: String },
}

/// The fixed base address of the backend service.
pub open spec fn base_url() -> Seq<char> {
    "http://localhost:8000"@
}

/// The path each backend action targets under the base address.
pub open spec fn action_path(action: BackendAction) -> Seq<char> {
    match action {
        BackendAction::Pause => "/admin/pause"@,
        BackendAction::Resume => "/admin/resume"@,
        BackendAction::Dashboard => "/monitor"@,
    }
}

/// The full URL each backend action targets.
pub open spec fn action_url(action: BackendAction) -> Seq<char> {
    base_url() + action_path(action)
}

/// The mechanism each backend action uses: pause and resume are HTTP
/// posts; the dashboard is opened through the default browser.
pub open spec fn request_kind_of(action: BackendAction) -> RequestKind {
    match action {
        BackendAction::Pause => RequestKind::HttpPost,
        BackendAction::Resume => RequestKind::HttpPost,
        BackendAction::Dashboard => RequestKind::BrowserOpen,
    }
}

/// Builds the one outbound call that `action` stands for: its mechanism
/// and the exact URL it must target.
pub fn action_request(action: BackendAction) -> (r: OutboundRequest)
    ensures
        r.kind == request_kind_of(action),
        r.url@ == action_url(action),
{
    let path: &str = match action {
        BackendAction::Pause => "/admin/pause",
        BackendAction::Resume => "/admin/resume",
        BackendAction::Dashboard => "/monitor",
    };
    let kind = match action {
        BackendAction::Pause => RequestKind::HttpPost,
        BackendAction::Resume => RequestKind::HttpPost,
        BackendAction::Dashboard => RequestKind::BrowserOpen,
    };
    let url = String::from_str("http://localhost:8000").concat(path);
    OutboundRequest { kind, url }
}

/// How a pause or resume attempt is classified: any response at all,
/// whatever its status code, counts as completion; only a transport-level
/// error counts as failure.
pub open spec fn http_attempt_outcome(outcome: HttpCallOutcome) -> AttemptOutcome {
    match outcome {
        HttpCallOutcome::Response { status } => AttemptOutcome::Completed,
        HttpCallOutcome::TransportError { detail } => AttemptOutcome::Failed { detail },
    }
}

/// Classifies what the HTTP transport handed back for a pause or resume
/// call. A response is completion regardless of its status code — a non-2xx
/// status is deliberately not treated as failure.
pub fn classify_http_outcome(outcome: HttpCallOutcome) -> (r: AttemptOutcome)
    ensures
        r == http_attempt_outcome(outcome),
{
    match outcome {
        HttpCallOutcome::Response { status: _ } => AttemptOutcome::Completed,
        HttpCallOutcome::TransportError { detail } => AttemptOutcome::Failed { detail },
    }
}

/// The fixed confirmation message each action reports on completion.
pub open spec fn success_message(action: BackendAction) -> Seq<char> {
    match action {
        BackendAction::Pause => "Service paused"@,
        BackendAction::Resume => "Service resumed"@,
        BackendAction::Dashboard => "Dashboard opened"@,
    }
}

/// The fixed prefix of each action's failure message.
pub open spec fn failure_prefix(action: BackendAction) -> Seq<char> {
    match action {
        BackendAction::Pause => "Failed to pause service: "@,
        BackendAction::Resume => "Failed to resume service: "@,
        BackendAction::Dashboard => "Failed to open dashboard: "@,
    }
}

/// The failure message for `action`: the fixed prefix followed by the
/// rendering of the underlying error.
pub open spec fn failure_message(action: BackendAction, detail: Seq<char>) -> Seq<char> {
    failure_prefix(action) + detail
}

/// Turns the terminal outcome of one attempt into its report: the fixed
/// confirmation message on completion, an error message embedding the
/// underlying error otherwise. Success is reported exactly when the
/// attempt completed.
pub fn action_result(action: BackendAction, outcome: AttemptOutcome) -> (r: Result<String, String>)
    ensures
        r is Ok <==> outcome is Completed,
        outcome is Completed ==> (r matches Ok(m) && m@ == success_message(action)),
        outcome matches AttemptOutcome::Failed { detail }
            ==> (r matches Err(m) && m@ == failure_message(action, detail@)),
{
    match outcome {
        AttemptOutcome::Completed => {
            let message: &str = match action {
                BackendAction::Pause => "Service paused",
                BackendAction::Resume => "Service resumed",
                BackendAction::Dashboard => "Dashboard opened",
            };
            Ok(String::from_str(message))
        },
        AttemptOutcome::Failed { detail } => {
            let prefix: &str = match action {
                BackendAction::Pause => "Failed to pause service: ",
                BackendAction::Resume => "Failed to resume service: ",
                BackendAction::Dashboard => "Failed to open dashboard: ",
            };
            Err(String::from_str(prefix).concat(detail.as_str()))
        },
    }
}

/// Decides what a finished backend task writes: a failure report becomes
/// a diagnostic for the process's error stream, caught at the task and
/// propagated no further; a success confirmation is discarded silently.
/// No outcome ever reaches the tray surface or crashes the process.
pub fn task_diagnostic(report: Result<String, String>) -> (r: Option<String>)
    ensures
        report matches Err(m) ==> r == Some(m),
        report is Ok ==> r is None,
{
    match report {
        Ok(_) => None,
        Err(m) => Some(m),
    }
}

/// Law: each backend action stands for exactly its own call: pause posts
/// to `/admin/pause`, resume posts to `/admin/resume`, and the dashboard
/// opens the default browser at `/monitor`, all under the fixed local
/// base address.
pub proof fn lemma_action_calls()
    ensures
        request_kind_of(BackendAction::Pause) == RequestKind::HttpPost,
        request_kind_of(BackendAction::Resume) == RequestKind::HttpPost,
        request_kind_of(BackendAction::Dashboard) == RequestKind::BrowserOpen,
        action_url(BackendAction::Pause) == "http://localhost:8000/admin/pause"@,
        action_url(BackendAction::Resume) == "http://localhost:8000/admin/resume"@,
        action_url(BackendAction::Dashboard) == "http://localhost:8000/monitor"@,
{
    reveal_strlit("http://localhost:8000");
    reveal_strlit("/admin/pause");
    reveal_strlit("/admin/resume");
    reveal_strlit("/monitor");
    reveal_strlit("http://localhost:8000/admin/pause");
    reveal_strlit("http://localhost:8000/admin/resume");
    reveal_strlit("http://localhost:8000/monitor");
    assert(action_url(BackendAction::Pause) =~= "http://localhost:8000/admin/pause"@);
    assert(action_url(BackendAction::Resume) =~= "http://localhost:8000/admin/resume"@);
    assert(action_url(BackendAction::Dashboard) =~= "http://localhost:8000/monitor"@);
}

/// Law: a pause or resume call that yields any HTTP response at all — 2xx
/// through 5xx alike — is classified as completed and therefore reports
/// success; no status code is treated as failure.
pub proof fn lemma_any_status_completes(status: u16)
    ensures
        http_attempt_outcome(HttpCallOutcome::Response { status }) == AttemptOutcome::Completed,
{
}

/// Law: a failure report embeds the rendering of the underlying error:
/// the message is the action's fixed prefix followed, character for
/// character, by the error text itself.
pub proof fn lemma_failure_message_embeds_detail(action: BackendAction, detail: Seq<char>)
    ensures
        failure_message(action, detail).len() == failure_prefix(action).len() + detail.len(),
        failure_message(action, detail).subrange(
            failure_prefix(action).len() as int,
            failure_message(action, detail).len() as int,
        ) == detail,
{
    assert(failure_message(action, detail).subrange(
        failure_prefix(action).len() as int,
        failure_message(action, detail).len() as int,
    ) =~= detail);
}

} // verus!
