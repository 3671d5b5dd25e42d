//! The security audit trail: which event each step of an elevation is
//! recorded as, and the text recorded. Writing to the event log belongs to
//! the caller.

use vstd::prelude::*;
use vstd::string::*;
use crate::broker_protocol::{execution_mode_named, ElevationRequest, ElevationResponse, ExecutionMode};
use crate::text::{decimal, joined, lower_seq, push_decimal, push_joined, push_signed_decimal, signed_decimal, string_views};

verus! {

/// Event ID of a received elevation request.
pub const EVENT_ELEVATION_REQUEST: u32 = 1001;
/// Event ID of a successful elevation.
pub const EVENT_ELEVATION_SUCCESS: u32 = 1002;
/// Event ID of a denied elevation.
pub const EVENT_ELEVATION_DENIED: u32 = 1003;
/// Event ID of a failed authentication.
pub const EVENT_AUTHENTICATION_FAILED: u32 = 1004;
/// Event ID of an internal error.
pub const EVENT_INTERNAL_ERROR: u32 = 1005;

/// The severity an event is logged with.
#[derive(Debug, Clone, Copy, PartialEq, Eq, Structural)]
pub enum EventLevel {
    Information,
    Warning,
    Error,
}

/// One entry of the audit trail.
#[derive(Debug, Clone)]
pub struct AuditRecord {
    pub event_id: u32,
    pub level: EventLevel,
    pub message: String,
}

/// Audit logger for security events.
pub struct AuditLogger;

/// The name of an execution mode as it appears in the audit trail.
pub open spec fn mode_name(m: ExecutionMode) -> Seq<char> {
    match m {
        ExecutionMode::Inline => "Inline"@,
        ExecutionMode::NewWindow => "NewWindow"@,
        ExecutionMode::CurrentWindow => "CurrentWindow"@,
        ExecutionMode::DisableInput => "DisableInput"@,
        ExecutionMode::Hidden => "Hidden"@,
    }
}

fn mode_name_str(m: ExecutionMode) -> (s: &'static str)
    ensures
        s@ == mode_name(m),
{
    match m {
        ExecutionMode::Inline => "Inline",
        ExecutionMode::NewWindow => "NewWindow",
        ExecutionMode::CurrentWindow => "CurrentWindow",
        ExecutionMode::DisableInput => "DisableInput",
        ExecutionMode::Hidden => "Hidden",
    }
}

/// The text recorded for a received request.
pub open spec fn request_text(r: ElevationRequest) -> Seq<char> {
    "Elevation request received\nCommand: "@ + r.command@ + "\nArguments: "@ + joined(
        string_views(r.arguments@),
        " "@,
    ) + "\nExecution Mode: "@ + mode_name(r.execution_mode) + "\nWorking Directory: "@ + (match r.working_directory {
        Some(w) => w@,
        None => "(current)"@,
    }) + "\nAuth Token Length: "@ + decimal(r.auth_token@.len()) + " bytes"@
}

/// The text recorded for a successful elevation.
pub open spec fn success_text(r: ElevationRequest, resp: ElevationResponse) -> Seq<char> {
    "Elevation succeeded\nCommand: "@ + r.command@ + "\nProcess ID: "@ + decimal(
        (match resp.process_id {
            Some(p) => p,
            None => 0u32,
        }) as nat,
    ) + "\nExit Code: "@ + (match resp.exit_code {
        Some(c) => signed_decimal(c as int),
        None => "N/A"@,
    })
}

/// The text recorded when something of `command` went wrong.
pub open spec fn command_problem_text(headline: Seq<char>, command: Seq<char>, label: Seq<char>, detail: Seq<char>) -> Seq<char> {
    headline + "\nCommand: "@ + command + label + detail
}

impl AuditLogger {
    /// The record of a received elevation request.
    pub fn elevation_request_record(request: &ElevationRequest) -> (a: AuditRecord)
        ensures
            a.event_id == EVENT_ELEVATION_REQUEST,
            a.level == EventLevel::Information,
            a.message@ == request_text(*request),
    {
        let mut m = String::from_str("Elevation request received\nCommand: ");
        m.append(request.command.as_str());
        m.append("\nArguments: ");
        push_joined(&mut m, &request.arguments, " ");
        m.append("\nExecution Mode: ");
        m.append(mode_name_str(request.execution_mode));
        m.append("\nWorking Directory: ");
        match &request.working_directory {
            Some(w) => m.append(w.as_str()),
            None => m.append("(current)"),
        }
        m.append("\nAuth Token Length: ");
        push_decimal(&mut m, request.auth_token.len() as u64);
        m.append(" bytes");
        assert(m@ =~= request_text(*request));
        AuditRecord { event_id: EVENT_ELEVATION_REQUEST, level: EventLevel::Information, message: m }
    }

    /// The record of a successful elevation.
    pub fn elevation_success_record(request: &ElevationRequest, response: &ElevationResponse) -> (a: AuditRecord)
        ensures
            a.event_id == EVENT_ELEVATION_SUCCESS,
            a.level == EventLevel::Information,
            a.message@ == success_text(*request, *response),
    {
        let mut m = String::from_str("Elevation succeeded\nCommand: ");
        m.append(request.command.as_str());
        m.append("\nProcess ID: ");
        let pid: u32 = match response.process_id {
            Some(p) => p,
            None => 0,
        };
        push_decimal(&mut m, pid as u64);
        m.append("\nExit Code: ");
        match response.exit_code {
            Some(c) => push_signed_decimal(&mut m, c as i64),
            None => m.append("N/A"),
        }
        assert(m@ =~= success_text(*request, *response));
        AuditRecord { event_id: EVENT_ELEVATION_SUCCESS, level: EventLevel::Information, message: m }
    }

    fn problem_text(headline: &str, command: &str, label: &str, detail: &str) -> (m: String)
        ensures
            m@ == command_problem_text(headline@, command@, label@, detail@),
    {
        let mut m = String::from_str(headline);
        m.append("\nCommand: ");
        m.append(command);
        m.append(label);
        m.append(detail);
        assert(m@ =~= command_problem_text(headline@, command@, label@, detail@));
        m
    }

    /// The record of an elevation that failed with `error`.
    pub fn elevation_failure_record(request: &ElevationRequest, error: &str) -> (a: AuditRecord)
        ensures
            a.event_id == EVENT_INTERNAL_ERROR,
            a.level == EventLevel::Error,
            a.message@ == command_problem_text("Elevation failed"@, request.command@, "\nError: "@, error@),
    {
        let m = Self::problem_text("Elevation failed", request.command.as_str(), "\nError: ", error);
        AuditRecord { event_id: EVENT_INTERNAL_ERROR, level: EventLevel::Error, message: m }
    }

    /// The record of a failed authentication.
    pub fn authentication_failure_record(request: &ElevationRequest, reason: &str) -> (a: AuditRecord)
        ensures
            a.event_id == EVENT_AUTHENTICATION_FAILED,
            a.level == EventLevel::Warning,
            a.message@ == command_problem_text("Authentication failed"@, request.command@, "\nReason: "@, reason@),
    {
        let m = Self::problem_text("Authentication failed", request.command.as_str(), "\nReason: ", reason);
        AuditRecord { event_id: EVENT_AUTHENTICATION_FAILED, level: EventLevel::Warning, message: m }
    }

    /// The record of a denied elevation.
    pub fn access_denied_record(request: &ElevationRequest, reason: &str) -> (a: AuditRecord)
        ensures
            a.event_id == EVENT_ELEVATION_DENIED,
            a.level == EventLevel::Warning,
            a.message@ == command_problem_text("Elevation denied"@, request.command@, "\nReason: "@, reason@),
    {
        let m = Self::problem_text("Elevation denied", request.command.as_str(), "\nReason: ", reason);
        AuditRecord { event_id: EVENT_ELEVATION_DENIED, level: EventLevel::Warning, message: m }
    }
}


/// The execution mode recorded in an audit entry is the request's own: its
/// recorded name, read back as a mode name, gives that mode, for every mode.
pub proof fn lemma_mode_name_reads_back(m: ExecutionMode)
    ensures
        execution_mode_named(mode_name(m)) == Some(m),
{
    reveal_strlit("Inline");
    reveal_strlit("NewWindow");
    reveal_strlit("CurrentWindow");
    reveal_strlit("DisableInput");
    reveal_strlit("Hidden");
    let w = lower_seq(mode_name(m));
    match m {
        ExecutionMode::Inline => {
            assert(w =~= seq!['i', 'n', 'l', 'i', 'n', 'e']);
        },
        ExecutionMode::NewWindow => {
            assert(w =~= seq!['n', 'e', 'w', 'w', 'i', 'n', 'd', 'o', 'w']);
            assert(w != seq!['i', 'n', 'l', 'i', 'n', 'e']);
        },
        ExecutionMode::CurrentWindow => {
            assert(w =~= seq!['c', 'u', 'r', 'r', 'e', 'n', 't', 'w', 'i', 'n', 'd', 'o', 'w']);
            assert(w.len() == 13);
        },
        ExecutionMode::DisableInput => {
            assert(w =~= seq!['d', 'i', 's', 'a', 'b', 'l', 'e', 'i', 'n', 'p', 'u', 't']);
            assert(w.len() == 12);
            assert(w[0] == 'd');
        },
        ExecutionMode::Hidden => {
            assert(w =~= seq!['h', 'i', 'd', 'd', 'e', 'n']);
            assert(w[0] == 'h');
        },
    }
}

} // verus!
