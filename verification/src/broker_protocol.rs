//! The protocol between the `sudo` client and the elevation broker service:
//! the messages, their fields, and the checks that each side applies.

use vstd::prelude::*;
use vstd::string::*;
use crate::environment::EnvironmentMap;
use crate::text::{decimal, lower_seq, matches_folded, push_decimal};

verus! {

/// Protocol version for compatibility checking.
pub const PROTOCOL_VERSION: u32 = 1;

/// Named pipe path for broker communication.
pub const BROKER_PIPE_NAME: &'static str = "\\\\.\\pipe\\SudoElevationBroker";

/// Maximum message size (16 MiB).
pub const MAX_MESSAGE_SIZE: usize = 16 * 1024 * 1024;

/// Timeout for broker operations (30 seconds).
pub const DEFAULT_TIMEOUT_MS: u32 = 30_000;

/// Execution modes for the elevated process.
#[derive(Debug, Clone, Copy, PartialEq, Eq, Structural)]
pub enum ExecutionMode {
    /// Run inline: capture output and return when complete.
    Inline,
    /// Run in a new console window.
    NewWindow,
    /// Run attached to the current console.
    CurrentWindow,
    /// Prevent interactive input.
    DisableInput,
    /// Run without a visible window.
    Hidden,
}

/// Status codes for elevation requests.
#[derive(Debug, Clone, Copy, PartialEq, Eq, Structural)]
pub enum StatusCode {
    /// Operation completed successfully.
    Success,
    /// Authentication failed.
    AuthenticationFailed,
    /// The user denied the elevation request.
    UserDenied,
    /// The requested command was not found.
    CommandNotFound,
    /// Access denied (insufficient privileges).
    AccessDenied,
    /// Timeout waiting for process completion.
    Timeout,
    /// Invalid request parameters.
    InvalidRequest,
    /// Broker service internal error.
    InternalError,
    /// Unsupported protocol version.
    UnsupportedVersion,
    /// Windows Hello not available.
    HelloNotAvailable,
    /// Administrator Protection not enabled.
    APNotEnabled,
    /// General error; its code, 999, stays apart from the specific codes.
    Error,
}

/// Which output stream a chunk comes from.
#[derive(Debug, Clone, Copy, PartialEq, Eq, Structural)]
pub enum OutputStreamType {
    /// Standard output.
    Stdout,
    /// Standard error.
    Stderr,
}

/// Request to elevate and execute a process.
#[derive(Debug, Clone)]
pub struct ElevationRequest {
    /// Protocol version.
    pub version: u32,
    /// Authentication token (from Windows Hello or another mechanism).
    pub auth_token: Vec<u8>,
    /// Executable path to run.
    pub command: String,
    /// Command-line arguments.
    pub arguments: Vec<String>,
    /// Working directory (`None`: inherit from the client).
    pub working_directory: Option<String>,
    /// Environment variables (overrides and additions only).
    pub environment: EnvironmentMap,
    /// Execution mode.
    pub execution_mode: ExecutionMode,
    /// Timeout in milliseconds (0: no timeout).
    pub timeout_ms: u32,
    /// Whether to capture stdout.
    pub capture_stdout: bool,
    /// Whether to capture stderr.
    pub capture_stderr: bool,
}

/// Response to an elevation request.
#[derive(Debug, Clone)]
pub struct ElevationResponse {
    /// Request status.
    pub status: StatusCode,
    /// Error message if the status is not `Success`.
    pub error_message: Option<String>,
    /// Process ID of the elevated process (if successful).
    pub process_id: Option<u32>,
    /// Exit code of the process (if completed).
    pub exit_code: Option<i32>,
    /// Whether the process is still running.
    pub is_running: bool,
}

/// Streaming output chunk from the elevated process.
#[derive(Debug, Clone)]
pub struct OutputChunk {
    /// Which output stream this data is from.
    pub stream: OutputStreamType,
    /// Output data.
    pub data: Vec<u8>,
    /// Whether this is the final chunk for this stream.
    pub is_final: bool,
    /// Sequence number for ordering.
    pub sequence: u64,
}

/// The execution mode that a name selects, ignoring ASCII case.
pub open spec fn execution_mode_named(s: Seq<char>) -> Option<ExecutionMode> {
    let w = lower_seq(s);
    if w == seq!['i', 'n', 'l', 'i', 'n', 'e'] || w == seq!['i'] {
        Some(ExecutionMode::Inline)
    } else if w == seq!['n', 'e', 'w'] || w == seq!['n', 'e', 'w', 'w', 'i', 'n', 'd', 'o', 'w']
        || w == seq!['n'] {
        Some(ExecutionMode::NewWindow)
    } else if w == seq!['c', 'u', 'r', 'r', 'e', 'n', 't'] || w == seq![
        'c',
        'u',
        'r',
        'r',
        'e',
        'n',
        't',
        'w',
        'i',
        'n',
        'd',
        'o',
        'w',
    ] || w == seq!['c'] {
        Some(ExecutionMode::CurrentWindow)
    } else if w == seq!['d', 'i', 's', 'a', 'b', 'l', 'e', 'i', 'n', 'p', 'u', 't'] || w == seq![
        'd',
    ] {
        Some(ExecutionMode::DisableInput)
    } else if w == seq!['h', 'i', 'd', 'd', 'e', 'n'] || w == seq!['h'] {
        Some(ExecutionMode::Hidden)
    } else {
        None
    }
}

impl ExecutionMode {
    /// Parses a mode name: `inline`/`i`, `new`/`newwindow`/`n`,
    /// `current`/`currentwindow`/`c`, `disableinput`/`d`, `hidden`/`h`,
    /// in any ASCII case.
    pub fn from_str(s: &str) -> (m: Option<Self>)
        ensures
            m == execution_mode_named(s@),
    {
        proof {
            reveal_strlit("inline");
            reveal_strlit("i");
            reveal_strlit("new");
            reveal_strlit("newwindow");
            reveal_strlit("n");
            reveal_strlit("current");
            reveal_strlit("currentwindow");
            reveal_strlit("c");
            reveal_strlit("disableinput");
            reveal_strlit("d");
            reveal_strlit("hidden");
            reveal_strlit("h");
            assert("inline"@ =~= seq!['i', 'n', 'l', 'i', 'n', 'e']);
            assert("i"@ =~= seq!['i']);
            assert("new"@ =~= seq!['n', 'e', 'w']);
            assert("newwindow"@ =~= seq!['n', 'e', 'w', 'w', 'i', 'n', 'd', 'o', 'w']);
            assert("n"@ =~= seq!['n']);
            assert("current"@ =~= seq!['c', 'u', 'r', 'r', 'e', 'n', 't']);
            assert("currentwindow"@ =~= seq![
                'c',
                'u',
                'r',
                'r',
                'e',
                'n',
                't',
                'w',
                'i',
                'n',
                'd',
                'o',
                'w',
            ]);
            assert("c"@ =~= seq!['c']);
            assert("disableinput"@ =~= seq!['d', 'i', 's', 'a', 'b', 'l', 'e', 'i', 'n', 'p', 'u', 't']);
            assert("d"@ =~= seq!['d']);
            assert("hidden"@ =~= seq!['h', 'i', 'd', 'd', 'e', 'n']);
            assert("h"@ =~= seq!['h']);
            assert(lower_seq("inline"@) =~= "inline"@);
            assert(lower_seq("i"@) =~= "i"@);
            assert(lower_seq("new"@) =~= "new"@);
            assert(lower_seq("newwindow"@) =~= "newwindow"@);
            assert(lower_seq("n"@) =~= "n"@);
            assert(lower_seq("current"@) =~= "current"@);
            assert(lower_seq("currentwindow"@) =~= "currentwindow"@);
            assert(lower_seq("c"@) =~= "c"@);
            assert(lower_seq("disableinput"@) =~= "disableinput"@);
            assert(lower_seq("d"@) =~= "d"@);
            assert(lower_seq("hidden"@) =~= "hidden"@);
            assert(lower_seq("h"@) =~= "h"@);
        }
        if matches_folded(s, "inline") || matches_folded(s, "i") {
            Some(ExecutionMode::Inline)
        } else if matches_folded(s, "new") || matches_folded(s, "newwindow") || matches_folded(
            s,
            "n",
        ) {
            Some(ExecutionMode::NewWindow)
        } else if matches_folded(s, "current") || matches_folded(s, "currentwindow")
            || matches_folded(s, "c") {
            Some(ExecutionMode::CurrentWindow)
        } else if matches_folded(s, "disableinput") || matches_folded(s, "d") {
            Some(ExecutionMode::DisableInput)
        } else if matches_folded(s, "hidden") || matches_folded(s, "h") {
            Some(ExecutionMode::Hidden)
        } else {
            None
        }
    }
}

/// The human-readable text of a status.
pub open spec fn status_message(s: StatusCode) -> Seq<char> {
    match s {
        StatusCode::Success => "Success"@,
        StatusCode::AuthenticationFailed => "Authentication failed"@,
        StatusCode::UserDenied => "User denied the elevation request"@,
        StatusCode::CommandNotFound => "Command not found"@,
        StatusCode::AccessDenied => "Access denied"@,
        StatusCode::Timeout => "Operation timed out"@,
        StatusCode::InvalidRequest => "Invalid request parameters"@,
        StatusCode::InternalError => "Internal broker service error"@,
        StatusCode::UnsupportedVersion => "Unsupported protocol version"@,
        StatusCode::HelloNotAvailable => "Windows Hello is not available"@,
        StatusCode::APNotEnabled => "Administrator Protection is not enabled"@,
        StatusCode::Error => "An error occurred"@,
    }
}

/// The numeric code of a status.
pub open spec fn status_code_number(s: StatusCode) -> u32 {
    match s {
        StatusCode::Success => 0,
        StatusCode::AuthenticationFailed => 1,
        StatusCode::UserDenied => 2,
        StatusCode::CommandNotFound => 3,
        StatusCode::AccessDenied => 4,
        StatusCode::Timeout => 5,
        StatusCode::InvalidRequest => 6,
        StatusCode::InternalError => 7,
        StatusCode::UnsupportedVersion => 8,
        StatusCode::HelloNotAvailable => 9,
        StatusCode::APNotEnabled => 10,
        StatusCode::Error => 999,
    }
}

impl StatusCode {
    /// The human-readable text of this status.
    pub fn to_error_message(&self) -> (m: &'static str)
        ensures
            m@ == status_message(*self),
    {
        match self {
            StatusCode::Success => "Success",
            StatusCode::AuthenticationFailed => "Authentication failed",
            StatusCode::UserDenied => "User denied the elevation request",
            StatusCode::CommandNotFound => "Command not found",
            StatusCode::AccessDenied => "Access denied",
            StatusCode::Timeout => "Operation timed out",
            StatusCode::InvalidRequest => "Invalid request parameters",
            StatusCode::InternalError => "Internal broker service error",
            StatusCode::UnsupportedVersion => "Unsupported protocol version",
            StatusCode::HelloNotAvailable => "Windows Hello is not available",
            StatusCode::APNotEnabled => "Administrator Protection is not enabled",
            StatusCode::Error => "An error occurred",
        }
    }

    /// Whether this status is `Success`.
    pub fn is_success(&self) -> (b: bool)
        ensures
            b == (*self == StatusCode::Success),
    {
        match self {
            StatusCode::Success => true,
            _ => false,
        }
    }

    /// The numeric code of this status (0 to 10 for the specific statuses, 999 for `Error`).
    pub fn code(&self) -> (c: u32)
        ensures
            c == status_code_number(*self),
    {
        match self {
            StatusCode::Success => 0,
            StatusCode::AuthenticationFailed => 1,
            StatusCode::UserDenied => 2,
            StatusCode::CommandNotFound => 3,
            StatusCode::AccessDenied => 4,
            StatusCode::Timeout => 5,
            StatusCode::InvalidRequest => 6,
            StatusCode::InternalError => 7,
            StatusCode::UnsupportedVersion => 8,
            StatusCode::HelloNotAvailable => 9,
            StatusCode::APNotEnabled => 10,
            StatusCode::Error => 999,
        }
    }
}

/// Different statuses have different codes, and only `Success` counts as success.
pub proof fn lemma_status_codes_distinct(a: StatusCode, b: StatusCode)
    ensures
        a != b ==> status_code_number(a) != status_code_number(b),
        (status_code_number(a) == 0) <==> (a == StatusCode::Success),
{
}

/// Why a request is invalid, or `None` when it is valid. The version is
/// checked first, then the command, then the timeout.
pub open spec fn validation_error(r: ElevationRequest) -> Option<Seq<char>> {
    if r.version != PROTOCOL_VERSION {
        Some(
            "Unsupported protocol version: "@ + decimal(r.version as nat) + " (expected "@
                + decimal(PROTOCOL_VERSION as nat) + ")"@,
        )
    } else if r.command@.len() == 0 {
        Some("Command cannot be empty"@)
    } else if r.timeout_ms > 0 && r.timeout_ms < 1000 {
        Some("Timeout must be at least 1000ms or 0 for no timeout"@)
    } else {
        None
    }
}

/// A request is accepted exactly when it speaks this protocol version, names
/// a command, and has no timeout or one of at least a second.
pub proof fn lemma_validation_accepts(r: ElevationRequest)
    ensures
        (validation_error(r) is None) <==> (r.version == PROTOCOL_VERSION && r.command@.len() > 0
            && (r.timeout_ms == 0 || r.timeout_ms >= 1000)),
{
}

/// A request built with `ElevationRequest::new` (or carrying its version and
/// timeout) is valid exactly when its command is not empty.
pub proof fn lemma_default_request_valid(r: ElevationRequest)
    requires
        r.version == PROTOCOL_VERSION,
        r.timeout_ms == DEFAULT_TIMEOUT_MS,
    ensures
        (validation_error(r) is None) <==> r.command@.len() > 0,
{
}

/// Mode names are read without regard to ASCII case.
pub proof fn lemma_mode_names_ignore_case(s: Seq<char>, t: Seq<char>)
    requires
        lower_seq(s) == lower_seq(t),
    ensures
        execution_mode_named(s) == execution_mode_named(t),
{
}

/// The error for a message of `len` bytes, or `None` when it is within the limit.
pub open spec fn message_size_error(len: nat) -> Option<Seq<char>> {
    if len > MAX_MESSAGE_SIZE {
        Some(
            "Message too large: "@ + decimal(len) + " bytes (max "@ + decimal(
                MAX_MESSAGE_SIZE as nat,
            ) + ")"@,
        )
    } else {
        None
    }
}

/// Refuses a message longer than `MAX_MESSAGE_SIZE` before it is decoded.
pub fn check_message_size(len: usize) -> (r: Result<(), String>)
    ensures
        match r {
            Ok(()) => message_size_error(len as nat) is None,
            Err(m) => message_size_error(len as nat) == Some(m@),
        },
{
    if len > MAX_MESSAGE_SIZE {
        let mut m = String::from_str("Message too large: ");
        push_decimal(&mut m, len as u64);
        m.append(" bytes (max ");
        push_decimal(&mut m, MAX_MESSAGE_SIZE as u64);
        m.append(")");
        Err(m)
    } else {
        Ok(())
    }
}

impl ElevationRequest {
    /// A request for `command` with `arguments`, protocol defaults for the rest.
    pub fn new(command: String, arguments: Vec<String>) -> (r: Self)
        ensures
            r.version == PROTOCOL_VERSION,
            r.auth_token@ == Seq::<u8>::empty(),
            r.command == command,
            r.arguments == arguments,
            r.working_directory is None,
            r.environment@ == Map::<Seq<char>, Seq<char>>::empty(),
            r.execution_mode == ExecutionMode::Inline,
            r.timeout_ms == DEFAULT_TIMEOUT_MS,
            r.capture_stdout,
            r.capture_stderr,
    {
        ElevationRequest {
            version: PROTOCOL_VERSION,
            auth_token: Vec::new(),
            command,
            arguments,
            working_directory: None,
            environment: EnvironmentMap::new(),
            execution_mode: ExecutionMode::Inline,
            timeout_ms: DEFAULT_TIMEOUT_MS,
            capture_stdout: true,
            capture_stderr: true,
        }
    }

    /// Checks the version, the command and the timeout, in that order.
    pub fn validate(&self) -> (r: Result<(), String>)
        ensures
            match r {
                Ok(()) => validation_error(*self) is None,
                Err(m) => validation_error(*self) == Some(m@),
            },
    {
        if self.version != PROTOCOL_VERSION {
            let mut m = String::from_str("Unsupported protocol version: ");
            push_decimal(&mut m, self.version as u64);
            m.append(" (expected ");
            push_decimal(&mut m, PROTOCOL_VERSION as u64);
            m.append(")");
            return Err(m);
        }
        if self.command.as_str().is_empty() {
            return Err(String::from_str("Command cannot be empty"));
        }
        if self.timeout_ms > 0 && self.timeout_ms < 1000 {
            return Err(String::from_str("Timeout must be at least 1000ms or 0 for no timeout"));
        }
        Ok(())
    }
}

impl ElevationResponse {
    /// The process started and is still running.
    pub fn success(process_id: u32) -> (r: Self)
        ensures
            r.status == StatusCode::Success,
            r.error_message is None,
            r.process_id == Some(process_id),
            r.exit_code is None,
            r.is_running,
    {
        ElevationResponse {
            status: StatusCode::Success,
            error_message: None,
            process_id: Some(process_id),
            exit_code: None,
            is_running: true,
        }
    }

    /// The request failed with `status` and `message`.
    pub fn error(status: StatusCode, message: &str) -> (r: Self)
        ensures
            r.status == status,
            r.error_message matches Some(m) && m@ == message@,
            r.process_id is None,
            r.exit_code is None,
            !r.is_running,
    {
        ElevationResponse {
            status,
            error_message: Some(String::from_str(message)),
            process_id: None,
            exit_code: None,
            is_running: false,
        }
    }

    /// The process ran to completion with `exit_code`.
    pub fn completed(process_id: u32, exit_code: i32) -> (r: Self)
        ensures
            r.status == StatusCode::Success,
            r.error_message is None,
            r.process_id == Some(process_id),
            r.exit_code == Some(exit_code),
            !r.is_running,
    {
        ElevationResponse {
            status: StatusCode::Success,
            error_message: None,
            process_id: Some(process_id),
            exit_code: Some(exit_code),
            is_running: false,
        }
    }
}

impl OutputChunk {
    /// A chunk of `stream` output.
    pub fn new(stream: OutputStreamType, data: Vec<u8>, sequence: u64, is_final: bool) -> (c: Self)
        ensures
            c.stream == stream,
            c.data == data,
            c.sequence == sequence,
            c.is_final == is_final,
    {
        OutputChunk { stream, data, is_final, sequence }
    }
}

} // verus!
