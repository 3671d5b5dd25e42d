//! The broker's handling of one elevation: the checks before a process is
//! created, how it is created, how long the broker waits for it, and the
//! response. Creating the process and waiting on it belong to the caller.

use vstd::prelude::*;
use vstd::string::*;
use crate::broker_protocol::{ElevationRequest, ElevationResponse, ExecutionMode, StatusCode};
use crate::text::{decimal, joined, push_decimal, push_joined, string_views};

verus! {

/// How long one wait on the process lasts before the shutdown flag is
/// looked at again, in milliseconds.
pub const WAIT_SLICE_MS: u32 = 100;

/// Handles process elevation.
pub struct ElevationHandler {}

/// How the elevated process gets its console.
#[derive(Debug, Clone, Copy, PartialEq, Eq, Structural)]
pub enum ConsoleMode {
    /// A new console window (`CREATE_NEW_CONSOLE`).
    NewConsole,
    /// No window at all (`CREATE_NO_WINDOW`).
    NoWindow,
    /// No console (`DETACHED_PROCESS`).
    Detached,
    /// The creator's console (no flag).
    Inherit,
}

/// The console mode that an execution mode asks for.
pub open spec fn console_mode_of(m: ExecutionMode) -> ConsoleMode {
    match m {
        ExecutionMode::NewWindow => ConsoleMode::NewConsole,
        ExecutionMode::Hidden => ConsoleMode::NoWindow,
        ExecutionMode::Inline => ConsoleMode::Detached,
        ExecutionMode::CurrentWindow => ConsoleMode::Inherit,
        ExecutionMode::DisableInput => ConsoleMode::NoWindow,
    }
}

/// The command line of a request: the command, then the arguments
/// separated by single spaces.
pub open spec fn command_line_of(r: ElevationRequest) -> Seq<char> {
    if r.arguments@.len() == 0 {
        r.command@
    } else {
        r.command@ + " "@ + joined(string_views(r.arguments@), " "@)
    }
}

/// The text of a failure to create the process.
pub open spec fn launch_failure_text(error: Seq<char>) -> Seq<char> {
    "Failed to create elevated process: "@ + error
}

/// The response to a request that carries no authentication token.
pub open spec fn missing_token_response(r: ElevationResponse) -> bool {
    &&& r.status == StatusCode::AuthenticationFailed
    &&& r.error_message matches Some(m) && m@ == "Authentication token is required"@
    &&& r.process_id is None
    &&& r.exit_code is None
    &&& !r.is_running
}

impl ElevationHandler {
    /// A handler.
    pub fn new() -> Self {
        ElevationHandler {}
    }

    /// Refuses a request without an authentication token; `None` lets it go on.
    pub fn check_auth_token(&self, request: &ElevationRequest) -> (r: Option<ElevationResponse>)
        ensures
            match r {
                Some(resp) => request.auth_token@.len() == 0 && missing_token_response(resp),
                None => request.auth_token@.len() != 0,
            },
    {
        if request.auth_token.len() == 0 {
            Some(ElevationResponse::error(StatusCode::AuthenticationFailed, "Authentication token is required"))
        } else {
            None
        }
    }

    /// The console mode to create the process with.
    pub fn console_mode(&self, mode: ExecutionMode) -> (c: ConsoleMode)
        ensures
            c == console_mode_of(mode),
    {
        match mode {
            ExecutionMode::NewWindow => ConsoleMode::NewConsole,
            ExecutionMode::Hidden => ConsoleMode::NoWindow,
            ExecutionMode::Inline => ConsoleMode::Detached,
            ExecutionMode::CurrentWindow => ConsoleMode::Inherit,
            ExecutionMode::DisableInput => ConsoleMode::NoWindow,
        }
    }

    /// The command line to create the process with.
    pub fn command_line(&self, request: &ElevationRequest) -> (s: String)
        ensures
            s@ == command_line_of(*request),
    {
        let mut s = String::from_str(request.command.as_str());
        if request.arguments.len() != 0 {
            s.append(" ");
            push_joined(&mut s, &request.arguments, " ");
        }
        assert(s@ =~= command_line_of(*request));
        s
    }

    /// Whether the broker waits for the process to exit: only inline.
    pub fn waits_for_exit(&self, mode: ExecutionMode) -> (b: bool)
        ensures
            b == (mode == ExecutionMode::Inline),
    {
        match mode {
            ExecutionMode::Inline => true,
            _ => false,
        }
    }

    /// The response once the process was created: running only while it was
    /// left to run on its own; an exit code only when it exited.
    pub fn launched_response(&self, process_id: u32, end: ProcessEnd) -> (r: ElevationResponse)
        ensures
            r.status == StatusCode::Success,
            r.error_message is None,
            r.process_id == Some(process_id),
            r.exit_code == (match end {
                ProcessEnd::Exited(c) => Some(c),
                _ => None,
            }),
            r.is_running == (end == ProcessEnd::Detached),
    {
        let (exit_code, is_running) = match end {
            ProcessEnd::Detached => (None, true),
            ProcessEnd::Exited(c) => (Some(c), false),
            ProcessEnd::Terminated => (None, false),
        };
        ElevationResponse {
            status: StatusCode::Success,
            error_message: None,
            process_id: Some(process_id),
            exit_code,
            is_running,
        }
    }

    /// The response when the process could not be created.
    pub fn launch_failure_response(&self, error: &str) -> (r: ElevationResponse)
        ensures
            r.status == StatusCode::AccessDenied,
            r.error_message matches Some(m) && m@ == launch_failure_text(error@),
            r.process_id is None,
            r.exit_code is None,
            !r.is_running,
    {
        let mut m = String::from_str("Failed to create elevated process: ");
        m.append(error);
        ElevationResponse {
            status: StatusCode::AccessDenied,
            error_message: Some(m),
            process_id: None,
            exit_code: None,
            is_running: false,
        }
    }
}

impl Default for ElevationHandler {
    fn default() -> (h: Self) {
        Self::new()
    }
}

/// How the broker left a process it created.
#[derive(Debug, Clone, Copy, PartialEq, Eq, Structural)]
pub enum ProcessEnd {
    /// Not waited for: it runs on its own.
    Detached,
    /// It exited with this exit code.
    Exited(i32),
    /// The broker terminated it because the service is stopping.
    Terminated,
}

/// What one wait on the process reported.
#[derive(Debug, Clone, Copy, PartialEq, Eq, Structural)]
pub enum WaitSignal {
    /// A stop of the service was requested before the slice began.
    ShutdownRequested,
    /// The process exited with this raw exit code.
    Exited(u32),
    /// The slice ended with the process still running.
    StillRunning,
    /// The wait itself failed with this result code.
    Failed(u32),
}

/// What the broker does after one wait.
#[derive(Debug, Clone, Copy, PartialEq, Eq, Structural)]
pub enum WaitAction {
    /// The process exited with this exit code.
    Exited(i32),
    /// Wait another slice.
    KeepWaiting,
    /// The timeout has passed: terminate the process and report it.
    Expired,
    /// The wait failed with this result code: report it.
    WaitFailed(u32),
    /// The service is stopping: terminate the process and report it as ended.
    Terminated,
}

/// The exit code that a raw process exit status stands for (the same 32 bits, signed).
pub open spec fn exit_code_of(raw: u32) -> i32 {
    raw as i32
}

/// The text of a wait that ended in an error.
pub open spec fn wait_error_text(a: WaitAction) -> Seq<char> {
    match a {
        WaitAction::Expired => "Process timeout"@,
        WaitAction::WaitFailed(code) => "WaitForSingleObject failed: WAIT_EVENT("@ + decimal(code as nat) + ")"@,
        _ => Seq::empty(),
    }
}

impl WaitAction {
    /// The text of a wait that ended in an error.
    pub fn error_text(&self) -> (m: Option<String>)
        ensures
            match *self {
                WaitAction::Expired | WaitAction::WaitFailed(_) => m matches Some(s) && s@ == wait_error_text(*self),
                _ => m is None,
            },
    {
        match self {
            WaitAction::Expired => Some(String::from_str("Process timeout")),
            WaitAction::WaitFailed(code) => {
                let mut s = String::from_str("WaitForSingleObject failed: WAIT_EVENT(");
                push_decimal(&mut s, *code as u64);
                s.append(")");
                Some(s)
            },
            _ => None,
        }
    }
}

/// The broker's wait on an inline process: time waited so far against the
/// request's timeout (0: no timeout).
pub struct ProcessWait {
    elapsed_ms: u32,
    timeout_ms: u32,
}

impl ProcessWait {
    /// Milliseconds waited so far.
    pub closed spec fn elapsed(self) -> u32 {
        self.elapsed_ms
    }

    /// The timeout in milliseconds (0: no timeout).
    pub closed spec fn timeout(self) -> u32 {
        self.timeout_ms
    }

    /// A wait that has not started.
    pub fn new(timeout_ms: u32) -> (w: Self)
        ensures
            w.elapsed() == 0,
            w.timeout() == timeout_ms,
    {
        ProcessWait { elapsed_ms: 0, timeout_ms }
    }

    /// Milliseconds waited so far.
    pub fn elapsed_ms(&self) -> (e: u32)
        ensures
            e == self.elapsed(),
    {
        self.elapsed_ms
    }

    /// Takes in what one slice of waiting reported. A slice that ends with
    /// the process running adds `WAIT_SLICE_MS` (up to `u32::MAX`); the wait
    /// expires once the time waited reaches a non-zero timeout.
    pub fn after_slice(&mut self, signal: WaitSignal) -> (a: WaitAction)
        ensures
            final(self).timeout() == old(self).timeout(),
            match signal {
                WaitSignal::ShutdownRequested => a == WaitAction::Terminated
                    && final(self).elapsed() == old(self).elapsed(),
                WaitSignal::Exited(raw) => a == WaitAction::Exited(exit_code_of(raw))
                    && final(self).elapsed() == old(self).elapsed(),
                WaitSignal::Failed(code) => a == WaitAction::WaitFailed(code)
                    && final(self).elapsed() == old(self).elapsed(),
                WaitSignal::StillRunning => {
                    &&& final(self).elapsed() == (if old(self).elapsed() + WAIT_SLICE_MS
                        <= u32::MAX {
                        (old(self).elapsed() + WAIT_SLICE_MS) as u32
                    } else {
                        u32::MAX
                    })
                    &&& a == (if old(self).timeout() != 0 && final(self).elapsed()
                        >= old(self).timeout() {
                        WaitAction::Expired
                    } else {
                        WaitAction::KeepWaiting
                    })
                },
            },
    {
        match signal {
            WaitSignal::ShutdownRequested => WaitAction::Terminated,
            WaitSignal::Exited(raw) => WaitAction::Exited(raw as i32),
            WaitSignal::Failed(code) => WaitAction::WaitFailed(code),
            WaitSignal::StillRunning => {
                self.elapsed_ms = self.elapsed_ms.saturating_add(WAIT_SLICE_MS);
                if self.timeout_ms != 0 && self.elapsed_ms >= self.timeout_ms {
                    WaitAction::Expired
                } else {
                    WaitAction::KeepWaiting
                }
            },
        }
    }
}

/// Where the handling of one request stands.
#[derive(Debug, Clone, Copy, PartialEq, Eq, Structural)]
pub enum ElevationStage {
    /// The request has arrived; nothing has been done yet.
    Received,
    /// The process is being created.
    Launching,
    /// Waiting for the inline process with this ID.
    Waiting(u32),
    /// A response or an error has been produced.
    Finished,
}

/// What happened since the last step.
#[derive(Debug, Clone, Copy, PartialEq, Eq, Structural)]
pub enum ElevationEvent {
    /// Handling starts.
    Begin,
    /// The broker's own token could not be opened.
    SystemTokenFailed,
    /// The process was created with this ID.
    ProcessCreated(u32),
    /// The process could not be created.
    CreateFailed,
    /// One slice of waiting ended with this action (from `ProcessWait::after_slice`).
    Waited(WaitAction),
}

/// What the broker does next.
#[derive(Debug, Clone, Copy, PartialEq, Eq, Structural)]
pub enum ElevationAction {
    /// Answer with the missing-token response; no process is created.
    RefuseMissingToken,
    /// Open the broker's token and create the process.
    CreateProcess,
    /// Wait another slice (looking at the stop flag first).
    Wait,
    /// Answer with `launched_response` for this process and end; a
    /// `Terminated` end means the process is terminated first.
    Respond(u32, ProcessEnd),
    /// Answer with `launch_failure_response`.
    RespondLaunchFailure,
    /// Stop with an error (the caller reports it as an internal error);
    /// terminate the process first when `terminate` is set.
    Fail { terminate: bool },
}

/// One step of handling a request that carries a token or not (`has_token`)
/// and is waited for or not (`waits`). An event that does not belong to the
/// stage ends the handling with an error.
pub open spec fn elevation_transition(
    has_token: bool,
    waits: bool,
    stage: ElevationStage,
    event: ElevationEvent,
) -> (ElevationStage, ElevationAction) {
    match (stage, event) {
        (ElevationStage::Received, ElevationEvent::Begin) => if has_token {
            (ElevationStage::Launching, ElevationAction::CreateProcess)
        } else {
            (ElevationStage::Finished, ElevationAction::RefuseMissingToken)
        },
        (ElevationStage::Launching, ElevationEvent::SystemTokenFailed) => (
            ElevationStage::Finished,
            ElevationAction::Fail { terminate: false },
        ),
        (ElevationStage::Launching, ElevationEvent::ProcessCreated(pid)) => if waits {
            (ElevationStage::Waiting(pid), ElevationAction::Wait)
        } else {
            (ElevationStage::Finished, ElevationAction::Respond(pid, ProcessEnd::Detached))
        },
        (ElevationStage::Launching, ElevationEvent::CreateFailed) => (
            ElevationStage::Finished,
            ElevationAction::RespondLaunchFailure,
        ),
        (ElevationStage::Waiting(pid), ElevationEvent::Waited(w)) => match w {
            WaitAction::KeepWaiting => (ElevationStage::Waiting(pid), ElevationAction::Wait),
            WaitAction::Exited(c) => (ElevationStage::Finished, ElevationAction::Respond(pid, ProcessEnd::Exited(c))),
            WaitAction::Terminated => (ElevationStage::Finished, ElevationAction::Respond(pid, ProcessEnd::Terminated)),
            WaitAction::Expired => (ElevationStage::Finished, ElevationAction::Fail { terminate: true }),
            WaitAction::WaitFailed(_) => (ElevationStage::Finished, ElevationAction::Fail { terminate: false }),
        },
        _ => (ElevationStage::Finished, ElevationAction::Fail { terminate: false }),
    }
}

impl ElevationHandler {
    /// One step of handling `request`: the token is checked before anything
    /// else, a process is created only for a request that carries one, and
    /// only an inline process is waited for.
    pub fn elevation_step(&self, request: &ElevationRequest, stage: ElevationStage, event: ElevationEvent) -> (r: (ElevationStage, ElevationAction))
        ensures
            r == elevation_transition(
                request.auth_token@.len() > 0,
                request.execution_mode == ExecutionMode::Inline,
                stage,
                event,
            ),
    {
        let has_token = request.auth_token.len() > 0;
        let waits = self.waits_for_exit(request.execution_mode);
        match (stage, event) {
            (ElevationStage::Received, ElevationEvent::Begin) => if has_token {
                (ElevationStage::Launching, ElevationAction::CreateProcess)
            } else {
                (ElevationStage::Finished, ElevationAction::RefuseMissingToken)
            },
            (ElevationStage::Launching, ElevationEvent::SystemTokenFailed) => (
                ElevationStage::Finished,
                ElevationAction::Fail { terminate: false },
            ),
            (ElevationStage::Launching, ElevationEvent::ProcessCreated(pid)) => if waits {
                (ElevationStage::Waiting(pid), ElevationAction::Wait)
            } else {
                (ElevationStage::Finished, ElevationAction::Respond(pid, ProcessEnd::Detached))
            },
            (ElevationStage::Launching, ElevationEvent::CreateFailed) => (
                ElevationStage::Finished,
                ElevationAction::RespondLaunchFailure,
            ),
            (ElevationStage::Waiting(pid), ElevationEvent::Waited(w)) => match w {
                WaitAction::KeepWaiting => (ElevationStage::Waiting(pid), ElevationAction::Wait),
                WaitAction::Exited(c) => (ElevationStage::Finished, ElevationAction::Respond(pid, ProcessEnd::Exited(c))),
                WaitAction::Terminated => (ElevationStage::Finished, ElevationAction::Respond(pid, ProcessEnd::Terminated)),
                WaitAction::Expired => (ElevationStage::Finished, ElevationAction::Fail { terminate: true }),
                WaitAction::WaitFailed(_) => (ElevationStage::Finished, ElevationAction::Fail { terminate: false }),
            },
            _ => (ElevationStage::Finished, ElevationAction::Fail { terminate: false }),
        }
    }
}

/// No step leads back to `Received`, so a process is created at most once
/// and only for a request that carries a token; a finished handling stays
/// finished; a process is reported terminated only when the stop request
/// ended its wait, and then not as running.
pub proof fn lemma_elevation_order(has_token: bool, waits: bool, stage: ElevationStage, event: ElevationEvent)
    ensures
        elevation_transition(has_token, waits, stage, event).0 != ElevationStage::Received,
        elevation_transition(has_token, waits, stage, event).1 == ElevationAction::CreateProcess
            ==> has_token && stage == ElevationStage::Received,
        stage == ElevationStage::Finished ==> elevation_transition(has_token, waits, stage, event).0
            == ElevationStage::Finished,
        elevation_transition(has_token, waits, stage, event).1 matches ElevationAction::Respond(_, ProcessEnd::Terminated)
            ==> event == ElevationEvent::Waited(WaitAction::Terminated),
        elevation_transition(has_token, waits, stage, event).1 matches ElevationAction::Respond(_, ProcessEnd::Detached)
            ==> !waits,
{
}

/// The time waited after `k` slices in which the process kept running.
pub open spec fn waited_after(k: nat) -> nat {
    if (WAIT_SLICE_MS as nat) * k <= u32::MAX {
        (WAIT_SLICE_MS as nat) * k
    } else {
        u32::MAX as nat
    }
}

/// Whether the wait has expired after `k` such slices.
pub open spec fn expired_after(timeout_ms: u32, k: nat) -> bool {
    timeout_ms != 0 && waited_after(k) >= timeout_ms
}

/// Without a timeout the wait never expires; with a timeout `t`, a process
/// that keeps running is given up on after exactly `ceil(t / 100)` slices.
pub proof fn lemma_wait_expiry(timeout_ms: u32, k: nat)
    ensures
        timeout_ms == 0 ==> !expired_after(timeout_ms, k),
        timeout_ms > 0 ==> (expired_after(timeout_ms, k) <==> k >= (timeout_ms + 99) / 100),
{
    if timeout_ms > 0 {
        let n = (timeout_ms + 99) / 100;
        assert(100 * n >= timeout_ms && 100 * (n - 1) < timeout_ms) by (nonlinear_arith)
            requires
                n == (timeout_ms + 99) / 100,
                timeout_ms > 0,
        ;
        if k >= n {
            assert(100 * k >= 100 * n) by (nonlinear_arith)
                requires
                    k >= n,
            ;
        } else {
            assert(100 * k <= 100 * (n - 1)) by (nonlinear_arith)
                requires
                    k < n,
                    n >= 1,
            ;
        }
    }
}

/// Each slice of a running process moves the wait one step along
/// `waited_after`, and the wait expires as `expired_after` says.
pub proof fn lemma_slice_step(k: nat)
    ensures
        waited_after(k + 1) == (if waited_after(k) + (WAIT_SLICE_MS as nat) <= u32::MAX {
            waited_after(k) + (WAIT_SLICE_MS as nat)
        } else {
            u32::MAX as nat
        }),
{
    assert((WAIT_SLICE_MS as nat) * (k + 1) == (WAIT_SLICE_MS as nat) * k + (WAIT_SLICE_MS as nat)) by (nonlinear_arith);
}


/// Every argument reaches the command line: with no argument it is the
/// command alone; with one, the command, a space and that argument; with
/// more, the command line for all but the last argument, a space and the
/// last argument.
pub proof fn lemma_command_line_keeps_arguments(r: ElevationRequest)
    ensures
        r.arguments@.len() == 0 ==> command_line_of(r) == r.command@,
        r.arguments@.len() == 1 ==> command_line_of(r) == r.command@ + " "@ + r.arguments@[0]@,
        r.arguments@.len() >= 2 ==> command_line_of(r) == r.command@ + " "@ + joined(
            string_views(r.arguments@).drop_last(),
            " "@,
        ) + " "@ + r.arguments@.last()@,
        r.arguments@.len() >= 1 ==> command_line_of(r).len() > r.command@.len() + r.arguments@.last()@.len(),
{
    let views = string_views(r.arguments@);
    if r.arguments@.len() >= 1 {
        assert(views.last() == r.arguments@.last()@);
        assert(views[0] == r.arguments@[0]@);
    }
    if r.arguments@.len() >= 2 {
        let j = joined(views, " "@);
        assert(j == joined(views.drop_last(), " "@) + " "@ + views.last());
        assert(command_line_of(r) =~= r.command@ + " "@ + joined(views.drop_last(), " "@) + " "@
            + r.arguments@.last()@);
    }
    if r.arguments@.len() == 1 {
        assert(joined(views, " "@) == views[0]);
    }
    reveal_strlit(" ");
}

/// The exit code reported for a process keeps all 32 bits of its raw exit
/// status: read back as unsigned it is that status, so different statuses
/// give different exit codes, and a status below 2^31 is reported as is.
pub proof fn lemma_exit_code_keeps_bits(raw: u32, other: u32)
    ensures
        exit_code_of(raw) as u32 == raw,
        raw != other ==> exit_code_of(raw) != exit_code_of(other),
        raw < 0x8000_0000 ==> exit_code_of(raw) == raw,
{
    let a = exit_code_of(raw);
    let b = exit_code_of(other);
    assert(a == raw as i32 && b == other as i32);
    assert((raw as i32) as u32 == raw) by (bit_vector);
    assert((other as i32) as u32 == other) by (bit_vector);
    assert(raw < 0x8000_0000 ==> (raw as i32) == raw) by (bit_vector);
}

} // verus!
