//! The broker's side of the pipe: who may connect, how many clients are
//! served at once, and how a request is answered. Creating pipe instances,
//! impersonating clients and running handler threads belong to the caller.

use vstd::prelude::*;
use vstd::string::*;
use std::sync::Arc;
use std::sync::atomic::AtomicBool;
use crate::broker_protocol::{ElevationRequest, ElevationResponse, StatusCode, PROTOCOL_VERSION};
use crate::shutdown::shutdown_requested;
use crate::text::{decimal, push_decimal};

verus! {

/// Security descriptor of the pipe: generic-all access for SYSTEM and the
/// built-in Administrators, nobody else.
pub const PIPE_SECURITY_SDDL: &'static str = "D:(A;;GA;;;SY)(A;;GA;;;BA)";

/// Who the pipe's access list lets in.
#[derive(Debug, Clone, Copy, PartialEq, Eq, Structural)]
pub enum PipeTrustee {
    /// The LocalSystem account (`SY`).
    LocalSystem,
    /// The built-in Administrators group (`BA`).
    Administrators,
}

/// The SDDL abbreviation of a trustee.
pub open spec fn trustee_sddl(t: PipeTrustee) -> Seq<char> {
    match t {
        PipeTrustee::LocalSystem => "SY"@,
        PipeTrustee::Administrators => "BA"@,
    }
}

/// Access-allowed entries granting generic-all access to each trustee, in order.
pub open spec fn allow_entries_sddl(trustees: Seq<PipeTrustee>) -> Seq<char>
    decreases trustees.len(),
{
    if trustees.len() == 0 {
        Seq::empty()
    } else {
        "(A;;GA;;;"@ + trustee_sddl(trustees[0]) + ")"@ + allow_entries_sddl(trustees.drop_first())
    }
}

/// The pipe's security descriptor is a DACL of access-allowed entries for
/// SYSTEM and the Administrators and nothing else: no other account is let in.
pub proof fn lemma_pipe_access_list()
    ensures
        PIPE_SECURITY_SDDL@ == "D:"@ + allow_entries_sddl(
            seq![PipeTrustee::LocalSystem, PipeTrustee::Administrators],
        ),
{
    reveal_strlit("D:(A;;GA;;;SY)(A;;GA;;;BA)");
    reveal_strlit("D:");
    reveal_strlit("(A;;GA;;;");
    reveal_strlit(")");
    reveal_strlit("SY");
    reveal_strlit("BA");
    let ts = seq![PipeTrustee::LocalSystem, PipeTrustee::Administrators];
    assert(ts.drop_first().drop_first() =~= Seq::<PipeTrustee>::empty());
    assert(ts.drop_first() =~= seq![PipeTrustee::Administrators]);
    reveal_with_fuel(allow_entries_sddl, 3);
    assert(PIPE_SECURITY_SDDL@ =~= "D:"@ + allow_entries_sddl(ts));
}

/// Size of the pipe's input and output buffers.
pub const PIPE_BUFFER_SIZE: u32 = 65536;

/// Pause when the broker serves as many clients as allowed, in milliseconds.
pub const THROTTLE_DELAY_MS: u64 = 100;

/// Named pipe server for handling elevation requests.
pub struct PipeServer {
    pipe_name: String,
    max_concurrent: usize,
    shutdown_flag: Arc<AtomicBool>,
}

/// The text of a version mismatch.
pub open spec fn version_mismatch_text(client_version: u32) -> Seq<char> {
    "Protocol version mismatch: client="@ + decimal(client_version as nat) + ", server="@ + decimal(
        PROTOCOL_VERSION as nat,
    )
}

/// The response that refuses a request of another protocol version.
pub open spec fn is_version_mismatch_response(r: ElevationResponse, client_version: u32) -> bool {
    &&& r.status == StatusCode::UnsupportedVersion
    &&& r.error_message matches Some(m) && m@ == version_mismatch_text(client_version)
    &&& r.process_id is None
    &&& r.exit_code is None
    &&& !r.is_running
}

impl PipeServer {
    /// The pipe's name.
    pub closed spec fn name(self) -> Seq<char> {
        self.pipe_name@
    }

    /// How many clients are served at once before the broker slows down.
    pub closed spec fn limit(self) -> usize {
        self.max_concurrent
    }

    /// The flag that stops the server.
    pub closed spec fn flag(self) -> Arc<AtomicBool> {
        self.shutdown_flag
    }

    /// A server for the pipe `pipe_name`.
    pub fn new(pipe_name: &str, max_concurrent: usize, shutdown_flag: Arc<AtomicBool>) -> (r: Result<Self, String>)
        ensures
            r matches Ok(s) && s.name() == pipe_name@ && s.limit() == max_concurrent && s.flag() == shutdown_flag,
    {
        Ok(PipeServer { pipe_name: String::from_str(pipe_name), max_concurrent, shutdown_flag })
    }

    /// The pipe's name.
    pub fn pipe_name(&self) -> (n: &str)
        ensures
            n@ == self.name(),
    {
        self.pipe_name.as_str()
    }

    /// The flag that stops the server.
    pub fn shutdown_flag(&self) -> (f: Arc<AtomicBool>)
        ensures
            f == self.flag(),
    {
        self.shutdown_flag.clone()
    }

    /// Whether to accept another client: as long as no stop was requested.
    pub fn keeps_accepting(&self) -> bool {
        !shutdown_requested(&self.shutdown_flag)
    }

    /// Whether to pause before accepting the next client.
    pub fn should_throttle(&self, active_handlers: usize) -> (b: bool)
        ensures
            b == (active_handlers >= self.limit()),
    {
        active_handlers >= self.max_concurrent
    }

    /// Admits a client only if it belongs to the Administrators group.
    pub fn admit_client(is_administrator: bool) -> (r: Result<(), String>)
        ensures
            match r {
                Ok(()) => is_administrator,
                Err(m) => !is_administrator && m@ == "Access denied: Client must be a member of the Administrators group"@,
            },
    {
        if is_administrator {
            Ok(())
        } else {
            Err(String::from_str("Access denied: Client must be a member of the Administrators group"))
        }
    }

    /// Answers a request of another protocol version at once; `None` lets
    /// the request go on to elevation.
    pub fn screen_request(request: &ElevationRequest) -> (r: Option<ElevationResponse>)
        ensures
            match r {
                Some(resp) => request.version != PROTOCOL_VERSION && is_version_mismatch_response(resp, request.version),
                None => request.version == PROTOCOL_VERSION,
            },
    {
        if request.version != PROTOCOL_VERSION {
            let mut m = String::from_str("Protocol version mismatch: client=");
            push_decimal(&mut m, request.version as u64);
            m.append(", server=");
            push_decimal(&mut m, PROTOCOL_VERSION as u64);
            Some(ElevationResponse {
                status: StatusCode::UnsupportedVersion,
                error_message: Some(m),
                process_id: None,
                exit_code: None,
                is_running: false,
            })
        } else {
            None
        }
    }

    /// The response sent after elevation: the handler's own response, or an
    /// internal error that carries the failure's text.
    pub fn response_after_elevation(outcome: Result<ElevationResponse, String>) -> (r: ElevationResponse)
        ensures
            match outcome {
                Ok(resp) => r == resp,
                Err(m) => r.status == StatusCode::InternalError && r.error_message == Some(m)
                    && r.process_id is None && r.exit_code is None && !r.is_running,
            },
    {
        match outcome {
            Ok(resp) => resp,
            Err(m) => ElevationResponse {
                status: StatusCode::InternalError,
                error_message: Some(m),
                process_id: None,
                exit_code: None,
                is_running: false,
            },
        }
    }
}

/// Where the service of one connected client stands.
#[derive(Debug, Clone, Copy, PartialEq, Eq, Structural)]
pub enum ClientStage {
    /// Connected; who the client is has not been checked yet.
    AwaitingIdentity,
    /// The client is an administrator; its request is to be read.
    AwaitingRequest,
    /// The request is being elevated.
    Elevating,
    /// Done with this client.
    Closed,
}

/// What happened since the last step.
#[derive(Debug, Clone, Copy, PartialEq, Eq, Structural)]
pub enum ClientEvent {
    /// The identity check ran: the client is an administrator or not.
    IdentityChecked(bool),
    /// The identity could not be checked (impersonation or lookup failed).
    IdentityCheckFailed,
    /// A request of this protocol version was read and decoded.
    RequestDecoded(u32),
    /// The request could not be read or decoded.
    RequestUnreadable,
    /// The elevation ended, with a response or an error.
    ElevationFinished,
}

/// What the broker does next for the client.
#[derive(Debug, Clone, Copy, PartialEq, Eq, Structural)]
pub enum ClientAction {
    /// Read and decode the request.
    ReadRequest,
    /// Stop serving the client with an error: nothing more is read,
    /// audited, elevated or answered.
    Abandon,
    /// Answer with the version-mismatch response (`screen_request`) and close.
    RespondVersionMismatch,
    /// Audit the request and run the elevation.
    Elevate,
    /// Audit the outcome, answer with `response_after_elevation`, and close.
    RespondWithOutcome,
}

/// One step of serving a client: the identity is checked first, and only
/// an administrator's request is read; a request of this protocol version
/// is elevated, another is answered with a mismatch; the elevation's outcome
/// is answered. An event that does not belong to the stage abandons the client.
pub open spec fn client_transition(stage: ClientStage, event: ClientEvent) -> (ClientStage, ClientAction) {
    match (stage, event) {
        (ClientStage::AwaitingIdentity, ClientEvent::IdentityChecked(is_administrator)) => if is_administrator {
            (ClientStage::AwaitingRequest, ClientAction::ReadRequest)
        } else {
            (ClientStage::Closed, ClientAction::Abandon)
        },
        (ClientStage::AwaitingRequest, ClientEvent::RequestDecoded(version)) => if version == PROTOCOL_VERSION {
            (ClientStage::Elevating, ClientAction::Elevate)
        } else {
            (ClientStage::Closed, ClientAction::RespondVersionMismatch)
        },
        (ClientStage::Elevating, ClientEvent::ElevationFinished) => (
            ClientStage::Closed,
            ClientAction::RespondWithOutcome,
        ),
        _ => (ClientStage::Closed, ClientAction::Abandon),
    }
}

impl PipeServer {
    /// One step of serving a client (see `client_transition`).
    pub fn client_step(stage: ClientStage, event: ClientEvent) -> (r: (ClientStage, ClientAction))
        ensures
            r == client_transition(stage, event),
    {
        match (stage, event) {
            (ClientStage::AwaitingIdentity, ClientEvent::IdentityChecked(is_administrator)) => if is_administrator {
                (ClientStage::AwaitingRequest, ClientAction::ReadRequest)
            } else {
                (ClientStage::Closed, ClientAction::Abandon)
            },
            (ClientStage::AwaitingRequest, ClientEvent::RequestDecoded(version)) => if version == PROTOCOL_VERSION {
                (ClientStage::Elevating, ClientAction::Elevate)
            } else {
                (ClientStage::Closed, ClientAction::RespondVersionMismatch)
            },
            (ClientStage::Elevating, ClientEvent::ElevationFinished) => (
                ClientStage::Closed,
                ClientAction::RespondWithOutcome,
            ),
            _ => (ClientStage::Closed, ClientAction::Abandon),
        }
    }
}

/// The stage after a connection has seen `events`, from its start.
pub open spec fn client_stage_after(events: Seq<ClientEvent>) -> ClientStage
    decreases events.len(),
{
    if events.len() == 0 {
        ClientStage::AwaitingIdentity
    } else {
        client_transition(client_stage_after(events.drop_last()), events.last()).0
    }
}

/// The action taken on the event at `j`.
pub open spec fn client_action_at(events: Seq<ClientEvent>, j: int) -> ClientAction {
    client_transition(client_stage_after(events.take(j)), events[j]).1
}

/// Whether an action sends the client a response.
pub open spec fn answers_client(a: ClientAction) -> bool {
    a == ClientAction::RespondVersionMismatch || a == ClientAction::RespondWithOutcome
}

/// Whether an administrator's identity was confirmed among the first `j` events.
pub open spec fn identity_confirmed_before(events: Seq<ClientEvent>, j: int) -> bool {
    exists|i: int| 0 <= i < j && #[trigger] events[i] == ClientEvent::IdentityChecked(true)
}

proof fn lemma_client_stage_step(events: Seq<ClientEvent>, j: int)
    requires
        0 <= j < events.len(),
    ensures
        client_stage_after(events.take(j + 1)) == client_transition(client_stage_after(events.take(j)), events[j]).0,
{
    assert(events.take(j + 1).drop_last() =~= events.take(j));
}

/// Past the start, a request is read or elevated only after an
/// administrator's identity was confirmed.
proof fn lemma_confirmed_before_serving(events: Seq<ClientEvent>, j: int)
    requires
        0 <= j <= events.len(),
    ensures
        client_stage_after(events.take(j)) != ClientStage::AwaitingIdentity ==> j > 0,
        client_stage_after(events.take(j)) == ClientStage::AwaitingRequest || client_stage_after(
            events.take(j),
        ) == ClientStage::Elevating ==> identity_confirmed_before(events, j),
    decreases j,
{
    if j == 0 {
        assert(events.take(0) =~= Seq::<ClientEvent>::empty());
    } else {
        lemma_confirmed_before_serving(events, j - 1);
        lemma_client_stage_step(events, j - 1);
        if client_stage_after(events.take(j)) == ClientStage::AwaitingRequest {
            assert(events[j - 1] == ClientEvent::IdentityChecked(true));
        }
    }
}

/// Once closed, a connection stays closed.
proof fn lemma_closed_stays(events: Seq<ClientEvent>, j1: int, j2: int)
    requires
        0 <= j1 <= j2 <= events.len(),
        client_stage_after(events.take(j1)) == ClientStage::Closed,
    ensures
        client_stage_after(events.take(j2)) == ClientStage::Closed,
    decreases j2 - j1,
{
    if j1 < j2 {
        lemma_client_stage_step(events, j1);
        lemma_closed_stays(events, j1 + 1, j2);
    }
}

/// The order of serving a client, over any events: nothing is read,
/// elevated or answered unless an administrator's identity was confirmed at
/// that event or before it, and only a request of this protocol version is
/// elevated.
pub proof fn lemma_client_order(events: Seq<ClientEvent>, j: int)
    requires
        0 <= j < events.len(),
    ensures
        client_action_at(events, j) != ClientAction::Abandon ==> identity_confirmed_before(events, j + 1),
        client_action_at(events, j) == ClientAction::Elevate ==> events[j] == ClientEvent::RequestDecoded(
            PROTOCOL_VERSION,
        ),
{
    lemma_confirmed_before_serving(events, j);
    let stage = client_stage_after(events.take(j));
    if client_action_at(events, j) != ClientAction::Abandon {
        assert(identity_confirmed_before(events, j + 1)) by {
            if stage != ClientStage::AwaitingIdentity {
                let i = choose|i: int| 0 <= i < j && #[trigger] events[i] == ClientEvent::IdentityChecked(true);
                assert(events[i] == ClientEvent::IdentityChecked(true));
            } else {
                assert(events[j] == ClientEvent::IdentityChecked(true));
            }
        }
    }
}

/// A client gets at most one response: after it, every event abandons the
/// connection.
pub proof fn lemma_single_response(events: Seq<ClientEvent>, j: int, k: int)
    requires
        0 <= j < k < events.len(),
        answers_client(client_action_at(events, j)),
    ensures
        client_action_at(events, k) == ClientAction::Abandon,
{
    lemma_client_stage_step(events, j);
    lemma_closed_stays(events, j + 1, k);
}

} // verus!
