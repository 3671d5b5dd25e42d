//! The client side of the broker protocol: the connection state, the checks
//! made before a request is sent, and the decisions of the client's loops.
//! Opening the pipe and moving bytes through it belong to the caller.

use vstd::prelude::*;
use vstd::string::*;
use std::time::Duration;
use crate::broker_protocol::{
    validation_error, ElevationRequest, ElevationResponse, ExecutionMode, StatusCode,
    DEFAULT_TIMEOUT_MS, PROTOCOL_VERSION,
};
use crate::environment::{map_of, pair_view, EnvironmentMap};
use crate::framing::FrameError;

verus! {

/// Attempts made to open the pipe before giving up.
pub const CONNECT_ATTEMPTS: u32 = 3;

/// Pause between two attempts to open the pipe, in milliseconds.
pub const CONNECT_RETRY_DELAY_MS: u64 = 500;

/// The duration of `ms` milliseconds, as `Duration::from_millis` builds it.
pub uninterp spec fn millis_duration(ms: u64) -> Duration;

/// Calls `std::time::Duration::from_millis`. Claims only that the result is
/// a function of `ms` (the documentation's arithmetic on seconds and
/// nanoseconds is not stated).
#[verifier::external_body]
fn duration_from_millis(ms: u64) -> (d: Duration)
    ensures
        d == millis_duration(ms),
{
    Duration::from_millis(ms)
}

/// Why the client refused to go on.
#[derive(Debug, Clone, PartialEq, Eq)]
pub enum ClientError {
    /// No connection to the broker is open.
    NotConnected,
    /// The request failed validation; the text says why.
    InvalidRequest(String),
    /// A message could not be read or written whole.
    Frame(FrameError),
}

/// The state of a client of the elevation broker.
pub struct BrokerClient {
    connected: bool,
    timeout: Duration,
}

impl BrokerClient {
    /// Whether a connection to the broker is open.
    pub closed spec fn connected(self) -> bool {
        self.connected
    }

    /// The timeout for broker operations.
    pub closed spec fn timeout_value(self) -> Duration {
        self.timeout
    }

    /// A client that is not connected, with the protocol's default timeout.
    pub fn new() -> (c: Self)
        ensures
            !c.connected(),
            c.timeout_value() == millis_duration(DEFAULT_TIMEOUT_MS as u64),
    {
        BrokerClient { connected: false, timeout: duration_from_millis(DEFAULT_TIMEOUT_MS as u64) }
    }

    /// The same client with another timeout.
    pub fn with_timeout(self, timeout: Duration) -> (c: Self)
        ensures
            c.connected() == self.connected(),
            c.timeout_value() == timeout,
    {
        BrokerClient { connected: self.connected, timeout }
    }

    /// The timeout for broker operations.
    pub fn timeout(&self) -> (t: Duration)
        ensures
            t == self.timeout_value(),
    {
        self.timeout
    }

    /// Whether a connection to the broker is open.
    pub fn is_connected(&self) -> (b: bool)
        ensures
            b == self.connected(),
    {
        self.connected
    }

    /// Records that the pipe was opened.
    pub fn mark_connected(&mut self)
        ensures
            final(self).connected(),
            final(self).timeout_value() == old(self).timeout_value(),
    {
        self.connected = true;
    }

    /// Forgets the connection; tells whether there was one to close.
    pub fn disconnect(&mut self) -> (was_connected: bool)
        ensures
            was_connected == old(self).connected(),
            !final(self).connected(),
            final(self).timeout_value() == old(self).timeout_value(),
    {
        let was = self.connected;
        self.connected = false;
        was
    }

    /// The checks made before a request is sent: a connection must be open,
    /// then the request must be valid.
    pub fn prepare_elevation(&self, request: &ElevationRequest) -> (r: Result<(), ClientError>)
        ensures
            match r {
                Ok(()) => self.connected() && validation_error(*request) is None,
                Err(ClientError::NotConnected) => !self.connected(),
                Err(ClientError::InvalidRequest(m)) => self.connected() && validation_error(*request) == Some(m@),
                Err(ClientError::Frame(_)) => false,
            },
    {
        if !self.connected {
            return Err(ClientError::NotConnected);
        }
        match request.validate() {
            Ok(()) => Ok(()),
            Err(m) => Err(ClientError::InvalidRequest(m)),
        }
    }
}

/// Whether to wait before the next attempt after attempt number `attempt`
/// (counted from 0) of `max_attempts` failed: not after the last one.
pub fn pause_before_retry(attempt: u32, max_attempts: u32) -> (b: bool)
    requires
        attempt < max_attempts,
    ensures
        b == (attempt + 1 < max_attempts),
{
    attempt < max_attempts - 1
}

/// Whether to read another output chunk: the callback asked for more and the
/// chunk just read was not the final one.
pub fn keep_receiving(callback_wants_more: bool, chunk_was_final: bool) -> (b: bool)
    ensures
        b == (callback_wants_more && !chunk_was_final),
{
    callback_wants_more && !chunk_was_final
}

/// Whether the client reads the process's output after the response: only
/// for an inline request that succeeded.
pub fn streams_output(mode: ExecutionMode, response: &ElevationResponse) -> (b: bool)
    ensures
        b == (mode == ExecutionMode::Inline && response.status == StatusCode::Success),
{
    mode == ExecutionMode::Inline && response.status.is_success()
}

/// The request that the client sends for a command: protocol defaults, with
/// the mode, token and working directory given, and the environment pairs
/// inserted in order (a later pair overrides an earlier one of the same name).
pub fn build_broker_request(
    command: &str,
    arguments: &[String],
    working_directory: Option<&str>,
    execution_mode: ExecutionMode,
    environment: &[(String, String)],
    auth_token: Vec<u8>,
) -> (r: ElevationRequest)
    ensures
        r.version == PROTOCOL_VERSION,
        r.command@ == command@,
        r.arguments@ == arguments@,
        match working_directory {
            Some(w) => r.working_directory matches Some(rw) && rw@ == w@,
            None => r.working_directory is None,
        },
        r.execution_mode == execution_mode,
        r.auth_token@ == auth_token@,
        r.environment@ == map_of(environment@.map_values(|p: (String, String)| pair_view(p))),
        r.timeout_ms == DEFAULT_TIMEOUT_MS,
        r.capture_stdout,
        r.capture_stderr,
{
    let mut args: Vec<String> = Vec::new();
    let mut i: usize = 0;
    while i < arguments.len()
        invariant
            i <= arguments@.len(),
            args@ == arguments@.subrange(0, i as int),
        decreases arguments@.len() - i,
    {
        args.push(arguments[i].clone());
        i = i + 1;
        assert(args@ =~= arguments@.subrange(0, i as int));
    }
    assert(arguments@.subrange(0, arguments@.len() as int) =~= arguments@);
    let mut request = ElevationRequest::new(String::from_str(command), args);
    request.execution_mode = execution_mode;
    request.auth_token = auth_token;
    request.working_directory = match working_directory {
        Some(w) => Some(String::from_str(w)),
        None => None,
    };
    let ghost pairs = environment@.map_values(|p: (String, String)| pair_view(p));
    let mut env = EnvironmentMap::new();
    let mut j: usize = 0;
    assert(pairs.subrange(0, 0) =~= Seq::<(Seq<char>, Seq<char>)>::empty());
    while j < environment.len()
        invariant
            j <= environment@.len(),
            pairs == environment@.map_values(|p: (String, String)| pair_view(p)),
            env@ == map_of(pairs.subrange(0, j as int)),
        decreases environment@.len() - j,
    {
        let name = environment[j].0.clone();
        let value = environment[j].1.clone();
        env.insert(name, value);
        proof {
            assert(pairs.subrange(0, j + 1).drop_last() =~= pairs.subrange(0, j as int));
        }
        j = j + 1;
    }
    assert(pairs.subrange(0, environment@.len() as int) =~= pairs);
    request.environment = env;
    request
}

} // verus!
