//! Elevation broker for `sudo`: the wire protocol shared by the client and
//! the broker service, the framing of messages on the pipe, the
//! authentication token, the detection of the elevation environment, and the
//! decisions that the client, the broker and the service make.

pub mod ap_detection;
pub mod audit_logger;
pub mod broker_client;
pub mod broker_protocol;
pub mod config;
pub mod crypto;
pub mod elevation;
pub mod environment;
pub mod framing;
pub mod hello_auth;
pub mod pipe_server;
pub mod service;
pub mod shutdown;
pub mod text;

use vstd::prelude::*;

verus! {

/// The UTF-8 encoding of a character sequence.
pub open spec fn utf8_of(s: Seq<char>) -> Seq<u8> {
    vstd::utf8::encode_utf8(s)
}

} // verus!
