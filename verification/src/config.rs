//! Configuration of the broker service.

use vstd::prelude::*;
use vstd::string::*;
use crate::broker_protocol::{BROKER_PIPE_NAME, DEFAULT_TIMEOUT_MS};

verus! {

/// Elevations handled at the same time before the broker slows down.
pub const DEFAULT_MAX_CONCURRENT_ELEVATIONS: usize = 10;

/// Service configuration.
#[derive(Debug, Clone)]
pub struct ServiceConfig {
    /// Named pipe name.
    pub pipe_name: String,
    /// Maximum concurrent elevations.
    pub max_concurrent_elevations: usize,
    /// Default timeout in milliseconds.
    pub default_timeout_ms: u32,
    /// Whether to require Windows Hello.
    pub require_hello: bool,
    /// Whether to audit to the Event Log.
    pub audit_to_event_log: bool,
    /// Log level (trace, debug, info, warn, error).
    pub log_level: String,
}

/// The default configuration: the protocol's pipe and timeout, ten
/// concurrent elevations, Hello required, auditing on, level `info`.
pub open spec fn is_default_config(c: ServiceConfig) -> bool {
    &&& c.pipe_name@ == BROKER_PIPE_NAME@
    &&& c.max_concurrent_elevations == DEFAULT_MAX_CONCURRENT_ELEVATIONS
    &&& c.default_timeout_ms == DEFAULT_TIMEOUT_MS
    &&& c.require_hello
    &&& c.audit_to_event_log
    &&& c.log_level@ == "info"@
}

impl Default for ServiceConfig {
    fn default() -> (c: Self)
        ensures
            is_default_config(c),
    {
        ServiceConfig {
            pipe_name: String::from_str(BROKER_PIPE_NAME),
            max_concurrent_elevations: DEFAULT_MAX_CONCURRENT_ELEVATIONS,
            default_timeout_ms: DEFAULT_TIMEOUT_MS,
            require_hello: true,
            audit_to_event_log: true,
            log_level: String::from_str("info"),
        }
    }
}

/// The configuration of the service; no configuration file is read yet, so
/// this is the default one.
pub fn load_config() -> (c: ServiceConfig)
    ensures
        is_default_config(c),
{
    ServiceConfig::default()
}

} // verus!
