//! The broker as a Windows service: how it answers the service controller
//! and which status it reports at each stage of its life.

use vstd::prelude::*;
use std::sync::Arc;
use std::sync::atomic::AtomicBool;
use crate::config::ServiceConfig;
use crate::shutdown::request_shutdown;

verus! {

/// Name under which the service is registered.
pub const SERVICE_NAME: &'static str = "SudoElevationBroker";

/// A request from the service controller.
#[derive(Debug, Clone, Copy, PartialEq, Eq, Structural)]
pub enum ControlRequest {
    Interrogate,
    Stop,
    Shutdown,
    /// Any other control.
    Other,
}

/// The answer to the service controller.
#[derive(Debug, Clone, Copy, PartialEq, Eq, Structural)]
pub enum ControlReply {
    NoError,
    NotImplemented,
}

/// Whether a control asks the service to stop.
pub open spec fn control_stops(c: ControlRequest) -> bool {
    c == ControlRequest::Stop || c == ControlRequest::Shutdown
}

/// The answer to a control: handled unless it is one the service does not know.
pub open spec fn control_reply(c: ControlRequest) -> ControlReply {
    if c == ControlRequest::Other {
        ControlReply::NotImplemented
    } else {
        ControlReply::NoError
    }
}

/// Broker service control.
pub struct BrokerServiceControl {
    shutdown_flag: Arc<AtomicBool>,
}

impl BrokerServiceControl {
    /// The flag that stops the service.
    pub closed spec fn flag(self) -> Arc<AtomicBool> {
        self.shutdown_flag
    }

    /// A control handler that stops the service through `shutdown_flag`.
    pub fn new(shutdown_flag: Arc<AtomicBool>) -> (c: Self)
        ensures
            c.flag() == shutdown_flag,
    {
        BrokerServiceControl { shutdown_flag }
    }

    /// Whether a control asks the service to stop.
    pub fn requests_stop(control: ControlRequest) -> (b: bool)
        ensures
            b == control_stops(control),
    {
        match control {
            ControlRequest::Stop | ControlRequest::Shutdown => true,
            _ => false,
        }
    }

    /// Handles a control: `Stop` and `Shutdown` raise the shutdown flag.
    pub fn handle_control(&self, control: ControlRequest) -> (r: ControlReply)
        ensures
            r == control_reply(control),
    {
        if Self::requests_stop(control) {
            request_shutdown(&self.shutdown_flag);
        }
        match control {
            ControlRequest::Other => ControlReply::NotImplemented,
            _ => ControlReply::NoError,
        }
    }
}

/// Main broker service.
pub struct BrokerService {
    config: ServiceConfig,
}

/// The state reported to the service controller.
#[derive(Debug, Clone, Copy, PartialEq, Eq, Structural)]
pub enum ServiceState {
    StartPending,
    Running,
    StopPending,
    Stopped,
}

/// A stage in the life of the service.
#[derive(Debug, Clone, Copy, PartialEq, Eq, Structural)]
pub enum ServiceStage {
    /// The service has registered and is starting.
    Starting,
    /// The pipe server could not be created.
    StartFailed,
    /// The pipe server is listening.
    Listening,
    /// The pipe server stopped with an error.
    ServerFailed,
    /// The pipe server stopped after a stop request.
    Stopping,
    /// The service has stopped cleanly.
    Stopped,
}

/// A status report to the service controller.
#[derive(Debug, Clone, Copy, PartialEq, Eq, Structural)]
pub struct ServiceStatusReport {
    pub state: ServiceState,
    /// Whether `Stop` and `Shutdown` are accepted.
    pub accepts_stop: bool,
    /// The Win32 exit code.
    pub exit_code: u32,
    /// How long the controller should wait for the next report, in seconds.
    pub wait_hint_secs: u64,
}

/// The report for a stage.
pub open spec fn report_for(stage: ServiceStage) -> ServiceStatusReport {
    match stage {
        ServiceStage::Starting => ServiceStatusReport {
            state: ServiceState::StartPending,
            accepts_stop: false,
            exit_code: 0,
            wait_hint_secs: 5,
        },
        ServiceStage::StartFailed => ServiceStatusReport {
            state: ServiceState::Stopped,
            accepts_stop: false,
            exit_code: 1,
            wait_hint_secs: 0,
        },
        ServiceStage::Listening => ServiceStatusReport {
            state: ServiceState::Running,
            accepts_stop: true,
            exit_code: 0,
            wait_hint_secs: 0,
        },
        ServiceStage::ServerFailed => ServiceStatusReport {
            state: ServiceState::Stopped,
            accepts_stop: false,
            exit_code: 1,
            wait_hint_secs: 0,
        },
        ServiceStage::Stopping => ServiceStatusReport {
            state: ServiceState::StopPending,
            accepts_stop: false,
            exit_code: 0,
            wait_hint_secs: 5,
        },
        ServiceStage::Stopped => ServiceStatusReport {
            state: ServiceState::Stopped,
            accepts_stop: false,
            exit_code: 0,
            wait_hint_secs: 0,
        },
    }
}

impl BrokerService {
    /// The configuration the service runs with.
    pub closed spec fn configuration(self) -> ServiceConfig {
        self.config
    }

    /// A service with `config`.
    pub fn new(config: ServiceConfig) -> (r: Result<Self, String>)
        ensures
            r matches Ok(s) && s.configuration() == config,
    {
        Ok(BrokerService { config })
    }

    /// The configuration the service runs with.
    pub fn config(&self) -> (c: &ServiceConfig)
        ensures
            *c == self.configuration(),
    {
        &self.config
    }

    /// The status reported at a stage.
    pub fn status_for(stage: ServiceStage) -> (r: ServiceStatusReport)
        ensures
            r == report_for(stage),
    {
        match stage {
            ServiceStage::Starting => ServiceStatusReport {
                state: ServiceState::StartPending,
                accepts_stop: false,
                exit_code: 0,
                wait_hint_secs: 5,
            },
            ServiceStage::StartFailed => ServiceStatusReport {
                state: ServiceState::Stopped,
                accepts_stop: false,
                exit_code: 1,
                wait_hint_secs: 0,
            },
            ServiceStage::Listening => ServiceStatusReport {
                state: ServiceState::Running,
                accepts_stop: true,
                exit_code: 0,
                wait_hint_secs: 0,
            },
            ServiceStage::ServerFailed => ServiceStatusReport {
                state: ServiceState::Stopped,
                accepts_stop: false,
                exit_code: 1,
                wait_hint_secs: 0,
            },
            ServiceStage::Stopping => ServiceStatusReport {
                state: ServiceState::StopPending,
                accepts_stop: false,
                exit_code: 0,
                wait_hint_secs: 5,
            },
            ServiceStage::Stopped => ServiceStatusReport {
                state: ServiceState::Stopped,
                accepts_stop: false,
                exit_code: 0,
                wait_hint_secs: 0,
            },
        }
    }
}

/// Stop requests are accepted only while the service runs, and the exit
/// code is non-zero exactly when the service stopped because of a failure.
pub proof fn lemma_status_reports(stage: ServiceStage)
    ensures
        report_for(stage).accepts_stop <==> report_for(stage).state == ServiceState::Running,
        (report_for(stage).exit_code != 0) <==> (stage == ServiceStage::StartFailed || stage
            == ServiceStage::ServerFailed),
        (report_for(stage).exit_code != 0) ==> report_for(stage).state == ServiceState::Stopped,
{
}

/// What happened to the service since its last report.
#[derive(Debug, Clone, Copy, PartialEq, Eq, Structural)]
pub enum ServiceEvent {
    /// The pipe server was created.
    ServerCreated,
    /// The pipe server could not be created.
    ServerCreateFailed,
    /// The pipe server returned after a stop request.
    ServerStopped,
    /// The pipe server returned with an error.
    ServerFailed,
    /// The stop-pending status was reported.
    StopReported,
}

/// Whether a stage is one the service does not leave.
pub open spec fn is_final_stage(stage: ServiceStage) -> bool {
    stage == ServiceStage::StartFailed || stage == ServiceStage::ServerFailed || stage == ServiceStage::Stopped
}

/// The stage after an event: starting leads to listening or to a failed
/// start; listening ends in a failure or in stopping; stopping ends in
/// stopped. An event that does not belong to the stage leaves it as it is.
pub open spec fn stage_after(stage: ServiceStage, event: ServiceEvent) -> ServiceStage {
    match (stage, event) {
        (ServiceStage::Starting, ServiceEvent::ServerCreated) => ServiceStage::Listening,
        (ServiceStage::Starting, ServiceEvent::ServerCreateFailed) => ServiceStage::StartFailed,
        (ServiceStage::Listening, ServiceEvent::ServerStopped) => ServiceStage::Stopping,
        (ServiceStage::Listening, ServiceEvent::ServerFailed) => ServiceStage::ServerFailed,
        (ServiceStage::Stopping, ServiceEvent::StopReported) => ServiceStage::Stopped,
        _ => stage,
    }
}

impl BrokerService {
    /// The stage the service moves to on `event` (see `stage_after`).
    pub fn next_stage(stage: ServiceStage, event: ServiceEvent) -> (n: ServiceStage)
        ensures
            n == stage_after(stage, event),
    {
        match (stage, event) {
            (ServiceStage::Starting, ServiceEvent::ServerCreated) => ServiceStage::Listening,
            (ServiceStage::Starting, ServiceEvent::ServerCreateFailed) => ServiceStage::StartFailed,
            (ServiceStage::Listening, ServiceEvent::ServerStopped) => ServiceStage::Stopping,
            (ServiceStage::Listening, ServiceEvent::ServerFailed) => ServiceStage::ServerFailed,
            (ServiceStage::Stopping, ServiceEvent::StopReported) => ServiceStage::Stopped,
            _ => stage,
        }
    }
}

/// The order of the service's stages: it never returns to starting; it
/// listens only once the pipe server was created while starting; it stops
/// cleanly only through stopping; a stopped or failed service stays so; and
/// a non-zero exit code is reported only after a failure.
pub proof fn lemma_stage_order(stage: ServiceStage, event: ServiceEvent)
    ensures
        stage_after(stage, event) == ServiceStage::Starting ==> stage == ServiceStage::Starting,
        stage_after(stage, event) == ServiceStage::Listening && stage != ServiceStage::Listening ==> stage
            == ServiceStage::Starting && event == ServiceEvent::ServerCreated,
        stage_after(stage, event) == ServiceStage::Stopped && stage != ServiceStage::Stopped ==> stage
            == ServiceStage::Stopping,
        is_final_stage(stage) ==> stage_after(stage, event) == stage,
        report_for(stage_after(stage, event)).exit_code != 0 && report_for(stage).exit_code == 0 ==> (
        event == ServiceEvent::ServerCreateFailed || event == ServiceEvent::ServerFailed),
{
}

} // verus!
