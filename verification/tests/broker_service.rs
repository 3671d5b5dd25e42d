use std::sync::atomic::{AtomicBool, Ordering};
use std::sync::Arc;
use sudo::audit_logger::{
    AuditLogger, EventLevel, EVENT_AUTHENTICATION_FAILED, EVENT_ELEVATION_DENIED,
    EVENT_ELEVATION_REQUEST, EVENT_ELEVATION_SUCCESS, EVENT_INTERNAL_ERROR,
};
use sudo::broker_protocol::{
    ElevationRequest, ElevationResponse, ExecutionMode, StatusCode, BROKER_PIPE_NAME,
    DEFAULT_TIMEOUT_MS,
};
use sudo::config::{load_config, ServiceConfig};
use sudo::elevation::{
    ConsoleMode, ElevationAction, ElevationEvent, ElevationHandler, ElevationStage, ProcessEnd,
    ProcessWait, WaitAction, WaitSignal,
};
use sudo::pipe_server::{ClientAction, ClientEvent, ClientStage, PipeServer, PIPE_SECURITY_SDDL};
use sudo::service::{
    BrokerService, BrokerServiceControl, ControlReply, ControlRequest, ServiceEvent, ServiceStage,
    ServiceState,
};

#[test]
fn default_configuration() {
    let c = load_config();
    assert_eq!(c.pipe_name, BROKER_PIPE_NAME);
    assert_eq!(c.pipe_name, r"\\.\pipe\SudoElevationBroker");
    assert_eq!(c.max_concurrent_elevations, 10);
    assert_eq!(c.default_timeout_ms, 30000);
    assert_eq!(c.default_timeout_ms, DEFAULT_TIMEOUT_MS);
    assert!(c.require_hello);
    assert!(c.audit_to_event_log);
    assert_eq!(c.log_level, "info");
    let d = ServiceConfig::default();
    assert_eq!(d.pipe_name, c.pipe_name);
}

#[test]
fn control_requests() {
    let flag = Arc::new(AtomicBool::new(false));
    let control = BrokerServiceControl::new(flag.clone());
    assert_eq!(control.handle_control(ControlRequest::Interrogate), ControlReply::NoError);
    assert!(!flag.load(Ordering::Relaxed));
    assert_eq!(control.handle_control(ControlRequest::Other), ControlReply::NotImplemented);
    assert!(!flag.load(Ordering::Relaxed));
    assert_eq!(control.handle_control(ControlRequest::Stop), ControlReply::NoError);
    assert!(flag.load(Ordering::Relaxed));

    let flag2 = Arc::new(AtomicBool::new(false));
    let control2 = BrokerServiceControl::new(flag2.clone());
    assert_eq!(control2.handle_control(ControlRequest::Shutdown), ControlReply::NoError);
    assert!(flag2.load(Ordering::Relaxed));
}

#[test]
fn service_status_reports() {
    let service = BrokerService::new(load_config()).unwrap();
    assert_eq!(service.config().max_concurrent_elevations, 10);
    let start = BrokerService::status_for(ServiceStage::Starting);
    assert_eq!(start.state, ServiceState::StartPending);
    assert_eq!(start.wait_hint_secs, 5);
    let run = BrokerService::status_for(ServiceStage::Listening);
    assert_eq!(run.state, ServiceState::Running);
    assert!(run.accepts_stop);
    let failed = BrokerService::status_for(ServiceStage::ServerFailed);
    assert_eq!(failed.state, ServiceState::Stopped);
    assert_eq!(failed.exit_code, 1);
    assert_eq!(BrokerService::status_for(ServiceStage::StartFailed).exit_code, 1);
    assert_eq!(BrokerService::status_for(ServiceStage::Stopping).state, ServiceState::StopPending);
    let stopped = BrokerService::status_for(ServiceStage::Stopped);
    assert_eq!(stopped.state, ServiceState::Stopped);
    assert_eq!(stopped.exit_code, 0);
    assert!(!stopped.accepts_stop);
}

#[test]
fn pipe_server_decisions() {
    let flag = Arc::new(AtomicBool::new(false));
    let server = PipeServer::new(BROKER_PIPE_NAME, 2, flag.clone()).unwrap();
    assert_eq!(server.pipe_name(), BROKER_PIPE_NAME);
    assert!(server.keeps_accepting());
    assert!(!server.should_throttle(1));
    assert!(server.should_throttle(2));
    flag.store(true, Ordering::Relaxed);
    assert!(!server.keeps_accepting());

    assert_eq!(PipeServer::admit_client(true), Ok(()));
    assert_eq!(
        PipeServer::admit_client(false),
        Err("Access denied: Client must be a member of the Administrators group".to_string())
    );

    let mut request = ElevationRequest::new("cmd.exe".to_string(), vec![]);
    assert!(PipeServer::screen_request(&request).is_none());
    request.version = 7;
    let refused = PipeServer::screen_request(&request).unwrap();
    assert_eq!(refused.status, StatusCode::UnsupportedVersion);
    assert_eq!(
        refused.error_message,
        Some("Protocol version mismatch: client=7, server=1".to_string())
    );
    assert!(!refused.is_running);

    let passed = PipeServer::response_after_elevation(Ok(ElevationResponse::success(3)));
    assert_eq!(passed.process_id, Some(3));
    let failed = PipeServer::response_after_elevation(Err("Process timeout".to_string()));
    assert_eq!(failed.status, StatusCode::InternalError);
    assert_eq!(failed.error_message, Some("Process timeout".to_string()));
}

#[test]
fn elevation_handler_decisions() {
    let handler = ElevationHandler::new();
    let mut request = ElevationRequest::new("cmd.exe".to_string(), vec!["/c".to_string(), "dir".to_string()]);
    let refused = handler.check_auth_token(&request).unwrap();
    assert_eq!(refused.status, StatusCode::AuthenticationFailed);
    assert_eq!(refused.error_message, Some("Authentication token is required".to_string()));
    request.auth_token = vec![1];
    assert!(handler.check_auth_token(&request).is_none());

    assert_eq!(handler.command_line(&request), "cmd.exe /c dir");
    let bare = ElevationRequest::new("cmd.exe".to_string(), vec![]);
    assert_eq!(handler.command_line(&bare), "cmd.exe");

    assert_eq!(handler.console_mode(ExecutionMode::NewWindow), ConsoleMode::NewConsole);
    assert_eq!(handler.console_mode(ExecutionMode::Hidden), ConsoleMode::NoWindow);
    assert_eq!(handler.console_mode(ExecutionMode::Inline), ConsoleMode::Detached);
    assert_eq!(handler.console_mode(ExecutionMode::CurrentWindow), ConsoleMode::Inherit);
    assert_eq!(handler.console_mode(ExecutionMode::DisableInput), ConsoleMode::NoWindow);
    assert!(handler.waits_for_exit(ExecutionMode::Inline));
    assert!(!handler.waits_for_exit(ExecutionMode::Hidden));

    let running = handler.launched_response(42, ProcessEnd::Detached);
    assert!(running.is_running);
    assert_eq!(running.status, StatusCode::Success);
    assert_eq!(running.exit_code, None);
    let done = handler.launched_response(42, ProcessEnd::Exited(0));
    assert!(!done.is_running);
    assert_eq!(done.exit_code, Some(0));
    let killed = handler.launched_response(42, ProcessEnd::Terminated);
    assert!(!killed.is_running);
    assert_eq!(killed.exit_code, None);
    assert_eq!(killed.process_id, Some(42));
    assert_eq!(killed.status, StatusCode::Success);

    let denied = handler.launch_failure_response("The system cannot find the file specified.");
    assert_eq!(denied.status, StatusCode::AccessDenied);
    assert_eq!(
        denied.error_message,
        Some("Failed to create elevated process: The system cannot find the file specified.".to_string())
    );
}

#[test]
fn wait_expires_at_the_timeout() {
    let mut wait = ProcessWait::new(250);
    assert_eq!(wait.after_slice(WaitSignal::StillRunning), WaitAction::KeepWaiting);
    assert_eq!(wait.after_slice(WaitSignal::StillRunning), WaitAction::KeepWaiting);
    assert_eq!(wait.after_slice(WaitSignal::StillRunning), WaitAction::Expired);
    assert_eq!(wait.elapsed_ms(), 300);
    assert_eq!(WaitAction::Expired.error_text(), Some("Process timeout".to_string()));

    let mut exact = ProcessWait::new(200);
    assert_eq!(exact.after_slice(WaitSignal::StillRunning), WaitAction::KeepWaiting);
    assert_eq!(exact.after_slice(WaitSignal::StillRunning), WaitAction::Expired);

    let mut unbounded = ProcessWait::new(0);
    for _ in 0..1000 {
        assert_eq!(unbounded.after_slice(WaitSignal::StillRunning), WaitAction::KeepWaiting);
    }
    assert_eq!(unbounded.after_slice(WaitSignal::Exited(0xFFFF_FFFF)), WaitAction::Exited(-1));
    assert_eq!(unbounded.after_slice(WaitSignal::Failed(0xFFFF_FFFF)), WaitAction::WaitFailed(0xFFFF_FFFF));
    assert_eq!(
        WaitAction::WaitFailed(258).error_text(),
        Some("WaitForSingleObject failed: WAIT_EVENT(258)".to_string())
    );
    assert_eq!(WaitAction::KeepWaiting.error_text(), None);

    let mut huge = ProcessWait::new(u32::MAX);
    assert_eq!(huge.after_slice(WaitSignal::StillRunning), WaitAction::KeepWaiting);

    let mut stopping = ProcessWait::new(250);
    assert_eq!(stopping.after_slice(WaitSignal::StillRunning), WaitAction::KeepWaiting);
    assert_eq!(stopping.after_slice(WaitSignal::ShutdownRequested), WaitAction::Terminated);
    assert_eq!(stopping.elapsed_ms(), 100);
    assert_eq!(WaitAction::Terminated.error_text(), None);
}

#[test]
fn elevation_steps_in_order() {
    let handler = ElevationHandler::new();
    let bare = ElevationRequest::new("cmd.exe".to_string(), vec![]);
    assert_eq!(
        handler.elevation_step(&bare, ElevationStage::Received, ElevationEvent::Begin),
        (ElevationStage::Finished, ElevationAction::RefuseMissingToken)
    );

    let mut inline = ElevationRequest::new("cmd.exe".to_string(), vec![]);
    inline.auth_token = vec![1, 2, 3];
    inline.execution_mode = ExecutionMode::Inline;
    let (stage, action) = handler.elevation_step(&inline, ElevationStage::Received, ElevationEvent::Begin);
    assert_eq!((stage, action), (ElevationStage::Launching, ElevationAction::CreateProcess));
    let (stage, action) = handler.elevation_step(&inline, stage, ElevationEvent::ProcessCreated(9));
    assert_eq!((stage, action), (ElevationStage::Waiting(9), ElevationAction::Wait));
    let (stage, action) =
        handler.elevation_step(&inline, stage, ElevationEvent::Waited(WaitAction::KeepWaiting));
    assert_eq!((stage, action), (ElevationStage::Waiting(9), ElevationAction::Wait));
    assert_eq!(
        handler.elevation_step(&inline, stage, ElevationEvent::Waited(WaitAction::Terminated)),
        (ElevationStage::Finished, ElevationAction::Respond(9, ProcessEnd::Terminated))
    );
    assert_eq!(
        handler.elevation_step(&inline, stage, ElevationEvent::Waited(WaitAction::Exited(3))),
        (ElevationStage::Finished, ElevationAction::Respond(9, ProcessEnd::Exited(3)))
    );
    assert_eq!(
        handler.elevation_step(&inline, stage, ElevationEvent::Waited(WaitAction::Expired)),
        (ElevationStage::Finished, ElevationAction::Fail { terminate: true })
    );
    assert_eq!(
        handler.elevation_step(&inline, ElevationStage::Launching, ElevationEvent::CreateFailed),
        (ElevationStage::Finished, ElevationAction::RespondLaunchFailure)
    );
    assert_eq!(
        handler.elevation_step(&inline, ElevationStage::Launching, ElevationEvent::SystemTokenFailed),
        (ElevationStage::Finished, ElevationAction::Fail { terminate: false })
    );

    let mut window = inline.clone();
    window.execution_mode = ExecutionMode::NewWindow;
    assert_eq!(
        handler.elevation_step(&window, ElevationStage::Launching, ElevationEvent::ProcessCreated(5)),
        (ElevationStage::Finished, ElevationAction::Respond(5, ProcessEnd::Detached))
    );
    assert_eq!(
        handler.elevation_step(&window, ElevationStage::Finished, ElevationEvent::Begin),
        (ElevationStage::Finished, ElevationAction::Fail { terminate: false })
    );
}

#[test]
fn audit_records() {
    let mut request = ElevationRequest::new("cmd.exe".to_string(), vec!["/c".to_string(), "echo hi".to_string()]);
    request.auth_token = vec![0; 68];
    request.execution_mode = ExecutionMode::NewWindow;
    let r = AuditLogger::elevation_request_record(&request);
    assert_eq!(r.event_id, EVENT_ELEVATION_REQUEST);
    assert_eq!(r.level, EventLevel::Information);
    assert_eq!(
        r.message,
        "Elevation request received\nCommand: cmd.exe\nArguments: /c echo hi\nExecution Mode: NewWindow\nWorking Directory: (current)\nAuth Token Length: 68 bytes"
    );
    request.working_directory = Some("C:\\Work".to_string());
    assert!(AuditLogger::elevation_request_record(&request).message.contains("Working Directory: C:\\Work\n"));

    let s = AuditLogger::elevation_success_record(&request, &ElevationResponse::completed(12, -5));
    assert_eq!(s.event_id, EVENT_ELEVATION_SUCCESS);
    assert_eq!(s.message, "Elevation succeeded\nCommand: cmd.exe\nProcess ID: 12\nExit Code: -5");
    let s2 = AuditLogger::elevation_success_record(&request, &ElevationResponse::error(StatusCode::Error, "x"));
    assert_eq!(s2.message, "Elevation succeeded\nCommand: cmd.exe\nProcess ID: 0\nExit Code: N/A");

    let f = AuditLogger::elevation_failure_record(&request, "boom");
    assert_eq!(f.event_id, EVENT_INTERNAL_ERROR);
    assert_eq!(f.level, EventLevel::Error);
    assert_eq!(f.message, "Elevation failed\nCommand: cmd.exe\nError: boom");
    let a = AuditLogger::authentication_failure_record(&request, "bad token");
    assert_eq!(a.event_id, EVENT_AUTHENTICATION_FAILED);
    assert_eq!(a.level, EventLevel::Warning);
    assert_eq!(a.message, "Authentication failed\nCommand: cmd.exe\nReason: bad token");
    let d = AuditLogger::access_denied_record(&request, "not admin");
    assert_eq!(d.event_id, EVENT_ELEVATION_DENIED);
    assert_eq!(d.message, "Elevation denied\nCommand: cmd.exe\nReason: not admin");
}

#[test]
fn client_is_served_in_order() {
    let (stage, action) = PipeServer::client_step(ClientStage::AwaitingIdentity, ClientEvent::IdentityChecked(true));
    assert_eq!((stage, action), (ClientStage::AwaitingRequest, ClientAction::ReadRequest));
    let (stage, action) = PipeServer::client_step(stage, ClientEvent::RequestDecoded(1));
    assert_eq!((stage, action), (ClientStage::Elevating, ClientAction::Elevate));
    let (stage, action) = PipeServer::client_step(stage, ClientEvent::ElevationFinished);
    assert_eq!((stage, action), (ClientStage::Closed, ClientAction::RespondWithOutcome));
    assert_eq!(
        PipeServer::client_step(stage, ClientEvent::ElevationFinished),
        (ClientStage::Closed, ClientAction::Abandon)
    );

    assert_eq!(
        PipeServer::client_step(ClientStage::AwaitingIdentity, ClientEvent::IdentityChecked(false)),
        (ClientStage::Closed, ClientAction::Abandon)
    );
    assert_eq!(
        PipeServer::client_step(ClientStage::AwaitingIdentity, ClientEvent::IdentityCheckFailed),
        (ClientStage::Closed, ClientAction::Abandon)
    );
    assert_eq!(
        PipeServer::client_step(ClientStage::AwaitingIdentity, ClientEvent::RequestDecoded(1)),
        (ClientStage::Closed, ClientAction::Abandon)
    );
    assert_eq!(
        PipeServer::client_step(ClientStage::AwaitingRequest, ClientEvent::RequestDecoded(7)),
        (ClientStage::Closed, ClientAction::RespondVersionMismatch)
    );
    assert_eq!(
        PipeServer::client_step(ClientStage::AwaitingRequest, ClientEvent::RequestUnreadable),
        (ClientStage::Closed, ClientAction::Abandon)
    );
}

#[test]
fn service_stages_follow_events() {
    let listening = BrokerService::next_stage(ServiceStage::Starting, ServiceEvent::ServerCreated);
    assert_eq!(listening, ServiceStage::Listening);
    assert_eq!(
        BrokerService::next_stage(ServiceStage::Starting, ServiceEvent::ServerCreateFailed),
        ServiceStage::StartFailed
    );
    assert_eq!(BrokerService::next_stage(listening, ServiceEvent::ServerFailed), ServiceStage::ServerFailed);
    let stopping = BrokerService::next_stage(listening, ServiceEvent::ServerStopped);
    assert_eq!(stopping, ServiceStage::Stopping);
    assert_eq!(BrokerService::next_stage(stopping, ServiceEvent::StopReported), ServiceStage::Stopped);
    assert_eq!(
        BrokerService::next_stage(ServiceStage::Stopped, ServiceEvent::ServerCreated),
        ServiceStage::Stopped
    );
    assert_eq!(
        BrokerService::next_stage(ServiceStage::ServerFailed, ServiceEvent::StopReported),
        ServiceStage::ServerFailed
    );
    assert_eq!(
        BrokerService::next_stage(ServiceStage::Starting, ServiceEvent::ServerStopped),
        ServiceStage::Starting
    );
}

#[test]
fn pipe_admits_only_system_and_administrators() {
    assert_eq!(PIPE_SECURITY_SDDL, "D:(A;;GA;;;SY)(A;;GA;;;BA)");
}
