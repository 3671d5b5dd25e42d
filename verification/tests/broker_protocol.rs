use sudo::broker_protocol::{
    check_message_size, ElevationRequest, ElevationResponse, ExecutionMode, OutputChunk,
    OutputStreamType, StatusCode, DEFAULT_TIMEOUT_MS, MAX_MESSAGE_SIZE, PROTOCOL_VERSION,
};

#[test]
fn test_execution_mode_parsing() {
    assert_eq!(ExecutionMode::from_str("inline"), Some(ExecutionMode::Inline));
    assert_eq!(ExecutionMode::from_str("NEW"), Some(ExecutionMode::NewWindow));
    assert_eq!(ExecutionMode::from_str("hidden"), Some(ExecutionMode::Hidden));
    assert_eq!(ExecutionMode::from_str("invalid"), None);
}

#[test]
fn test_status_code_messages() {
    assert_eq!(StatusCode::Success.to_error_message(), "Success");
    assert!(StatusCode::Success.is_success());
    assert!(!StatusCode::AccessDenied.is_success());
}

#[test]
fn test_protocol_version_validation() {
    let mut request = ElevationRequest::new("cmd.exe".to_string(), vec![]);

    request.version = PROTOCOL_VERSION;
    assert!(request.validate().is_ok());

    request.version = 999;
    let result = request.validate();
    assert!(result.is_err());
    assert!(result.unwrap_err().contains("Unsupported protocol version"));
}

#[test]
fn test_empty_command_validation() {
    let request = ElevationRequest::new("".to_string(), vec![]);

    let result = request.validate();
    assert!(result.is_err());
    assert!(result.unwrap_err().contains("Command cannot be empty"));
}

#[test]
fn test_timeout_validation() {
    let mut request = ElevationRequest::new("cmd.exe".to_string(), vec![]);

    request.timeout_ms = 0;
    assert!(request.validate().is_ok());

    request.timeout_ms = 1000;
    assert!(request.validate().is_ok());

    request.timeout_ms = 60_000;
    assert!(request.validate().is_ok());

    request.timeout_ms = 500;
    let result = request.validate();
    assert!(result.is_err());
    assert!(result.unwrap_err().contains("at least 1000ms"));
}

#[test]
fn test_elevation_response_success() {
    let response = ElevationResponse::success(1234);

    assert_eq!(response.status, StatusCode::Success);
    assert!(response.error_message.is_none());
    assert_eq!(response.process_id, Some(1234));
    assert!(response.is_running);
}

#[test]
fn test_elevation_response_error() {
    let response = ElevationResponse::error(StatusCode::AccessDenied, "Permission denied");

    assert_eq!(response.status, StatusCode::AccessDenied);
    assert_eq!(response.error_message, Some("Permission denied".to_string()));
    assert!(response.process_id.is_none());
    assert!(!response.is_running);
}

#[test]
fn execution_mode_names_and_case() {
    assert_eq!(ExecutionMode::from_str("i"), Some(ExecutionMode::Inline));
    assert_eq!(ExecutionMode::from_str("NewWindow"), Some(ExecutionMode::NewWindow));
    assert_eq!(ExecutionMode::from_str("n"), Some(ExecutionMode::NewWindow));
    assert_eq!(ExecutionMode::from_str("Current"), Some(ExecutionMode::CurrentWindow));
    assert_eq!(ExecutionMode::from_str("CURRENTWINDOW"), Some(ExecutionMode::CurrentWindow));
    assert_eq!(ExecutionMode::from_str("c"), Some(ExecutionMode::CurrentWindow));
    assert_eq!(ExecutionMode::from_str("DisableInput"), Some(ExecutionMode::DisableInput));
    assert_eq!(ExecutionMode::from_str("D"), Some(ExecutionMode::DisableInput));
    assert_eq!(ExecutionMode::from_str("H"), Some(ExecutionMode::Hidden));
    assert_eq!(ExecutionMode::from_str(""), None);
    assert_eq!(ExecutionMode::from_str("inline "), None);
    assert_eq!(ExecutionMode::from_str("\u{130}nline"), None);
}

#[test]
fn every_status_has_its_message_and_code() {
    let all = [
        (StatusCode::Success, "Success", 0),
        (StatusCode::AuthenticationFailed, "Authentication failed", 1),
        (StatusCode::UserDenied, "User denied the elevation request", 2),
        (StatusCode::CommandNotFound, "Command not found", 3),
        (StatusCode::AccessDenied, "Access denied", 4),
        (StatusCode::Timeout, "Operation timed out", 5),
        (StatusCode::InvalidRequest, "Invalid request parameters", 6),
        (StatusCode::InternalError, "Internal broker service error", 7),
        (StatusCode::UnsupportedVersion, "Unsupported protocol version", 8),
        (StatusCode::HelloNotAvailable, "Windows Hello is not available", 9),
        (StatusCode::APNotEnabled, "Administrator Protection is not enabled", 10),
        (StatusCode::Error, "An error occurred", 999),
    ];
    for (status, message, code) in all {
        assert_eq!(status.to_error_message(), message);
        assert_eq!(status.code(), code);
        assert_eq!(status.is_success(), code == 0);
    }
}

#[test]
fn validation_messages_are_exact() {
    let mut request = ElevationRequest::new("cmd.exe".to_string(), vec![]);
    request.version = 999;
    assert_eq!(
        request.validate().unwrap_err(),
        "Unsupported protocol version: 999 (expected 1)"
    );
    request.version = 0;
    assert_eq!(request.validate().unwrap_err(), "Unsupported protocol version: 0 (expected 1)");

    // The version is checked before the command and the timeout.
    let mut both = ElevationRequest::new("".to_string(), vec![]);
    both.version = 2;
    both.timeout_ms = 1;
    assert!(both.validate().unwrap_err().starts_with("Unsupported protocol version: 2"));
    both.version = PROTOCOL_VERSION;
    assert_eq!(both.validate().unwrap_err(), "Command cannot be empty");

    let mut short = ElevationRequest::new("cmd.exe".to_string(), vec![]);
    short.timeout_ms = 999;
    assert_eq!(
        short.validate().unwrap_err(),
        "Timeout must be at least 1000ms or 0 for no timeout"
    );
    short.timeout_ms = 1;
    assert!(short.validate().is_err());
    short.timeout_ms = u32::MAX;
    assert!(short.validate().is_ok());
}

#[test]
fn new_request_has_protocol_defaults() {
    let request = ElevationRequest::new("notepad.exe".to_string(), vec!["a.txt".to_string()]);
    assert_eq!(request.version, PROTOCOL_VERSION);
    assert!(request.auth_token.is_empty());
    assert_eq!(request.command, "notepad.exe");
    assert_eq!(request.arguments, vec!["a.txt".to_string()]);
    assert!(request.working_directory.is_none());
    assert!(request.environment.is_empty());
    assert_eq!(request.execution_mode, ExecutionMode::Inline);
    assert_eq!(request.timeout_ms, DEFAULT_TIMEOUT_MS);
    assert!(request.capture_stdout);
    assert!(request.capture_stderr);
}

#[test]
fn completed_response_is_not_running() {
    let response = ElevationResponse::completed(77, -3);
    assert_eq!(response.status, StatusCode::Success);
    assert!(response.error_message.is_none());
    assert_eq!(response.process_id, Some(77));
    assert_eq!(response.exit_code, Some(-3));
    assert!(!response.is_running);
}

#[test]
fn output_chunk_keeps_its_fields() {
    let chunk = OutputChunk::new(OutputStreamType::Stderr, b"test output".to_vec(), 42, true);
    assert_eq!(chunk.stream, OutputStreamType::Stderr);
    assert_eq!(chunk.data, b"test output".to_vec());
    assert_eq!(chunk.sequence, 42);
    assert!(chunk.is_final);
}

#[test]
fn message_size_limit_refuses_oversized_messages() {
    assert!(check_message_size(0).is_ok());
    assert!(check_message_size(MAX_MESSAGE_SIZE).is_ok());
    let err = check_message_size(MAX_MESSAGE_SIZE + 1).unwrap_err();
    assert!(err.contains("Message too large"));
    assert_eq!(err, "Message too large: 16777217 bytes (max 16777216)");
}

#[test]
fn environment_insert_get_and_override() {
    let mut request = ElevationRequest::new("cmd.exe".to_string(), vec![]);
    assert_eq!(request.environment.insert("TEST_VAR".to_string(), "value".to_string()), None);
    assert_eq!(request.environment.get("TEST_VAR"), Some(&"value".to_string()));
    assert_eq!(
        request.environment.insert("TEST_VAR".to_string(), "other".to_string()),
        Some("value".to_string())
    );
    assert_eq!(request.environment.get("TEST_VAR"), Some(&"other".to_string()));
    assert_eq!(request.environment.len(), 1);
    assert_eq!(request.environment.get("MISSING"), None);
    for i in 0..100 {
        request.environment.insert(format!("VAR_{}", i), format!("VALUE_{}", i));
    }
    assert_eq!(request.environment.len(), 101);
    assert_eq!(request.environment.get("VAR_0"), Some(&"VALUE_0".to_string()));
    let copy = request.environment.clone();
    assert_eq!(copy.len(), 101);
    assert_eq!(copy.get("VAR_99"), Some(&"VALUE_99".to_string()));
    assert_eq!(copy.pairs_slice().len(), 101);
}
