use std::time::Duration;
use sudo::broker_client::{
    build_broker_request, keep_receiving, pause_before_retry, streams_output, BrokerClient,
    ClientError, CONNECT_ATTEMPTS,
};
use sudo::broker_protocol::{
    ElevationRequest, ElevationResponse, ExecutionMode, StatusCode, DEFAULT_TIMEOUT_MS,
    PROTOCOL_VERSION,
};

#[test]
fn test_broker_client_creation() {
    let client = BrokerClient::new();
    assert!(!client.is_connected());
    assert_eq!(client.timeout(), Duration::from_millis(DEFAULT_TIMEOUT_MS as u64));
}

#[test]
fn test_broker_client_with_timeout() {
    let custom_timeout = Duration::from_secs(60);
    let client = BrokerClient::new().with_timeout(custom_timeout);
    assert_eq!(client.timeout(), custom_timeout);
}

#[test]
fn test_disconnect_when_not_connected() {
    let mut client = BrokerClient::new();
    client.disconnect();
    assert!(!client.is_connected());
}

#[test]
fn test_is_connected_initial_state() {
    let client = BrokerClient::new();
    assert!(!client.is_connected(), "Client should not be connected initially");
}

#[test]
fn test_request_validation_before_send() {
    let _client = BrokerClient::new();
    let request = ElevationRequest::new("".to_string(), vec![]);
    let validation_result = request.validate();
    assert!(validation_result.is_err());
    assert!(validation_result.unwrap_err().contains("Command cannot be empty"));
}

#[test]
fn test_multiple_disconnects() {
    let mut client = BrokerClient::new();
    client.disconnect();
    client.disconnect();
    client.disconnect();
    assert!(!client.is_connected());
}

#[test]
fn test_default_timeout_matches_protocol() {
    let client = BrokerClient::new();
    assert_eq!(
        client.timeout().as_millis(),
        DEFAULT_TIMEOUT_MS as u128,
        "Client timeout should match protocol default"
    );
}

#[test]
fn test_timeout_boundary_values() {
    let timeouts = vec![
        Duration::from_millis(0),
        Duration::from_millis(1),
        Duration::from_millis(1000),
        Duration::from_secs(60),
        Duration::from_secs(3600),
    ];
    for timeout in timeouts {
        let client = BrokerClient::new().with_timeout(timeout);
        assert_eq!(client.timeout(), timeout);
    }
}

#[test]
fn test_builder_pattern_chaining() {
    let timeout = Duration::from_secs(45);
    let client = BrokerClient::new().with_timeout(timeout);
    assert_eq!(client.timeout(), timeout);
    assert!(!client.is_connected());
}

#[test]
fn test_client_state_after_disconnect() {
    let mut client = BrokerClient::new();
    client = client.with_timeout(Duration::from_secs(100));
    client.disconnect();
    assert!(!client.is_connected());
    assert_eq!(client.timeout(), Duration::from_secs(100));
}

#[test]
fn request_refused_without_connection() {
    let client = BrokerClient::new();
    let request = ElevationRequest::new("cmd.exe".to_string(), vec![]);
    assert_eq!(client.prepare_elevation(&request), Err(ClientError::NotConnected));
}

#[test]
fn connected_client_checks_the_request() {
    let mut client = BrokerClient::new();
    client.mark_connected();
    assert!(client.is_connected());
    let good = ElevationRequest::new("cmd.exe".to_string(), vec![]);
    assert_eq!(client.prepare_elevation(&good), Ok(()));
    let bad = ElevationRequest::new("".to_string(), vec![]);
    assert_eq!(
        client.prepare_elevation(&bad),
        Err(ClientError::InvalidRequest("Command cannot be empty".to_string()))
    );
    assert!(client.disconnect());
    assert!(!client.disconnect());
    assert!(!client.is_connected());
}

#[test]
fn retries_pause_between_attempts_only() {
    assert_eq!(CONNECT_ATTEMPTS, 3);
    assert!(pause_before_retry(0, 3));
    assert!(pause_before_retry(1, 3));
    assert!(!pause_before_retry(2, 3));
    assert!(!pause_before_retry(0, 1));
}

#[test]
fn output_loop_stops_on_final_chunk_or_callback() {
    assert!(keep_receiving(true, false));
    assert!(!keep_receiving(true, true));
    assert!(!keep_receiving(false, false));
    assert!(!keep_receiving(false, true));
}

#[test]
fn output_is_streamed_only_for_successful_inline_requests() {
    let ok = ElevationResponse::success(1);
    let denied = ElevationResponse::error(StatusCode::AccessDenied, "no");
    assert!(streams_output(ExecutionMode::Inline, &ok));
    assert!(!streams_output(ExecutionMode::Inline, &denied));
    assert!(!streams_output(ExecutionMode::NewWindow, &ok));
}

#[test]
fn broker_request_carries_the_callers_values() {
    let env = vec![
        ("A".to_string(), "1".to_string()),
        ("B".to_string(), "2".to_string()),
        ("A".to_string(), "3".to_string()),
    ];
    let args = vec!["x".to_string(), "y z".to_string()];
    let request = build_broker_request(
        "notepad.exe",
        &args,
        Some("C:\\Test"),
        ExecutionMode::Hidden,
        &env,
        vec![9, 9],
    );
    assert_eq!(request.version, PROTOCOL_VERSION);
    assert_eq!(request.command, "notepad.exe");
    assert_eq!(request.arguments, args);
    assert_eq!(request.working_directory, Some("C:\\Test".to_string()));
    assert_eq!(request.execution_mode, ExecutionMode::Hidden);
    assert_eq!(request.auth_token, vec![9, 9]);
    assert_eq!(request.environment.len(), 2);
    assert_eq!(request.environment.get("A"), Some(&"3".to_string()));
    assert_eq!(request.environment.get("B"), Some(&"2".to_string()));
    assert_eq!(request.timeout_ms, DEFAULT_TIMEOUT_MS);

    let plain = build_broker_request("cmd.exe", &[], None, ExecutionMode::Inline, &[], vec![]);
    assert!(plain.working_directory.is_none());
    assert!(plain.environment.is_empty());
}
