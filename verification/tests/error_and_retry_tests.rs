use std::time::Duration;

use mcp_rag::mcp_error::McpError;
use mcp_rag::mcp_retry::{server_operation_name, CircuitBreaker, CircuitState, HealthMonitor, RetryController, RetryStep};

#[test]
fn test_mcp_error_creation() {
    let error = McpError::connection_failed("test-server", "Connection refused");
    assert!(matches!(error, McpError::ServerConnectionFailed { .. }));
    assert_eq!(error.server_name(), Some("test-server"));
    assert!(error.is_retryable());
}

#[test]
fn test_mcp_error_user_messages() {
    let error = McpError::ServerUnavailable { server_name: "weather-server".to_string() };
    let user_msg = error.user_message();
    assert!(user_msg.contains("weather-server"));
    assert!(user_msg.contains("unavailable"));
}

#[test]
fn test_error_retryability() {
    assert!(McpError::ServerConnectionFailed { server_name: "test".to_string(), reason: "timeout".to_string() }
        .is_retryable());

    assert!(!McpError::InvalidConfig { reason: "malformed json".to_string() }.is_retryable());

    assert!(!McpError::MaxRetriesExceeded { server_name: "test".to_string(), max_retries: 3 }.is_retryable());
}

#[test]
fn test_health_monitoring() {
    let mut health_monitor = HealthMonitor::new(Duration::from_secs(60));

    // Initially healthy
    assert!(health_monitor.is_server_healthy("server1"));

    // Record failures
    health_monitor.record_server_failure("server1");
    health_monitor.record_server_failure("server1");
    health_monitor.record_server_failure("server1");

    // Should be unhealthy now
    assert!(!health_monitor.is_server_healthy("server1"));

    let unhealthy_servers = health_monitor.get_unhealthy_servers();
    assert!(unhealthy_servers.contains(&"server1".to_string()));
}

#[test]
fn error_messages_follow_their_variant() {
    assert_eq!(
        McpError::connection_failed("test-server", "Connection refused").message(),
        "Failed to connect to MCP server 'test-server': Connection refused"
    );
    assert_eq!(McpError::config_error("Invalid configuration").message(), "Invalid MCP configuration: Invalid configuration");
    assert_eq!(
        McpError::MaxRetriesExceeded { server_name: "s".to_string(), max_retries: 3 }.message(),
        "Server 's' exceeded maximum retry attempts (3)"
    );
    assert_eq!(
        McpError::OperationTimeout { operation: "discovery".to_string(), timeout_seconds: 30 }.message(),
        "Operation 'discovery' timed out after 30 seconds"
    );
    assert_eq!(McpError::internal("boom").message(), "Internal MCP error: boom");
    assert_eq!(McpError::search_failed("no index").message(), "MCP tool search failed: no index");
    assert_eq!(
        McpError::invalid_schema("srv", "tool", "bad").message(),
        "Invalid tool schema from server 'srv', tool 'tool': bad"
    );
    assert_eq!(
        McpError::indexing_failed("srv", "disk full").message(),
        "Failed to index MCP tools from server 'srv': disk full"
    );
}

#[test]
fn user_messages_fall_back_to_the_error_text() {
    assert_eq!(
        McpError::config_error("x").user_message(),
        "MCP configuration is invalid. Please check your mcp.json file format."
    );
    assert_eq!(McpError::internal("boom").user_message(), "Internal MCP error: boom");
}

#[test]
fn server_names_only_for_server_errors() {
    assert_eq!(McpError::config_error("x").server_name(), None);
    assert_eq!(McpError::indexing_failed("srv", "r").server_name(), Some("srv"));
    assert!(McpError::HealthCheckFailed { server_name: "a".to_string(), reason: "b".to_string() }.is_retryable());
    assert!(!McpError::internal("x").is_retryable());
}

#[test]
fn cloned_errors_keep_their_fields() {
    let e = McpError::connection_failed("srv", "refused");
    let c = e.clone();
    assert_eq!(c.message(), e.message());
    assert_eq!(c.server_name(), Some("srv"));
}

#[test]
fn circuit_breaker_opens_after_threshold() {
    let mut circuit_breaker = CircuitBreaker::new(2, Duration::from_secs(30));
    assert_eq!(circuit_breaker.state(), &CircuitState::Closed);
    assert!(circuit_breaker.can_execute());

    circuit_breaker.record_failure();
    assert_eq!(circuit_breaker.state(), &CircuitState::Closed);
    circuit_breaker.record_failure();
    assert_eq!(circuit_breaker.state(), &CircuitState::Open);
    assert!(!circuit_breaker.can_execute());
}

#[test]
fn circuit_breaker_recovers_through_half_open() {
    let mut cb = CircuitBreaker::new(1, Duration::from_secs(30));
    cb.record_failure();
    assert_eq!(cb.state(), &CircuitState::Open);
    // The recovery time has not passed: refused.
    assert!(!cb.admit_given(false));
    assert_eq!(cb.state(), &CircuitState::Open);
    // Once it has passed, the breaker lets a trial through.
    assert!(cb.admit_given(true));
    assert_eq!(cb.state(), &CircuitState::HalfOpen);
    cb.record_success();
    cb.record_success();
    assert_eq!(cb.state(), &CircuitState::HalfOpen);
    cb.record_success();
    assert_eq!(cb.state(), &CircuitState::Closed);
}

#[test]
fn half_open_failure_reopens() {
    let mut cb = CircuitBreaker::new(1, Duration::from_secs(30));
    cb.record_failure();
    assert!(cb.admit_given(true));
    cb.record_failure();
    assert_eq!(cb.state(), &CircuitState::Open);
}

#[test]
fn success_resets_the_failure_count() {
    let mut cb = CircuitBreaker::new(2, Duration::from_secs(30));
    cb.record_failure();
    cb.record_success();
    cb.record_failure();
    assert_eq!(cb.state(), &CircuitState::Closed);
}

#[test]
fn health_recovers_after_success() {
    let mut m = HealthMonitor::new(Duration::from_secs(60));
    m.record_server_failure("a");
    m.record_server_failure("a");
    assert!(m.is_server_healthy("a"));
    m.record_server_failure("b");
    m.record_server_failure("a");
    assert!(!m.is_server_healthy("a"));
    assert!(m.is_server_healthy("b"));
    m.record_server_success("a");
    assert!(m.is_server_healthy("a"));
    assert!(m.get_unhealthy_servers().is_empty());
    assert_eq!(m.check_interval(), Duration::from_secs(60));
}

#[test]
fn retry_controller_retries_retryable_errors() {
    let mut rc = RetryController::new(3);
    assert_eq!(rc.max_attempts(), 3);
    assert!(matches!(rc.begin::<u32>("op"), RetryStep::RetryAfter { next_attempt: 0 }));
    let step = rc.after_attempt::<u32>(0, Err(McpError::connection_failed("srv", "refused")));
    assert!(matches!(step, RetryStep::RetryAfter { next_attempt: 1 }));
    let step = rc.after_attempt::<u32>(1, Ok(7));
    assert!(matches!(step, RetryStep::Done(Ok(7))));
}

#[test]
fn retry_controller_gives_up_after_the_last_attempt() {
    let mut rc = RetryController::new(2);
    let step = rc.after_attempt::<u32>(1, Err(McpError::connection_failed("srv", "refused")));
    match step {
        RetryStep::Done(Err(McpError::MaxRetriesExceeded { server_name, max_retries })) => {
            assert_eq!(server_name, "srv");
            assert_eq!(max_retries, 2);
        },
        _ => panic!("expected MaxRetriesExceeded"),
    }
}

#[test]
fn retry_controller_stops_at_non_retryable_errors() {
    let mut rc = RetryController::new(5);
    let step = rc.after_attempt::<u32>(0, Err(McpError::config_error("bad")));
    match step {
        RetryStep::Done(Err(e)) => assert_eq!(e.message(), "Invalid MCP configuration: bad"),
        _ => panic!("expected the error back"),
    }
}

#[test]
fn retry_controller_refuses_when_the_circuit_is_open() {
    let mut cb = CircuitBreaker::new(1, Duration::from_secs(3600));
    cb.record_failure();
    let mut rc = RetryController::with_circuit_breaker(3, cb);
    match rc.begin::<u32>("fetch") {
        RetryStep::Done(Err(McpError::OperationCancelled { operation })) => assert_eq!(operation, "fetch (circuit breaker open)"),
        _ => panic!("expected a refusal"),
    }
}

#[test]
fn retry_controller_without_attempts_reports_unknown_error() {
    let mut rc = RetryController::new(0);
    match rc.begin::<u32>("op") {
        RetryStep::Done(Err(McpError::Internal { message })) => assert_eq!(message, "Unknown error"),
        _ => panic!("expected an internal error"),
    }
    match rc.no_attempt_made::<u32>() {
        Err(McpError::Internal { message }) => assert_eq!(message, "Unknown error"),
        _ => panic!("expected an internal error"),
    }
}

#[test]
fn server_operations_are_named_server_colon_operation() {
    assert_eq!(server_operation_name("weather", "get_tool_schemas"), "weather:get_tool_schemas");
}

#[test]
fn messages_that_format_outside_values() {
    let timeout = McpError::ServerTimeout { server_name: "s".to_string(), timeout: Duration::from_secs(3) };
    assert_eq!(timeout.message(), "Connection to MCP server 's' timed out after 3s");
    assert!(timeout.is_retryable());
    let io = McpError::IoError {
        operation: "read".to_string(),
        source: std::io::Error::new(std::io::ErrorKind::NotFound, "gone"),
    };
    assert_eq!(io.message(), "IO error during MCP operation: read - gone");
    let json_err = serde_json::from_str::<u32>("x").unwrap_err();
    let text = json_err.to_string();
    let json = McpError::JsonError { context: "parse".to_string(), source: json_err };
    assert_eq!(json.message(), format!("JSON serialization/deserialization error: parse - {}", text));
}

#[test]
fn errors_holding_outside_values_clone_as_internal() {
    let io = McpError::IoError {
        operation: "read".to_string(),
        source: std::io::Error::new(std::io::ErrorKind::NotFound, "gone"),
    };
    let c = io.clone();
    match &c {
        McpError::Internal { message } => assert_eq!(message, "IO error during read: gone"),
        _ => panic!("expected an internal error"),
    }
    assert!(!c.is_retryable());
    assert_eq!(c.server_name(), None);
}

#[test]
fn open_breaker_with_zero_timeout_probes_at_once() {
    let mut cb = CircuitBreaker::new(1, Duration::ZERO);
    cb.record_failure();
    assert_eq!(cb.state(), &CircuitState::Open);
    assert!(cb.can_execute());
    assert_eq!(cb.state(), &CircuitState::HalfOpen);
}

#[test]
fn open_breaker_keeps_refusing_before_its_timeout() {
    let mut cb = CircuitBreaker::new(2, Duration::from_secs(3600));
    cb.record_failure();
    cb.record_success();
    assert_eq!(cb.state(), &CircuitState::Closed);
    cb.record_failure();
    cb.record_failure();
    assert_eq!(cb.state(), &CircuitState::Open);
    assert!(!cb.can_execute());
    assert_eq!(cb.state(), &CircuitState::Open);
}

#[test]
fn fresh_controllers_can_count_a_failure() {
    assert!(RetryController::new(3).can_count_failure_now());
    let cb = CircuitBreaker::new(1, Duration::from_secs(30));
    assert!(RetryController::with_circuit_breaker(3, cb).can_count_failure_now());
}
