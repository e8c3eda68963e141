use bitbrowser_core::json::{inspect_body, shape_ok, BodyShape};
use bitbrowser_core::monitor::{get_timestamp, Monitor};
use bitbrowser_core::ports::{
    alternative_ports, api_base_url, attempt_validates, select_port, DEFAULT_API_PORT,
};
use bitbrowser_core::status::{
    classify_attempt, connected_status, diagnose_disconnect, status_after_probe, ApiError,
    AttemptOutcome, ConnectionStatus, DisconnectReason, PortOwner, should_retry,
    MAX_PROBE_ATTEMPTS,
};

fn good_shape() -> BodyShape {
    inspect_body("{\"success\":true,\"data\":{\"list\":[]}}")
}

#[test]
fn fingerprint_is_structural_not_reachability() {
    // A reachable server answering the wrong shape must be rejected.
    let wrong = inspect_body("{\"foo\":\"bar\"}");
    assert!(wrong.parsed);
    assert!(!shape_ok(&wrong));
    let outcome = AttemptOutcome::Response { status: 200, shape: wrong };
    assert!(!attempt_validates(&outcome));
    assert!(matches!(classify_attempt(&outcome), Err(ApiError::InvalidResponse(_))));

    // The expected shape must be accepted.
    let right = good_shape();
    assert!(shape_ok(&right));
    assert!(attempt_validates(&AttemptOutcome::Response { status: 200, shape: right }));
}

#[test]
fn fingerprint_requires_data_list_nesting() {
    let flat = inspect_body("{\"success\":true,\"list\":[]}");
    assert!(!shape_ok(&flat));
    let unparsed = inspect_body("not json at all");
    assert!(!unparsed.parsed);
    assert!(!shape_ok(&unparsed));
}

#[test]
fn classification_orders_status_before_body() {
    let bad_status = AttemptOutcome::Response { status: 500, shape: good_shape() };
    assert!(matches!(classify_attempt(&bad_status), Err(ApiError::HttpError(500))));
    let transport = AttemptOutcome::TransportFailure { detail: "connection refused".to_string() };
    match classify_attempt(&transport) {
        Err(ApiError::RequestFailed(d)) => assert_eq!(d, "connection refused"),
        other => panic!("unexpected: {:?}", other),
    }
    let unread = AttemptOutcome::Response {
        status: 204,
        shape: inspect_body("{\"truncated\":"),
    };
    assert!(matches!(classify_attempt(&unread), Err(ApiError::ResponseReadFailed(_))));
}

#[test]
fn retry_budget_is_three_attempts() {
    assert_eq!(MAX_PROBE_ATTEMPTS, 3);
    assert!(should_retry(1, false));
    assert!(should_retry(2, false));
    assert!(!should_retry(3, false));
    assert!(!should_retry(1, true));
}

#[test]
fn scenario_not_running_dominates() {
    // Process not running: NotRunning, whatever the error and the port said.
    let e = ApiError::HttpError(502);
    let owner = Some(PortOwner { process_id: 7, process_name: "otherapp.exe".to_string() });
    let status = diagnose_disconnect(&e, false, &owner, DEFAULT_API_PORT);
    match status {
        ConnectionStatus::Disconnected { reason, .. } => {
            assert!(matches!(reason, DisconnectReason::NotRunning))
        },
        _ => panic!("expected disconnected"),
    }
}

#[test]
fn scenario_foreign_port_owner() {
    let e = ApiError::RequestFailed("refused".to_string());
    let owner = Some(PortOwner { process_id: 4444, process_name: "otherapp.exe".to_string() });
    let status = diagnose_disconnect(&e, true, &owner, 54345);
    match status {
        ConnectionStatus::Disconnected {
            reason: DisconnectReason::PortOccupied { process_name, process_id },
            message,
        } => {
            assert_eq!(process_name, "otherapp.exe");
            assert_eq!(process_id, 4444);
            assert_eq!(message, "port 54345 is occupied by otherapp.exe (pid 4444)");
        },
        other => panic!("unexpected: {:?}", other),
    }
}

#[test]
fn scenario_own_port_refused_is_initializing() {
    // Three consecutive connection-refused attempts leave a RequestFailed
    // error; the target owns the port, so this is Initializing, never
    // PortOccupied.
    let e = ApiError::RequestFailed("connection refused".to_string());
    let owner = Some(PortOwner { process_id: 4276, process_name: "BitBrowser.exe".to_string() });
    let status = diagnose_disconnect(&e, true, &owner, 54345);
    match status {
        ConnectionStatus::Disconnected { reason, .. } => {
            assert!(matches!(reason, DisconnectReason::Initializing))
        },
        _ => panic!("expected disconnected"),
    }
}

#[test]
fn own_port_gateway_errors_are_initializing() {
    for code in [502u16, 503, 504] {
        let e = ApiError::HttpError(code);
        let owner = Some(
            PortOwner { process_id: 4276, process_name: "比特浏览器.exe".to_string() },
        );
        let status = diagnose_disconnect(&e, true, &owner, 54345);
        match status {
            ConnectionStatus::Disconnected { reason, .. } => {
                assert!(matches!(reason, DisconnectReason::Initializing))
            },
            _ => panic!("expected disconnected"),
        }
    }
    // Any other status on the own port is an API error, not Initializing.
    let e = ApiError::HttpError(500);
    let owner = Some(PortOwner { process_id: 4276, process_name: "BitBrowser.exe".to_string() });
    let status = diagnose_disconnect(&e, true, &owner, 54345);
    match status {
        ConnectionStatus::Disconnected { reason: DisconnectReason::ApiError { error }, .. } => {
            assert_eq!(error, "http error 500");
        },
        other => panic!("unexpected: {:?}", other),
    }
}

#[test]
fn unowned_port_with_running_target_is_api_error() {
    let e = ApiError::RequestFailed("timed out".to_string());
    let status = diagnose_disconnect(&e, true, &None, 54345);
    match status {
        ConnectionStatus::Disconnected { reason, .. } => {
            assert!(matches!(reason, DisconnectReason::ApiError { .. }))
        },
        _ => panic!("expected disconnected"),
    }
}

#[test]
fn scenario_valid_first_attempt_is_connected() {
    let outcome = AttemptOutcome::Response { status: 200, shape: good_shape() };
    assert!(classify_attempt(&outcome).is_ok());
    let status = status_after_probe(&None, true, &None, DEFAULT_API_PORT);
    assert!(matches!(status, ConnectionStatus::Connected { .. }));
    assert!(matches!(connected_status(), ConnectionStatus::Connected { .. }));
}

#[test]
fn port_detection_needs_a_running_target() {
    let alt = vec![true; 7];
    assert_eq!(select_port(false, true, &alt), None);
}

#[test]
fn port_detection_prefers_the_default_port() {
    let alt = vec![true; 7];
    assert_eq!(select_port(true, true, &alt), Some(DEFAULT_API_PORT));
}

#[test]
fn alternative_fan_out_takes_the_first_winner() {
    // Default fails; only the third alternative validates.
    let mut alt = vec![false; 7];
    alt[2] = true;
    let ports = alternative_ports();
    assert_eq!(ports.len(), 7);
    assert_eq!(select_port(true, false, &alt), Some(ports[2]));
    // Later results cannot change the answer.
    alt[5] = true;
    assert_eq!(select_port(true, false, &alt), Some(ports[2]));
    // Nothing validates: not found.
    assert_eq!(select_port(true, false, &vec![false; 7]), None);
}

#[test]
fn base_url_carries_the_port() {
    assert_eq!(api_base_url(54345), "http://127.0.0.1:54345");
    assert_eq!(api_base_url(80), "http://127.0.0.1:80");
}

#[test]
fn monitor_reports_transitions_and_emits_every_poll() {
    let mut monitor = Monitor::new();
    let up = connected_status();
    let (event, changed) = monitor.observe(&up, 11);
    assert!(event.connected);
    assert_eq!(event.timestamp, 11);
    assert!(event.reason.is_none());
    assert!(changed);

    let (event, changed) = monitor.observe(&up, 21);
    assert!(event.connected);
    assert_eq!(event.timestamp, 21);
    assert!(!changed);

    let down = diagnose_disconnect(&ApiError::HttpError(500), false, &None, 54345);
    let (event, changed) = monitor.observe(&down, 31);
    assert!(!event.connected);
    assert!(changed);
    assert!(matches!(event.reason, Some(DisconnectReason::NotRunning)));
}

#[test]
fn test_get_timestamp() {
    let ts = get_timestamp();
    assert!(ts > 0);
    println!("当前时间戳: {}", ts);
}

#[test]
fn error_descriptions_are_exact() {
    assert_eq!(ApiError::HttpError(502).describe(), "http error 502");
    assert_eq!(
        ApiError::RequestFailed("refused".to_string()).describe(),
        "request failed: refused"
    );
    assert_eq!(
        ApiError::ResponseReadFailed("bad".to_string()).describe(),
        "response read failed: bad"
    );
    assert_eq!(
        ApiError::InvalidResponse("shape".to_string()).describe(),
        "invalid response: shape"
    );
}
