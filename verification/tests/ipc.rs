use karma::ipc::{
    complete_disposition, is_shutdown_request, shutdown_authorized, DispositionOutcome,
    DispositionReport, ResponseEnvelope, ServiceErrorCode, ServiceFailure, ServiceResult,
    decode_frame, encode_frame, AgentContextObservation, AgentHeartbeat, ClientKind,
    ProcessIdentity, ProtocolError, RequestEnvelope, ServiceRequest, MAX_FRAME_BYTES,
    PROTOCOL_VERSION,
};

fn request(body: ServiceRequest, client: ClientKind) -> RequestEnvelope {
    RequestEnvelope::new("request-1".into(), "nonce-1".into(), client, body)
}

#[test]
fn frame_round_trip_preserves_request_and_version() {
    let original = request(ServiceRequest::GetBootstrap, ClientKind::Ui);
    assert_eq!(original.protocol_version, PROTOCOL_VERSION);
    assert!(original.validate().is_ok());
    let body = br#"{"protocol_version":1}"#;
    let framed = encode_frame(body).unwrap();
    assert_eq!(&framed[..4], &(body.len() as u32).to_le_bytes());
    assert_eq!(decode_frame(&framed).unwrap(), body.to_vec());
}

#[test]
fn framing_rejects_truncation_and_oversized_prefix() {
    assert!(matches!(decode_frame(&[]), Err(ProtocolError::TruncatedFrame)));
    let oversized = ((MAX_FRAME_BYTES + 1) as u32).to_le_bytes();
    assert!(matches!(decode_frame(&oversized), Err(ProtocolError::FrameTooLarge)));
}

#[test]
fn client_roles_cannot_cross_privilege_boundaries() {
    let ui_heartbeat = request(
        ServiceRequest::AgentHeartbeat {
            agent_token: "agent-token".into(),
            heartbeat: AgentHeartbeat {
                agent_instance_id: "agent-1".into(),
                user_sid: "S-1-5-21-test".into(),
                process_id: 10,
                sent_at_ms: 1,
                monitors: vec![],
            },
        },
        ClientKind::Ui,
    );
    assert_eq!(ui_heartbeat.validate(), Err(ProtocolError::ClientRoleDenied));
}

#[test]
fn change_password_is_ui_only_and_requires_both_secrets() {
    let change = |client| {
        request(
            ServiceRequest::ChangePassword {
                session_token: "session-1".into(),
                current_password: "current-secret".into(),
                new_password: "replacement-secret".into(),
            },
            client,
        )
    };
    assert!(change(ClientKind::Ui).validate().is_ok());
    assert_eq!(change(ClientKind::Agent).validate(), Err(ProtocolError::ClientRoleDenied));
    let empty_new = request(
        ServiceRequest::ChangePassword {
            session_token: "session-1".into(),
            current_password: "current-secret".into(),
            new_password: String::new(),
        },
        ClientKind::Ui,
    );
    assert_eq!(empty_new.validate(), Err(ProtocolError::InvalidField));
    let stale_session = request(
        ServiceRequest::ChangePassword {
            session_token: "bad session".into(),
            current_password: "current-secret".into(),
            new_password: "replacement-secret".into(),
        },
        ClientKind::Ui,
    );
    assert_eq!(stale_session.validate(), Err(ProtocolError::InvalidField));
}

#[test]
fn invalid_opaque_values_and_large_policies_are_rejected() {
    let invalid = RequestEnvelope::new(
        "../request".into(),
        "nonce".into(),
        ClientKind::Ui,
        ServiceRequest::GetBootstrap,
    );
    assert_eq!(invalid.validate(), Err(ProtocolError::InvalidField));
    let policy = format!("\"{}\"", "x".repeat(MAX_FRAME_BYTES));
    let large = request(
        ServiceRequest::PutPolicy {
            session_token: "session-1".into(),
            expected_revision: 0,
            policy,
        },
        ClientKind::Ui,
    );
    assert_eq!(large.validate(), Err(ProtocolError::FrameTooLarge));
}

#[test]
fn context_observation_accepts_host_only_but_rejects_empty_context() {
    let observation = |browser_host| AgentContextObservation {
        event_id: "event-1".into(),
        agent_instance_id: "agent-1".into(),
        occurred_at_ms: 1,
        source: ProcessIdentity {
            process_id: 42,
            started_at_ms: 1,
            executable_name: "chrome.exe".into(),
            executable_sha256: None,
        },
        window_title: String::new(),
        browser_host,
    };
    let request_for = |browser_host| {
        request(
            ServiceRequest::AgentContextObservation {
                agent_token: "agent-token".into(),
                observation: observation(browser_host),
            },
            ClientKind::Agent,
        )
    };

    assert!(request_for(Some("blocked.example".into())).validate().is_ok());
    assert_eq!(request_for(None).validate(), Err(ProtocolError::InvalidField));
}

#[test]
fn shutdown_needs_a_shutdown_request_and_a_successful_answer() {
    let shutdown = ServiceRequest::RequestShutdown { password: "secret".into() };
    assert!(is_shutdown_request(&shutdown));
    assert!(!is_shutdown_request(&ServiceRequest::GetBootstrap));
    let ok = ResponseEnvelope::success("r".into(), ServiceResult::Acknowledged);
    let refused = ResponseEnvelope::failure("r".into(), ServiceFailure::new(ServiceErrorCode::Internal));
    assert!(shutdown_authorized(true, &ok));
    assert!(!shutdown_authorized(true, &refused));
    assert!(!shutdown_authorized(false, &ok));
}

#[test]
fn a_recorded_disposition_completes_the_answer() {
    let report = DispositionReport {
        event_id: "event-1".into(),
        process_id: 42,
        started_at_ms: 1,
        outcome: DispositionOutcome::Terminated,
    };
    let required = || ResponseEnvelope::success("r-1".into(), ServiceResult::Acknowledged);
    let completed = complete_disposition(required(), report.clone(), true);
    assert_eq!(completed.request_id, "r-1");
    assert!(matches!(
        completed.result,
        Ok(ServiceResult::DispositionCompleted { report: ref r }) if *r == report
    ));
    let failed = complete_disposition(required(), report, false);
    assert_eq!(failed.request_id, "r-1");
    assert_eq!(failed.result.unwrap_err().code, ServiceErrorCode::Internal);
}
