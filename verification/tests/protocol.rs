use central::sidecar::types::{AgentEventPayload, ProtocolError, SidecarCommand, SidecarEvent};
use serde_json::{Number, Value};

fn number(x: f64) -> Number {
    Number::from_f64(x).unwrap()
}

#[test]
fn serialize_start_session_command() {
    let cmd = SidecarCommand::StartSession {
        session_id: "s1".to_string(),
        project_path: "/tmp/project".to_string(),
        prompt: "Write tests".to_string(),
        model: Some("opus-4".to_string()),
        max_budget_usd: Some(number(1.0)),
        resume_session_id: Some("sdk-abc-123".to_string()),
    };

    let json = cmd.to_json().unwrap();
    assert!(json.contains("\"type\":\"start_session\""));
    assert!(json.contains("\"sessionId\":\"s1\""));
    assert!(json.contains("\"projectPath\":\"/tmp/project\""));
    assert!(json.contains("\"prompt\":\"Write tests\""));
    assert!(json.contains("\"model\":\"opus-4\""));
    assert!(json.contains("\"maxBudgetUsd\":1.0"));
    assert!(json.contains("\"resumeSessionId\":\"sdk-abc-123\""));
}

#[test]
fn serialize_start_session_without_model() {
    let cmd = SidecarCommand::StartSession {
        session_id: "s1".to_string(),
        project_path: "/tmp".to_string(),
        prompt: "test".to_string(),
        model: None,
        max_budget_usd: None,
        resume_session_id: None,
    };

    let json = cmd.to_json().unwrap();
    assert!(!json.contains("\"model\""));
    assert!(!json.contains("\"maxBudgetUsd\""));
    assert!(!json.contains("\"resumeSessionId\""));
}

#[test]
fn serialize_send_message_command() {
    let cmd = SidecarCommand::SendMessage {
        session_id: "s1".to_string(),
        message: "Follow up".to_string(),
    };

    let json = cmd.to_json().unwrap();
    assert!(json.contains("\"type\":\"send_message\""));
    assert!(json.contains("\"sessionId\":\"s1\""));
    assert!(json.contains("\"message\":\"Follow up\""));
}

#[test]
fn serialize_abort_session_command() {
    let cmd = SidecarCommand::AbortSession {
        session_id: "s2".to_string(),
    };

    let json = cmd.to_json().unwrap();
    assert!(json.contains("\"type\":\"abort_session\""));
    assert!(json.contains("\"sessionId\":\"s2\""));
}

#[test]
fn serialize_end_session_command() {
    let cmd = SidecarCommand::EndSession {
        session_id: "s1".to_string(),
    };
    let json = cmd.to_json().unwrap();
    assert!(json.contains("\"type\":\"end_session\""));
    assert!(json.contains("\"sessionId\":\"s1\""));
}

#[test]
fn serialize_tool_approval_response() {
    let cmd = SidecarCommand::ToolApprovalResponse {
        request_id: "apr_1".to_string(),
        allowed: true,
        updated_permissions: None,
    };
    let json = cmd.to_json().unwrap();
    assert!(json.contains("\"type\":\"tool_approval_response\""));
    assert!(json.contains("\"requestId\":\"apr_1\""));
    assert!(json.contains("\"allowed\":true"));
}

#[test]
fn deserialize_session_started_event() {
    let json = r#"{"type":"session_started","sessionId":"s1","sdkSessionId":"sdk-abc-123"}"#;
    let event: SidecarEvent = SidecarEvent::from_json(json).unwrap();
    match event {
        SidecarEvent::SessionStarted { session_id, sdk_session_id } => {
            assert_eq!(session_id, "s1");
            assert_eq!(sdk_session_id, "sdk-abc-123");
        }
        _ => panic!("Expected SessionStarted event"),
    }
}

#[test]
fn deserialize_message_event_full() {
    let json = r#"{
            "type":"message",
            "sessionId":"s1",
            "role":"assistant",
            "content":"Hello",
            "thinking":"Let me think...",
            "toolCalls":[{"name":"write"}],
            "usage":{"input_tokens":100}
        }"#;
    let event: SidecarEvent = SidecarEvent::from_json(json).unwrap();
    match event {
        SidecarEvent::Message {
            session_id,
            role,
            content,
            thinking,
            tool_calls,
            usage,
        } => {
            assert_eq!(session_id, "s1");
            assert_eq!(role, "assistant");
            assert_eq!(content, "Hello");
            assert_eq!(thinking.unwrap(), "Let me think...");
            assert!(tool_calls.is_some());
            assert!(usage.is_some());
        }
        _ => panic!("Expected Message event"),
    }
}

#[test]
fn deserialize_message_event_minimal() {
    let json = r#"{
            "type":"message",
            "sessionId":"s1",
            "role":"assistant",
            "content":"Hi"
        }"#;
    let event: SidecarEvent = SidecarEvent::from_json(json).unwrap();
    match event {
        SidecarEvent::Message {
            thinking,
            tool_calls,
            usage,
            ..
        } => {
            assert!(thinking.is_none());
            assert!(tool_calls.is_none());
            assert!(usage.is_none());
        }
        _ => panic!("Expected Message event"),
    }
}

#[test]
fn deserialize_tool_use_event() {
    let json = r#"{
            "type":"tool_use",
            "sessionId":"s1",
            "toolName":"write_file",
            "input":{"path":"test.rs","content":"fn main() {}"}
        }"#;
    let event: SidecarEvent = SidecarEvent::from_json(json).unwrap();
    match event {
        SidecarEvent::ToolUse {
            session_id,
            tool_name,
            input,
        } => {
            assert_eq!(session_id, "s1");
            assert_eq!(tool_name, "write_file");
            assert_eq!(input["path"], "test.rs");
        }
        _ => panic!("Expected ToolUse event"),
    }
}

#[test]
fn deserialize_tool_result_event() {
    let json = r#"{
            "type":"tool_result",
            "sessionId":"s1",
            "toolName":"write_file",
            "output":"File written successfully"
        }"#;
    let event: SidecarEvent = SidecarEvent::from_json(json).unwrap();
    match event {
        SidecarEvent::ToolResult {
            tool_name, output, ..
        } => {
            assert_eq!(tool_name, "write_file");
            assert_eq!(output, "File written successfully");
        }
        _ => panic!("Expected ToolResult event"),
    }
}

#[test]
fn deserialize_session_completed_event() {
    let json = r#"{"type":"session_completed","sessionId":"s1","sdkSessionId":"sdk-abc","totalCostUsd":0.01,"durationMs":1500}"#;
    let event: SidecarEvent = SidecarEvent::from_json(json).unwrap();
    match event {
        SidecarEvent::SessionCompleted { session_id, sdk_session_id, total_cost_usd, duration_ms } => {
            assert_eq!(session_id, "s1");
            assert_eq!(sdk_session_id, "sdk-abc");
            assert_eq!(total_cost_usd.and_then(|n| n.as_f64()), Some(0.01));
            assert_eq!(duration_ms.and_then(|n| n.as_f64()), Some(1500.0));
        }
        _ => panic!("Expected SessionCompleted event"),
    }
}

#[test]
fn deserialize_session_failed_event() {
    let json = r#"{"type":"session_failed","sessionId":"s1","error":"timeout"}"#;
    let event: SidecarEvent = SidecarEvent::from_json(json).unwrap();
    match event {
        SidecarEvent::SessionFailed { session_id, error } => {
            assert_eq!(session_id, "s1");
            assert_eq!(error, "timeout");
        }
        _ => panic!("Expected SessionFailed event"),
    }
}

#[test]
fn deserialize_error_event() {
    let json = r#"{"type":"error","message":"SDK unavailable"}"#;
    let event: SidecarEvent = SidecarEvent::from_json(json).unwrap();
    match event {
        SidecarEvent::Error { message } => {
            assert_eq!(message, "SDK unavailable");
        }
        _ => panic!("Expected Error event"),
    }
}

#[test]
fn serialize_agent_event_payload() {
    let payload = AgentEventPayload {
        event: SidecarEvent::SessionStarted {
            session_id: "s1".to_string(),
            sdk_session_id: "sdk-1".to_string(),
        },
    };
    let json = payload.to_json().unwrap();
    assert!(json.contains("\"event\""));
    assert!(json.contains("\"type\":\"session_started\""));
}

#[test]
fn deserialize_tool_approval_request_event() {
    let json = r#"{
            "type":"tool_approval_request",
            "sessionId":"s1",
            "requestId":"apr_1",
            "toolName":"write_file",
            "input":{"path":"test.rs"}
        }"#;
    let event: SidecarEvent = SidecarEvent::from_json(json).unwrap();
    match event {
        SidecarEvent::ToolApprovalRequest { session_id, request_id, tool_name, .. } => {
            assert_eq!(session_id, "s1");
            assert_eq!(request_id, "apr_1");
            assert_eq!(tool_name, "write_file");
        }
        _ => panic!("Expected ToolApprovalRequest event"),
    }
}

#[test]
fn deserialize_tool_progress_event() {
    let json = r#"{
            "type":"tool_progress",
            "sessionId":"s1",
            "toolName":"bash",
            "elapsedSeconds":5.2
        }"#;
    let event: SidecarEvent = SidecarEvent::from_json(json).unwrap();
    match event {
        SidecarEvent::ToolProgress { session_id, tool_name, elapsed_seconds } => {
            assert_eq!(session_id, "s1");
            assert_eq!(tool_name, "bash");
            assert!((elapsed_seconds.as_f64().unwrap() - 5.2).abs() < 0.01);
        }
        _ => panic!("Expected ToolProgress event"),
    }
}

#[test]
fn roundtrip_message_event_serialization() {
    let event = SidecarEvent::Message {
        session_id: "s1".to_string(),
        role: "assistant".to_string(),
        content: "Hello world".to_string(),
        thinking: Some("Thinking...".to_string()),
        tool_calls: None,
        usage: None,
    };

    let json = event.to_json().unwrap();
    let deserialized: SidecarEvent = SidecarEvent::from_json(&json).unwrap();

    match deserialized {
        SidecarEvent::Message {
            session_id,
            content,
            thinking,
            ..
        } => {
            assert_eq!(session_id, "s1");
            assert_eq!(content, "Hello world");
            assert_eq!(thinking.unwrap(), "Thinking...");
        }
        _ => panic!("Roundtrip failed"),
    }
}

#[test]
fn start_session_without_optionals_has_exactly_four_keys() {
    let cmd = SidecarCommand::StartSession {
        session_id: "s1".to_string(),
        project_path: "/tmp".to_string(),
        prompt: "x".to_string(),
        model: None,
        max_budget_usd: None,
        resume_session_id: None,
    };
    let json = cmd.to_json().unwrap();
    assert_eq!(
        json,
        r#"{"type":"start_session","sessionId":"s1","projectPath":"/tmp","prompt":"x"}"#
    );
    let members = cmd.to_members();
    let keys: Vec<&str> = members.iter().map(|m| m.key.as_str()).collect();
    assert_eq!(keys, vec!["type", "sessionId", "projectPath", "prompt"]);
}

#[test]
fn start_session_writes_present_optionals_in_order() {
    let cmd = SidecarCommand::StartSession {
        session_id: "s1".to_string(),
        project_path: "/p".to_string(),
        prompt: "x".to_string(),
        model: Some("m".to_string()),
        max_budget_usd: Some(number(2.5)),
        resume_session_id: Some("r".to_string()),
    };
    assert_eq!(
        cmd.to_json().unwrap(),
        r#"{"type":"start_session","sessionId":"s1","projectPath":"/p","prompt":"x","model":"m","maxBudgetUsd":2.5,"resumeSessionId":"r"}"#
    );
}

#[test]
fn tool_approval_response_carries_permissions() {
    let permissions: Value = serde_json::from_str(r#"{"allow":["read"]}"#).unwrap();
    let cmd = SidecarCommand::ToolApprovalResponse {
        request_id: "apr_2".to_string(),
        allowed: false,
        updated_permissions: Some(permissions),
    };
    assert_eq!(
        cmd.to_json().unwrap(),
        r#"{"type":"tool_approval_response","requestId":"apr_2","allowed":false,"updatedPermissions":{"allow":["read"]}}"#
    );
}

#[test]
fn session_completed_without_cost_decodes_to_none() {
    let json = r#"{"type":"session_completed","sessionId":"s1","sdkSessionId":"sdk-abc"}"#;
    match SidecarEvent::from_json(json).unwrap() {
        SidecarEvent::SessionCompleted { session_id, total_cost_usd, duration_ms, .. } => {
            assert_eq!(session_id, "s1");
            assert!(total_cost_usd.is_none());
            assert!(duration_ms.is_none());
        }
        _ => panic!("Expected SessionCompleted event"),
    }
}

#[test]
fn null_optional_fields_decode_to_none() {
    let json = r#"{"type":"message","sessionId":"s1","role":"user","content":"c","thinking":null,"toolCalls":null,"usage":null}"#;
    match SidecarEvent::from_json(json).unwrap() {
        SidecarEvent::Message { thinking, tool_calls, usage, .. } => {
            assert!(thinking.is_none());
            assert!(tool_calls.is_none());
            assert!(usage.is_none());
        }
        _ => panic!("Expected Message event"),
    }
}

#[test]
fn unknown_members_are_passed_over() {
    let json = r#"{"extra":1,"type":"error","message":"m","more":[1,2]}"#;
    match SidecarEvent::from_json(json).unwrap() {
        SidecarEvent::Error { message } => assert_eq!(message, "m"),
        _ => panic!("Expected Error event"),
    }
}

#[test]
fn decode_errors_name_what_is_wrong() {
    assert_eq!(SidecarEvent::from_json("not json").unwrap_err(), ProtocolError::InvalidJson);
    assert_eq!(SidecarEvent::from_json("[1,2]").unwrap_err(), ProtocolError::NotAnObject);
    assert_eq!(SidecarEvent::from_json("\"text\"").unwrap_err(), ProtocolError::NotAnObject);
    assert_eq!(
        SidecarEvent::from_json(r#"{"sessionId":"s1"}"#).unwrap_err(),
        ProtocolError::MissingType
    );
    assert_eq!(SidecarEvent::from_json(r#"{"type":7}"#).unwrap_err(), ProtocolError::InvalidType);
    assert_eq!(
        SidecarEvent::from_json(r#"{"type":"start_session"}"#).unwrap_err(),
        ProtocolError::UnknownType
    );
    assert_eq!(
        SidecarEvent::from_json(r#"{"type":"session_failed","sessionId":"s1"}"#).unwrap_err(),
        ProtocolError::MissingField
    );
    assert_eq!(
        SidecarEvent::from_json(r#"{"type":"session_failed","sessionId":5,"error":"e"}"#)
            .unwrap_err(),
        ProtocolError::InvalidField
    );
    assert_eq!(
        SidecarEvent::from_json(r#"{"type":"tool_progress","sessionId":"s","toolName":"t","elapsedSeconds":"5"}"#)
            .unwrap_err(),
        ProtocolError::InvalidField
    );
    assert_eq!(
        SidecarEvent::from_json(r#"{"type":"tool_use","sessionId":"s","toolName":"t"}"#)
            .unwrap_err(),
        ProtocolError::MissingField
    );
}

#[test]
fn first_failing_field_decides_the_error() {
    // sessionId is missing and error is of the wrong kind: the earlier field wins.
    assert_eq!(
        SidecarEvent::from_json(r#"{"type":"session_failed","error":5}"#).unwrap_err(),
        ProtocolError::MissingField
    );
}

#[test]
fn event_survives_writing_and_reading() {
    let input: Value = serde_json::from_str(r#"{"path":"a.rs","n":[1,2,3]}"#).unwrap();
    let event = SidecarEvent::ToolApprovalRequest {
        session_id: "s9".to_string(),
        request_id: "r1".to_string(),
        tool_name: "edit".to_string(),
        input: input.clone(),
        suggestions: None,
    };
    let text = event.to_json().unwrap();
    assert_eq!(
        text,
        r#"{"type":"tool_approval_request","sessionId":"s9","requestId":"r1","toolName":"edit","input":{"path":"a.rs","n":[1,2,3]}}"#
    );
    match SidecarEvent::from_value(event.to_value()).unwrap() {
        SidecarEvent::ToolApprovalRequest { session_id, request_id, tool_name, input: back, suggestions } => {
            assert_eq!(session_id, "s9");
            assert_eq!(request_id, "r1");
            assert_eq!(tool_name, "edit");
            assert_eq!(back, input);
            assert!(suggestions.is_none());
        }
        _ => panic!("Expected ToolApprovalRequest event"),
    }
}

#[test]
fn payload_wraps_the_event() {
    let payload = AgentEventPayload {
        event: SidecarEvent::Error { message: "boom".to_string() },
    };
    assert_eq!(payload.to_json().unwrap(), r#"{"event":{"type":"error","message":"boom"}}"#);
}

#[test]
fn strings_are_escaped_by_the_renderer() {
    let cmd = SidecarCommand::SendMessage {
        session_id: "s1".to_string(),
        message: "say \"hi\"\n".to_string(),
    };
    assert_eq!(
        cmd.to_json().unwrap(),
        r#"{"type":"send_message","sessionId":"s1","message":"say \"hi\"\n"}"#
    );
}

#[test]
fn only_the_global_error_has_no_session() {
    let failed = SidecarEvent::from_json(r#"{"type":"session_failed","sessionId":"s7","error":"e"}"#)
        .unwrap();
    assert_eq!(failed.session_id().map(|s| s.as_str()), Some("s7"));
    let global = SidecarEvent::from_json(r#"{"type":"error","message":"m"}"#).unwrap();
    assert_eq!(global.session_id(), None);
}
