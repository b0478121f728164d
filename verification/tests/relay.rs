use central::sidecar::relay::{
    is_blank, read_worker_output, relay_line, relay_read, LineRead, RelayAction, RelayStep,
};
use central::sidecar::types::{ProtocolError, SidecarEvent};
use central::text::is_white_space;

fn line(text: &str) -> LineRead {
    LineRead::Line(text.to_string())
}

const MESSAGE: &str = r#"{"type":"message","sessionId":"s1","role":"assistant","content":"Hello"}"#;
const FAILED: &str = r#"{"type":"session_failed","sessionId":"s1","error":"timeout"}"#;

#[test]
fn malformed_line_between_two_events_is_passed_over() {
    let reads = vec![line(MESSAGE), line("{\"type\":\"message\",\"sessionId\""), line(FAILED)];
    let payloads = read_worker_output(&reads);
    assert_eq!(payloads.len(), 2);
    match &payloads[0].event {
        SidecarEvent::Message { session_id, content, .. } => {
            assert_eq!(session_id, "s1");
            assert_eq!(content, "Hello");
        }
        _ => panic!("Expected Message event"),
    }
    match &payloads[1].event {
        SidecarEvent::SessionFailed { session_id, error } => {
            assert_eq!(session_id, "s1");
            assert_eq!(error, "timeout");
        }
        _ => panic!("Expected SessionFailed event"),
    }
}

#[test]
fn blank_lines_are_skipped() {
    assert!(matches!(relay_line(""), RelayStep::Skip));
    assert!(matches!(relay_line("   \t"), RelayStep::Skip));
    assert!(matches!(relay_line("\u{2003}\u{a0}"), RelayStep::Skip));
    let reads = vec![line(""), line(MESSAGE), line("  "), line(FAILED), line("")];
    assert_eq!(read_worker_output(&reads).len(), 2);
}

#[test]
fn line_is_decoded_without_the_space_around_it() {
    // serde_json does not take these two characters for white space; trimming does.
    let padded = format!("\u{2003}{}\u{a0}", FAILED);
    match relay_line(&padded) {
        RelayStep::Forward(payload) => match payload.event {
            SidecarEvent::SessionFailed { error, .. } => assert_eq!(error, "timeout"),
            _ => panic!("Expected SessionFailed event"),
        },
        _ => panic!("Expected a forwarded event"),
    }
}

#[test]
fn malformed_line_is_noted_with_its_error() {
    assert!(matches!(relay_line("oops"), RelayStep::Malformed(ProtocolError::InvalidJson)));
    assert!(matches!(relay_line("[]"), RelayStep::Malformed(ProtocolError::NotAnObject)));
    assert!(matches!(
        relay_line(r#"{"type":"nonsense"}"#),
        RelayStep::Malformed(ProtocolError::UnknownType)
    ));
}

#[test]
fn relay_stops_at_the_end_of_the_stream() {
    let reads = vec![line(MESSAGE), LineRead::End, line(FAILED)];
    assert_eq!(read_worker_output(&reads).len(), 1);
    let reads = vec![line(MESSAGE), LineRead::Failed("reset".to_string()), line(FAILED)];
    assert_eq!(read_worker_output(&reads).len(), 1);
    assert!(read_worker_output(&vec![LineRead::End, line(MESSAGE)]).is_empty());
    assert!(read_worker_output(&Vec::new()).is_empty());
}

#[test]
fn global_error_event_is_forwarded() {
    let reads = vec![line(r#"{"type":"error","message":"SDK unavailable"}"#)];
    let payloads = read_worker_output(&reads);
    assert_eq!(payloads.len(), 1);
    assert_eq!(
        payloads[0].to_json().unwrap(),
        r#"{"event":{"type":"error","message":"SDK unavailable"}}"#
    );
}

#[test]
fn blank_means_white_space_only() {
    assert!(is_blank(""));
    assert!(is_blank(" \t\r\n"));
    assert!(is_blank("\u{3000}"));
    assert!(!is_blank(" x "));
    assert!(!is_blank("\u{200b}"));
}

#[test]
fn relay_reads_on_after_a_line_and_stops_otherwise() {
    assert!(matches!(relay_read(&line("")), RelayAction::Continue(RelayStep::Skip)));
    assert!(matches!(
        relay_read(&line("garbage")),
        RelayAction::Continue(RelayStep::Malformed(ProtocolError::InvalidJson))
    ));
    assert!(matches!(relay_read(&line(FAILED)), RelayAction::Continue(RelayStep::Forward(_))));
    assert!(matches!(relay_read(&LineRead::End), RelayAction::Stop));
    assert!(matches!(relay_read(&LineRead::Failed("io".to_string())), RelayAction::Stop));
}

#[test]
fn white_space_is_what_the_standard_library_takes_for_it() {
    for code in 0..=0x10ffffu32 {
        if let Some(c) = char::from_u32(code) {
            assert_eq!(is_white_space(c), c.is_whitespace(), "U+{code:04X}");
        }
    }
}

#[test]
fn blank_agrees_with_trimming_by_the_standard_library() {
    let samples = [
        "", " ", "a", " a", "a ", "\u{85}a\u{85}", "\u{1680}\u{2000}\u{200a}", "\u{200b}",
        "\u{2028}\u{2029}\u{202f}\u{205f}\u{3000}", "\u{feff}", "\u{b}\u{c}\u{1c}",
    ];
    for s in samples {
        assert_eq!(is_blank(s), s.trim().is_empty(), "{s:?}");
    }
}
