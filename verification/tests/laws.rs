use oar_core::codec::{audit_event_type_from_db, audit_event_type_to_db};
use oar_core::domain::AuditEventType;
use oar_core::redaction::sanitize_refresh_error_for_storage;

#[test]
fn sanitized_refresh_errors_are_short_single_line_and_trimmed() {
    for input in [
        "\u{7}\u{1b}[31mboom\u{1b}[0m",
        "\t\n  leading space",
        "line one\r\nline two",
        &"y".repeat(1_000),
        "",
    ] {
        let out = sanitize_refresh_error_for_storage(input);
        assert!(out.chars().count() <= 256);
        assert!(!out.chars().any(|c| c.is_control()));
        assert!(!out.starts_with(char::is_whitespace));
    }
    assert_eq!(sanitize_refresh_error_for_storage("line one\r\nline two"), "line one  line two");
}

#[test]
fn every_audit_event_type_survives_storage() {
    for event_type in [
        AuditEventType::ProposedActionDecisionRecorded,
        AuditEventType::ConfirmedActionRecorded,
        AuditEventType::DryRunExecuted,
        AuditEventType::ExecutionDenied,
        AuditEventType::ExecutionSucceeded,
        AuditEventType::ExecutionFailed,
    ] {
        let stored = audit_event_type_to_db(&event_type);
        assert_eq!(audit_event_type_from_db(stored).expect("decodes"), event_type);
    }
}
