use oar_core::error::PostgresRepositoryError;
use oar_core::review_inbox::{
    review_inbox_page_reads_items, review_inbox_snapshot_of_items,
    stored_review_inbox_evidence_from_rows, stored_review_inbox_items_from_rows,
    stored_review_inbox_ledger_events_from_rows, ReviewInboxEvidenceRow,
};
use oar_core::domain::{ActionStatus, EvidenceSourceKind, ReviewInboxItemStatus, StoredReviewInboxLedgerStage};
use oar_core::rows::{
    audit_events_from_rows, pending_confirmed_actions_from_rows, token_refresh_snapshots_from_rows,
    EvidenceItemRow, ReviewInboxItemRow, ReviewInboxLedgerEventRow, TokenRefreshSnapshotRow,
};

fn item_row(id: &str, status: &str, cursor: i64) -> ReviewInboxItemRow {
    ReviewInboxItemRow {
        id: id.to_string(),
        tenant_id: "tenant_1".to_string(),
        user_id: "user_1".to_string(),
        proposed_action_id: "pa_1".to_string(),
        proposed_action_version: 1,
        risk_score: 30,
        priority: 2,
        status: status.to_string(),
        sort_key: 7,
        sync_cursor_value: cursor,
        updated_at_ms: 100,
        ledger_status: Some("executing".to_string()),
        operation_id: Some("op_1".to_string()),
    }
}

#[test]
fn inbox_page_decodes_every_row_or_fails() {
    let items = stored_review_inbox_items_from_rows(vec![
        item_row("inbox_1", "open", 3),
        item_row("inbox_2", "executing", 4),
    ])
    .expect("items");
    assert_eq!(items.len(), 2);
    assert_eq!(items[0].status, ReviewInboxItemStatus::Open);
    assert_eq!(items[1].sync_cursor_value, 4);
    assert_eq!(items[1].ledger_status, Some(ActionStatus::Executing));
    assert!(matches!(
        stored_review_inbox_items_from_rows(vec![
            item_row("inbox_1", "open", 3),
            item_row("inbox_2", "archived", 4),
            item_row("inbox_3", "open", -1),
        ]),
        Err(PostgresRepositoryError::UnknownReviewInboxItemStatus(raw)) if raw == "archived"
    ));
    assert!(stored_review_inbox_items_from_rows(Vec::new()).expect("empty").is_empty());
}

#[test]
fn empty_page_needs_no_detail_rows() {
    assert!(!review_inbox_page_reads_items(0));
    assert!(review_inbox_page_reads_items(1));
    let snapshot = review_inbox_snapshot_of_items(Vec::new());
    assert!(snapshot.items.is_empty());
    assert!(snapshot.actions.is_empty());
    assert!(snapshot.evidence.is_empty());
    assert!(snapshot.ledger_events.is_empty());
}

#[test]
fn evidence_and_timeline_rows_decode_in_order() {
    let evidence = stored_review_inbox_evidence_from_rows(vec![ReviewInboxEvidenceRow {
        review_item_id: "inbox_1".to_string(),
        evidence: EvidenceItemRow {
            id: "ev_1".to_string(),
            tenant_id: "tenant_1".to_string(),
            summary: "weekly progress".to_string(),
            source_kind: "lark_task".to_string(),
            source_id: "task_1".to_string(),
            locator: "lark://task/1".to_string(),
            content_hash: "hash".to_string(),
            visibility_scope: "team".to_string(),
            observed_at_ms: 1,
            recorded_at_ms: 2,
        },
    }])
    .expect("evidence");
    assert_eq!(evidence[0].review_item_id, "inbox_1");
    assert_eq!(evidence[0].item.source_kind, EvidenceSourceKind::LarkTask);
    let events = stored_review_inbox_ledger_events_from_rows(vec![ReviewInboxLedgerEventRow {
        id: "le_1".to_string(),
        action_id: "ca_1".to_string(),
        stage: "audit_event".to_string(),
        stage_status: "ok".to_string(),
        timestamp_ms: 50,
        message: None,
        idempotency_key: Some("idem_1".to_string()),
    }])
    .expect("events");
    assert_eq!(events[0].stage, StoredReviewInboxLedgerStage::AuditEvent);
    assert!(matches!(
        stored_review_inbox_ledger_events_from_rows(vec![ReviewInboxLedgerEventRow {
            id: "le_1".to_string(),
            action_id: "ca_1".to_string(),
            stage: "audit_event".to_string(),
            stage_status: "ok".to_string(),
            timestamp_ms: -50,
            message: None,
            idempotency_key: None,
        }]),
        Err(PostgresRepositoryError::NegativeInteger { field: "timestamp_ms", value: -50 })
    ));
}

#[test]
fn other_row_pages_decode_in_order() {
    assert!(audit_events_from_rows(Vec::new()).expect("events").is_empty());
    assert!(pending_confirmed_actions_from_rows(Vec::new()).expect("queue").is_empty());
    let snapshots = token_refresh_snapshots_from_rows(vec![TokenRefreshSnapshotRow {
        id: "grant_1".to_string(),
        tenant_id: "tenant_1".to_string(),
        oauth_grant_fingerprint: "fp".to_string(),
        state: "needs_refresh".to_string(),
        has_refresh_material: true,
        revoked_at_ms: None,
        reauth_required_at_ms: Some(4),
    }])
    .expect("snapshots");
    assert_eq!(snapshots[0].reauth_required_at_ms, Some(4));
    assert_eq!(snapshots[0].expected_fingerprint, "fp");
}
