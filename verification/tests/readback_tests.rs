//! Reading stored issues back.

use bead_forge::queries::batch_query;
use bead_forge::readback::{child_time, group_children, issue_from_row, labels_of_concat, split_at_char, StoredIssueRow};

fn row() -> StoredIssueRow {
    StoredIssueRow {
        id: "bf-1".to_string(),
        content_hash: Some("h".to_string()),
        title: "Title".to_string(),
        description: Some("".to_string()),
        design: None,
        acceptance_criteria: None,
        notes: None,
        status: "weird_custom".to_string(),
        priority: 3,
        issue_type: "task".to_string(),
        assignee: Some("alice".to_string()),
        owner: None,
        estimated_minutes: Some(15),
        created_at: Some("2026-05-15T21:10:36+00:00".to_string()),
        created_by: None,
        updated_at: Some("2026-05-15 21:10:37".to_string()),
        closed_at: Some("".to_string()),
        close_reason: None,
        closed_by_session: None,
        due_at: None,
        defer_until: None,
        external_ref: None,
        source_system: None,
        source_repo: Some(".".to_string()),
        deleted_at: None,
        deleted_by: None,
        delete_reason: None,
        original_type: None,
        compaction_level: Some(0),
        compacted_at: None,
        compacted_at_commit: None,
        original_size: None,
        sender: None,
        ephemeral: 0,
        pinned: 2,
        is_template: 0,
        labels: Some("ui,backend".to_string()),
    }
}

#[test]
fn labels_are_split_at_commas() {
    assert_eq!(labels_of_concat(None), Vec::<String>::new());
    assert_eq!(labels_of_concat(Some("a,b")), vec!["a".to_string(), "b".to_string()]);
    assert_eq!(labels_of_concat(Some("a,,b,")), vec!["a", "", "b", ""]);
    assert_eq!(split_at_char("", ','), vec![String::new()]);
}

#[test]
fn a_row_reads_back_as_stored() {
    let r = issue_from_row(&row()).unwrap();
    let i = &r.record;
    assert_eq!(i.id, "bf-1");
    assert_eq!(i.status, "weird_custom");
    assert_eq!(i.priority, 3);
    assert_eq!(i.description, Some(String::new()));
    assert_eq!(i.assignee.as_deref(), Some("alice"));
    assert_eq!(i.created_at, "2026-05-15T21:10:36+00:00");
    assert!(!i.ephemeral);
    assert!(i.pinned);
    assert_eq!(i.labels, vec!["ui".to_string(), "backend".to_string()]);
    assert_eq!(r.created, (1778879436, 0));
    assert_eq!(r.updated, (1778879437, 0));
    assert_eq!(r.closed, None);
    assert!(i.dependencies.is_empty() && i.events.is_empty());
}

#[test]
fn a_missing_required_date_reads_as_the_epoch() {
    let mut s = row();
    s.created_at = None;
    s.updated_at = Some("   ".to_string());
    let r = issue_from_row(&s).unwrap();
    assert_eq!(r.created, (0, 0));
    assert_eq!(r.updated, (0, 0));
    assert_eq!(r.record.created_at, "");
}

#[test]
fn a_malformed_date_is_refused() {
    let mut s = row();
    s.due_at = Some("not a date".to_string());
    assert!(issue_from_row(&s).is_err());
    let mut s = row();
    s.created_at = Some("yesterday".to_string());
    assert!(issue_from_row(&s).is_err());
    assert!(child_time(&Some("nope".to_string())).is_err());
    assert_eq!(child_time(&None).unwrap(), "");
    assert_eq!(child_time(&Some("2026-05-15 21:10:36".to_string())).unwrap(), "2026-05-15 21:10:36");
}

#[test]
fn children_are_grouped_by_issue_in_order() {
    let ids = vec!["a".to_string(), "b".to_string(), "a".to_string()];
    let rows = vec![
        ("b".to_string(), 1),
        ("a".to_string(), 2),
        ("z".to_string(), 3),
        ("a".to_string(), 4),
    ];
    assert_eq!(group_children(&ids, rows), vec![vec![2, 4], vec![1], vec![]]);
}

#[test]
fn batch_queries_number_their_placeholders() {
    assert_eq!(batch_query("SELECT x WHERE id IN (", 3), "SELECT x WHERE id IN (?1,?2,?3)");
    assert_eq!(batch_query("IN (", 1), "IN (?1)");
}
