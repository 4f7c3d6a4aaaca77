//! What a change set does to a stored issue.

use bead_forge::changes::{
    check_reopen, checked_update_plan, reopen_plan, REOPEN_SQL, close_plan, secret_scan_texts, simple_update_statement,
    update_issue_plan, EventRecord, IssueChanges, MissingBead, ReopenRefusal, SqlValue, CLOSE_SQL,
};

const NOW: &str = "2026-05-15T21:10:36+00:00";

fn text(s: &str) -> SqlValue {
    SqlValue::Text(s.to_string())
}

fn event(kind: &str, actor: &str, old: Option<&str>, new: Option<&str>) -> EventRecord {
    EventRecord {
        event_type: kind.to_string(),
        actor: actor.to_string(),
        old_value: old.map(|s| s.to_string()),
        new_value: new.map(|s| s.to_string()),
    }
}

#[test]
fn no_changes_touch_nothing() {
    let plan = update_issue_plan(&IssueChanges::default(), "bf-1", Some("open"), None, NOW);
    assert!(plan.update.is_none());
    assert!(plan.events.is_empty());
    assert!(!plan.mark_dirty);
    assert!(!plan.status_changed);
}

#[test]
fn labels_alone_mark_the_issue_dirty() {
    let mut c = IssueChanges::default();
    c.labels = Some(vec!["x".to_string()]);
    let plan = update_issue_plan(&c, "bf-1", Some("open"), None, NOW);
    assert!(plan.update.is_none());
    assert!(plan.mark_dirty);
    let mut c = IssueChanges::default();
    c.annotations = Some(vec![]);
    assert!(update_issue_plan(&c, "bf-1", Some("open"), None, NOW).mark_dirty);
}

#[test]
fn given_fields_are_assigned_in_column_order() {
    let mut c = IssueChanges::default();
    c.title = Some("New".to_string());
    c.priority = Some(1);
    c.estimated_minutes = Some(30);
    c.owner = Some("o".to_string());
    let plan = update_issue_plan(&c, "bf-1", Some("open"), None, NOW);
    let (sql, params) = plan.update.unwrap();
    assert_eq!(
        sql,
        "UPDATE issues SET title = ?, priority = ?, owner = ?, estimated_minutes = ?, updated_at = ? WHERE id = ?"
    );
    assert_eq!(
        params,
        vec![text("New"), SqlValue::Integer(1), text("o"), SqlValue::Integer(30), text(NOW), text("bf-1")]
    );
    assert!(plan.events.is_empty());
    assert!(plan.mark_dirty);
    assert!(!plan.status_changed);
}

#[test]
fn every_field_in_column_order() {
    let c = IssueChanges {
        title: Some("t".to_string()),
        description: Some("d".to_string()),
        design: Some("g".to_string()),
        acceptance_criteria: Some("a".to_string()),
        notes: Some("n".to_string()),
        status: Some("in_progress".to_string()),
        priority: Some(2),
        issue_type: Some("bug".to_string()),
        assignee: Some("al".to_string()),
        owner: Some("ow".to_string()),
        estimated_minutes: Some(5),
        due_at: Some("D".to_string()),
        defer_until: Some("U".to_string()),
        external_ref: Some("X".to_string()),
        labels: None,
        annotations: None,
        actor: None,
    };
    let (sql, params) = update_issue_plan(&c, "bf-9", Some("open"), Some("al"), NOW).update.unwrap();
    assert_eq!(sql, "UPDATE issues SET title = ?, description = ?, design = ?, acceptance_criteria = ?, notes = ?, status = ?, priority = ?, issue_type = ?, assignee = ?, owner = ?, estimated_minutes = ?, due_at = ?, defer_until = ?, external_ref = ?, updated_at = ? WHERE id = ?");
    assert_eq!(params.len(), 16);
    assert_eq!(params[5], text("in_progress"));
    assert_eq!(params[15], text("bf-9"));
}

#[test]
fn closing_fills_the_close_fields() {
    let mut c = IssueChanges::default();
    c.status = Some("closed".to_string());
    let plan = update_issue_plan(&c, "bf-1", Some("open"), None, NOW);
    let (sql, params) = plan.update.unwrap();
    assert_eq!(sql, "UPDATE issues SET status = ?, closed_at = ?, close_reason = ?, closed_by_session = ?, updated_at = ? WHERE id = ?");
    assert_eq!(params, vec![text("closed"), text(NOW), text(""), text("cli"), text(NOW), text("bf-1")]);
    assert_eq!(plan.events, vec![event("status_changed", "system", Some("open"), Some("closed"))]);
    assert!(plan.status_changed);

    c.actor = Some("worker-7".to_string());
    let (_, params) = update_issue_plan(&c, "bf-1", Some("open"), None, NOW).update.unwrap();
    assert_eq!(params[3], text("worker-7"));
}

#[test]
fn closing_a_closed_issue_keeps_its_close_fields() {
    let mut c = IssueChanges::default();
    c.status = Some("closed".to_string());
    let (sql, _) = update_issue_plan(&c, "bf-1", Some("closed"), None, NOW).update.unwrap();
    assert_eq!(sql, "UPDATE issues SET status = ?, updated_at = ? WHERE id = ?");
    let (sql, _) = update_issue_plan(&c, "bf-1", Some("tombstone"), None, NOW).update.unwrap();
    assert_eq!(sql, "UPDATE issues SET status = ?, closed_at = ?, close_reason = ?, closed_by_session = ?, updated_at = ? WHERE id = ?");
}

#[test]
fn leaving_closed_clears_the_close_fields_and_records_a_reopen() {
    let mut c = IssueChanges::default();
    c.status = Some("open".to_string());
    let plan = update_issue_plan(&c, "bf-1", Some("closed"), None, NOW);
    let (sql, params) = plan.update.unwrap();
    assert_eq!(sql, "UPDATE issues SET status = ?, closed_at = NULL, close_reason = NULL, closed_by_session = NULL, updated_at = ? WHERE id = ?");
    assert_eq!(params, vec![text("open"), text(NOW), text("bf-1")]);
    assert_eq!(plan.events, vec![event("reopened", "system", Some("closed"), Some("open"))]);
}

#[test]
fn leaving_done_reopens_without_clearing() {
    let mut c = IssueChanges::default();
    c.status = Some("open".to_string());
    c.actor = Some("me".to_string());
    let plan = update_issue_plan(&c, "bf-1", Some("done"), None, NOW);
    assert_eq!(plan.update.unwrap().0, "UPDATE issues SET status = ?, updated_at = ? WHERE id = ?");
    assert_eq!(plan.events, vec![event("reopened", "me", Some("done"), Some("open"))]);
    let plan = update_issue_plan(&c, "bf-1", Some("closed"), None, NOW);
    assert_eq!(plan.events, vec![event("reopened", "me", Some("closed"), Some("open"))]);
    c.status = Some("completed".to_string());
    assert_eq!(
        update_issue_plan(&c, "bf-1", Some("closed"), None, NOW).events,
        vec![event("status_changed", "me", Some("closed"), Some("completed"))]
    );
    c.status = Some("closed".to_string());
    assert!(update_issue_plan(&c, "bf-1", Some("closed"), None, NOW).events.is_empty());
}

#[test]
fn a_blank_assignee_is_stored_as_null() {
    for blank in ["", "   ", "\t", " \n "] {
        let mut c = IssueChanges::default();
        c.assignee = Some(blank.to_string());
        let plan = update_issue_plan(&c, "bf-1", Some("open"), Some("alice"), NOW);
        let (sql, params) = plan.update.unwrap();
        assert_eq!(sql, "UPDATE issues SET assignee = NULL, updated_at = ? WHERE id = ?");
        assert_eq!(params, vec![text(NOW), text("bf-1")]);
        assert_eq!(plan.events, vec![event("assignee_changed", "cli", Some("alice"), None)]);
    }
}

#[test]
fn clearing_an_unset_assignee_records_no_event() {
    let mut c = IssueChanges::default();
    c.assignee = Some(" ".to_string());
    let plan = update_issue_plan(&c, "bf-1", Some("open"), None, NOW);
    assert!(plan.events.is_empty());
    assert!(plan.mark_dirty);
}

#[test]
fn assignee_changes_are_recorded_as_events() {
    let mut c = IssueChanges::default();
    c.assignee = Some("bob".to_string());
    c.actor = Some("ops".to_string());
    let plan = update_issue_plan(&c, "bf-1", Some("open"), Some("alice"), NOW);
    assert_eq!(plan.events, vec![event("assignee_changed", "ops", Some("alice"), Some("bob"))]);
    let plan = update_issue_plan(&c, "bf-1", Some("open"), Some("bob"), NOW);
    assert!(plan.events.is_empty());
    let plan = update_issue_plan(&c, "bf-1", Some("open"), None, NOW);
    assert_eq!(plan.events, vec![event("assignee_changed", "ops", None, Some("bob"))]);
}

#[test]
fn secret_scan_covers_text_fields_labels_and_annotations() {
    let mut c = IssueChanges::default();
    c.title = Some("T".to_string());
    c.notes = Some("N".to_string());
    c.external_ref = Some("X".to_string());
    c.priority = Some(1);
    c.labels = Some(vec!["l1".to_string(), "l2".to_string()]);
    c.annotations = Some(vec![("k1".to_string(), "v1".to_string()), ("k2".to_string(), "v2".to_string())]);
    assert_eq!(secret_scan_texts(&c), vec!["T", "N", "X", "l1", "l2", "k1", "v1", "k2", "v2"]);
    assert!(secret_scan_texts(&IssueChanges::default()).is_empty());
}

#[test]
fn simple_update_statement_sets_given_fields() {
    assert_eq!(simple_update_statement(&None, &None, None, "bf-1", NOW), None);
    let (sql, params) = simple_update_statement(&Some("T".to_string()), &None, Some(3), "bf-1", NOW).unwrap();
    assert_eq!(sql, "UPDATE issues SET title = ?, priority = ?, updated_at = ? WHERE id = ?");
    assert_eq!(params, vec![text("T"), SqlValue::Integer(3), text(NOW), text("bf-1")]);
    let (sql, _) = simple_update_statement(&None, &Some("open".to_string()), None, "bf-1", NOW).unwrap();
    assert_eq!(sql, "UPDATE issues SET status = ?, updated_at = ? WHERE id = ?");
}

#[test]
fn only_closed_beads_reopen() {
    assert_eq!(check_reopen("bf-1", None), Err(ReopenRefusal::NotFound));
    assert_eq!(check_reopen("bf-1", Some("closed")), Ok(()));
    assert_eq!(
        check_reopen("bf-1", Some("open")),
        Err(ReopenRefusal::NotClosed("Cannot reopen bead bf-1: status is 'open', must be 'closed'".to_string()))
    );
}

fn close_check(status: &str, closed_at_set: bool) -> bool {
    (status == "closed" && closed_at_set)
        || status == "tombstone"
        || (status != "closed" && status != "tombstone" && !closed_at_set)
}

#[test]
fn status_changes_keep_the_close_check() {
    let statuses = ["open", "in_progress", "blocked", "closed", "tombstone", "done"];
    for current in statuses {
        for before in [false, true] {
            if !close_check(current, before) {
                continue;
            }
            for new in statuses {
                let mut c = IssueChanges::default();
                c.status = Some(new.to_string());
                let (sql, _) = update_issue_plan(&c, "bf-1", Some(current), None, NOW).update.unwrap();
                let after = if sql.contains("closed_at = NULL") {
                    false
                } else if sql.contains("closed_at = ?") {
                    true
                } else {
                    before
                };
                assert!(close_check(new, after), "{} -> {} ({})", current, new, before);
            }
        }
    }
}

#[test]
fn test_update_status_creates_event() {
    let mut changes = IssueChanges::default();
    changes.status = Some("in_progress".to_string());
    changes.actor = Some("test-actor".to_string());
    let plan = update_issue_plan(&changes, "bf-status-event", Some("open"), None, NOW);
    assert_eq!(plan.events.len(), 1);
    assert_eq!(plan.events, vec![event("status_changed", "test-actor", Some("open"), Some("in_progress"))]);
    let same = update_issue_plan(&changes, "bf-status-event", Some("in_progress"), None, NOW);
    assert!(same.events.is_empty());
}

#[test]
fn test_clear_assignee_on_nonexistent_bead() {
    let changes = IssueChanges {
        assignee: Some(String::new()),
        actor: Some("test-actor".to_string()),
        ..Default::default()
    };
    let result = checked_update_plan(&changes, "bf-does-not-exist", false, None, None, NOW);
    assert!(result.is_err());
    assert_eq!(result.unwrap_err(), MissingBead);
    let ok = checked_update_plan(&changes, "bf-exists", true, Some("open"), Some("alice"), NOW).unwrap();
    assert_eq!(ok.update.unwrap().0, "UPDATE issues SET assignee = NULL, updated_at = ? WHERE id = ?");
}

#[test]
fn closing_writes_status_assignee_close_fields_and_event() {
    assert_eq!(close_plan("bf-1", None, "done", "me", NOW).unwrap_err(), MissingBead);
    assert!(close_plan("bf-1", Some("closed"), "done", "me", NOW).unwrap().is_none());
    let p = close_plan("bf-1", Some("open"), "fixed", "me", NOW).unwrap().unwrap();
    assert_eq!(p.sql, CLOSE_SQL);
    assert_eq!(p.values, vec![text(NOW), text("fixed"), text("me"), text(NOW), text("bf-1")]);
    assert_eq!(p.event, event("closed", "me", None, Some("fixed")));
}

#[test]
fn reopening_a_closed_bead_clears_the_close_and_records_it() {
    let p = reopen_plan("bf-1", Some("closed"), "NOW").unwrap();
    assert_eq!(p.sql, REOPEN_SQL);
    assert_eq!(p.values, vec![SqlValue::Text("NOW".to_string()), SqlValue::Text("bf-1".to_string())]);
    assert_eq!(p.event.event_type, "reopened");
    assert_eq!(p.event.actor, "system");
    assert_eq!(p.event.old_value.as_deref(), Some("closed"));
    assert_eq!(p.event.new_value.as_deref(), Some("open"));
    assert!(matches!(reopen_plan("bf-1", None, "NOW"), Err(ReopenRefusal::NotFound)));
    assert!(matches!(
        reopen_plan("bf-1", Some("open"), "NOW"),
        Err(ReopenRefusal::NotClosed(m)) if m == "Cannot reopen bead bf-1: status is 'open', must be 'closed'"
    ));
}

#[test]
fn an_update_rewrites_the_labels_and_annotations_given() {
    let c = IssueChanges {
        labels: Some(vec!["a".to_string()]),
        annotations: Some(vec![("k".to_string(), "v".to_string())]),
        ..Default::default()
    };
    let p = update_issue_plan(&c, "bf-1", Some("open"), None, NOW);
    let rows: Vec<(&str, Vec<SqlValue>)> = p.rewrites.iter().map(|(s, v)| (s.as_str(), v.clone())).collect();
    assert_eq!(
        rows,
        vec![
            ("DELETE FROM labels WHERE issue_id = ?1", vec![text("bf-1")]),
            ("INSERT OR IGNORE INTO labels (issue_id, label) VALUES (?1, ?2)", vec![text("bf-1"), text("a")]),
            ("DELETE FROM bead_labels WHERE bead_id = ?1", vec![text("bf-1")]),
            ("INSERT OR IGNORE INTO bead_labels (bead_id, label) VALUES (?1, ?2)", vec![text("bf-1"), text("a")]),
            ("DELETE FROM bead_annotations WHERE bead_id = ?1", vec![text("bf-1")]),
            ("INSERT INTO bead_annotations (bead_id, key, value) VALUES (?1, ?2, ?3)", vec![text("bf-1"), text("k"), text("v")]),
        ]
    );
    assert!(p.mark_dirty);
    let p = update_issue_plan(&IssueChanges { title: Some("t".to_string()), ..Default::default() }, "bf-1", Some("open"), None, NOW);
    assert!(p.rewrites.is_empty());
}
