//! The stored row of an issue.

use bead_forge::changes::SqlValue;
use bead_forge::children::{
    label_add_plan, label_remove_plan, BEAD_LABEL_DELETE_SQL, LABEL_DELETE_SQL,
    CommentRecord, DependencyRecord, EventEntry, ANNOTATION_INSERT_SQL, BEAD_LABEL_INSERT_SQL,
    COMMENT_INSERT_SQL, CREATED_EVENT_SQL, DEPENDENCY_INSERT_SQL, EVENT_INSERT_SQL, LABEL_INSERT_SQL,
};
use bead_forge::rows::{
    create_issue_plan, import_replace_plan, import_update_statement, json_replace_plan,
    json_update_statement, IssueRecord, ANNOTATIONS_CLEAR_SQL, BEAD_LABELS_CLEAR_SQL,
    COMMENTS_CLEAR_SQL, DEPENDENCIES_CLEAR_SQL, INSERT_ISSUE_SQL, LABELS_CLEAR_SQL,
    UPDATE_FROM_JSON_SQL,
};

fn t(s: &str) -> SqlValue {
    SqlValue::Text(s.to_string())
}

fn record() -> IssueRecord {
    IssueRecord {
        id: "bf-1".to_string(),
        content_hash: None,
        title: "Title".to_string(),
        description: Some("Desc".to_string()),
        design: None,
        acceptance_criteria: None,
        notes: None,
        status: "open".to_string(),
        priority: 2,
        issue_type: "task".to_string(),
        assignee: Some("alice".to_string()),
        owner: None,
        estimated_minutes: Some(30),
        created_at: "C".to_string(),
        created_by: None,
        updated_at: "U".to_string(),
        closed_at: None,
        close_reason: None,
        closed_by_session: None,
        due_at: None,
        defer_until: None,
        external_ref: None,
        source_system: None,
        source_repo: None,
        deleted_at: None,
        deleted_by: None,
        delete_reason: None,
        original_type: None,
        compaction_level: Some(0),
        compacted_at: None,
        compacted_at_commit: None,
        original_size: None,
        sender: None,
        ephemeral: false,
        pinned: true,
        is_template: false,
        labels: vec![],
        dependencies: vec![],
        comments: vec![],
        annotations: vec![],
        events: vec![],
    }
}

fn columns() -> Vec<SqlValue> {
    vec![
        t("Title"), t("Desc"), t(""), t(""), t(""), t("open"), SqlValue::Integer(2), t("task"),
        t("alice"), SqlValue::Null, SqlValue::Integer(30), t("C"), SqlValue::Null, t("U"),
        SqlValue::Null, SqlValue::Null, SqlValue::Null, SqlValue::Null, SqlValue::Null,
        SqlValue::Null, SqlValue::Null, t("."), SqlValue::Null, SqlValue::Null, SqlValue::Null,
        SqlValue::Null, SqlValue::Integer(0), SqlValue::Null, SqlValue::Null, SqlValue::Null,
        SqlValue::Null, SqlValue::Integer(0), SqlValue::Integer(1), SqlValue::Integer(0),
    ]
}

#[test]
fn creating_stores_defaults_and_the_computed_hash() {
    let p = create_issue_plan(&record(), "h123", "NOW");
    assert_eq!(p.sql, INSERT_ISSUE_SQL);
    assert_eq!(p.content_hash, "h123");
    let mut expected = vec![t("bf-1"), t("h123")];
    expected.extend(columns());
    assert_eq!(p.values.len(), 36);
    assert_eq!(p.values, expected);
    assert_eq!(p.events, vec![(CREATED_EVENT_SQL.to_string(), vec![t("bf-1"), t(""), t("C")])]);
    assert!(p.children.is_empty());
    assert_eq!(p.dirty_marked_at, "NOW");
}

#[test]
fn creating_keeps_a_given_hash_and_creator() {
    let mut r = record();
    r.content_hash = Some("own".to_string());
    r.created_by = Some("me".to_string());
    let p = create_issue_plan(&r, "h123", "NOW");
    assert_eq!(p.content_hash, "own");
    assert_eq!(p.values[1], t("own"));
    assert_eq!(p.events, vec![(CREATED_EVENT_SQL.to_string(), vec![t("bf-1"), t("me"), t("C")])]);
}

#[test]
fn json_update_binds_the_hash_as_given_and_the_id_last() {
    let (sql, values) = json_update_statement(&record());
    assert_eq!(sql, UPDATE_FROM_JSON_SQL);
    let mut expected = vec![SqlValue::Null];
    expected.extend(columns());
    expected.push(t("bf-1"));
    assert_eq!(values.len(), 36);
    assert_eq!(values, expected);
    let (_, values) = import_update_statement(&record(), "h9");
    assert_eq!(values[0], t("h9"));
    assert_eq!(values[35], t("bf-1"));
}

#[test]
fn statements_have_a_placeholder_per_value() {
    assert!(INSERT_ISSUE_SQL.contains("?36)"));
    assert!(UPDATE_FROM_JSON_SQL.contains("WHERE id = ?36"));
    assert!(!UPDATE_FROM_JSON_SQL.contains("?37"));
}

fn with_children() -> IssueRecord {
    let mut r = record();
    r.labels = vec!["ui".to_string(), "p1".to_string()];
    r.dependencies = vec![DependencyRecord {
        issue_id: "bf-1".to_string(),
        depends_on_id: "bf-0".to_string(),
        dep_type: "blocks".to_string(),
        metadata: None,
        thread_id: Some("th".to_string()),
        created_at: "D".to_string(),
        created_by: "dev".to_string(),
    }];
    r.comments = vec![CommentRecord {
        id: 7,
        issue_id: "bf-1".to_string(),
        author: "ann".to_string(),
        body: "hi".to_string(),
        created_at: "E".to_string(),
    }];
    r.annotations = vec![("k".to_string(), "v".to_string())];
    r
}

fn children_rows(with_annotations: bool) -> Vec<(String, Vec<SqlValue>)> {
    let mut v = vec![
        (LABEL_INSERT_SQL.to_string(), vec![t("bf-1"), t("ui")]),
        (LABEL_INSERT_SQL.to_string(), vec![t("bf-1"), t("p1")]),
        (BEAD_LABEL_INSERT_SQL.to_string(), vec![t("bf-1"), t("ui")]),
        (BEAD_LABEL_INSERT_SQL.to_string(), vec![t("bf-1"), t("p1")]),
        (
            DEPENDENCY_INSERT_SQL.to_string(),
            vec![t("bf-1"), t("bf-0"), t("blocks"), SqlValue::Null, t("th"), t("D"), t("dev")],
        ),
        (COMMENT_INSERT_SQL.to_string(), vec![SqlValue::Integer(7), t("bf-1"), t("ann"), t("hi"), t("E")]),
    ];
    if with_annotations {
        v.push((ANNOTATION_INSERT_SQL.to_string(), vec![t("bf-1"), t("k"), t("v")]));
    }
    v
}

#[test]
fn creating_stores_labels_dependencies_comments_and_annotations() {
    let p = create_issue_plan(&with_children(), "h", "NOW");
    assert_eq!(p.children, children_rows(true));
}

#[test]
fn creating_keeps_the_events_an_issue_carries() {
    let mut r = record();
    r.events = vec![EventEntry {
        event_type: "status_changed".to_string(),
        actor: "test-user".to_string(),
        old_value: Some("open".to_string()),
        new_value: Some("in_progress".to_string()),
        comment: None,
        created_at: "T".to_string(),
    }];
    let p = create_issue_plan(&r, "h", "NOW");
    assert_eq!(
        p.events,
        vec![(
            EVENT_INSERT_SQL.to_string(),
            vec![t("bf-1"), t("status_changed"), t("test-user"), t("open"), t("in_progress"), SqlValue::Null, t("T")],
        )]
    );
}

#[test]
fn replacing_rewrites_the_rows_beside_the_issue() {
    let r = with_children();
    let clear = |sql: &str| (sql.to_string(), vec![t("bf-1")]);
    let p = import_replace_plan(&r, "h9");
    assert_eq!(
        p.clears,
        vec![
            clear(LABELS_CLEAR_SQL),
            clear(BEAD_LABELS_CLEAR_SQL),
            clear(DEPENDENCIES_CLEAR_SQL),
            clear(COMMENTS_CLEAR_SQL),
            clear(ANNOTATIONS_CLEAR_SQL),
        ]
    );
    assert_eq!(p.update.1[0], t("h9"));
    assert_eq!(p.children, children_rows(true));
    let p = json_replace_plan(&r);
    assert_eq!(p.clears.len(), 4);
    assert_eq!(p.update.1[0], SqlValue::Null);
    assert_eq!(p.children, children_rows(false));
}

#[test]
fn labels_are_added_and_removed_trimmed() {
    let p = label_add_plan("bf-1", "  ui ").unwrap();
    assert_eq!(
        p,
        vec![
            (LABEL_INSERT_SQL.to_string(), vec![t("bf-1"), t("ui")]),
            (BEAD_LABEL_INSERT_SQL.to_string(), vec![t("bf-1"), t("ui")]),
        ]
    );
    let p = label_remove_plan("bf-1", "ui").unwrap();
    assert_eq!(p[0].0, LABEL_DELETE_SQL);
    assert_eq!(p[1].0, BEAD_LABEL_DELETE_SQL);
    assert_eq!(label_add_plan("bf-1", "   "), Err("Label cannot be empty or whitespace only".to_string()));
    assert!(label_remove_plan("bf-1", "").is_err());
}
