//! The library's statements run against an in-memory SQLite database built
//! from its schema: the ready queue, dependencies, closing and updating.

use bead_forge::changes::{close_plan, update_issue_plan, IssueChanges, SqlValue};
use bead_forge::children::{CommentRecord, EventEntry};
use bead_forge::queries::ready_candidates_query;
use bead_forge::rows::{create_issue_plan, IssueRecord};
use bead_forge::rules::{blocks_dependent, check_dependency, unblocked_on_close};
use bead_forge::schema::SCHEMA_SQL;
use rusqlite::types::Value;
use rusqlite::{params_from_iter, Connection, OptionalExtension};

fn now() -> String {
    chrono::Utc::now().to_rfc3339()
}

fn open() -> Connection {
    let conn = Connection::open_in_memory().unwrap();
    conn.execute_batch(SCHEMA_SQL).unwrap();
    conn
}

fn issue(id: &str, title: &str) -> IssueRecord {
    let at = now();
    IssueRecord {
        id: id.to_string(),
        content_hash: None,
        title: title.to_string(),
        description: None,
        design: None,
        acceptance_criteria: None,
        notes: None,
        status: "open".to_string(),
        priority: 2,
        issue_type: "task".to_string(),
        assignee: None,
        owner: None,
        estimated_minutes: None,
        created_at: at.clone(),
        created_by: None,
        updated_at: at,
        closed_at: None,
        close_reason: None,
        closed_by_session: None,
        due_at: None,
        defer_until: None,
        external_ref: None,
        source_system: None,
        source_repo: Some(".".to_string()),
        deleted_at: None,
        deleted_by: None,
        delete_reason: None,
        original_type: None,
        compaction_level: None,
        compacted_at: None,
        compacted_at_commit: None,
        original_size: None,
        sender: None,
        ephemeral: false,
        pinned: false,
        is_template: false,
        labels: vec![],
        dependencies: vec![],
        comments: vec![],
        annotations: vec![],
        events: vec![],
    }
}

fn closed(id: &str, title: &str) -> IssueRecord {
    let mut i = issue(id, title);
    i.status = "closed".to_string();
    i.closed_at = Some(now());
    i
}

fn with_status(id: &str, title: &str, status: &str) -> IssueRecord {
    let mut i = issue(id, title);
    i.status = status.to_string();
    i
}

fn to_value(v: &SqlValue) -> Value {
    match v {
        SqlValue::Text(s) => Value::Text(s.clone()),
        SqlValue::Integer(i) => Value::Integer(*i),
        SqlValue::Null => Value::Null,
    }
}

fn execute(conn: &Connection, sql: &str, values: &[SqlValue]) {
    conn.execute(sql, params_from_iter(values.iter().map(to_value))).unwrap();
}

fn create(conn: &Connection, i: &IssueRecord) {
    let plan = create_issue_plan(i, "hash", &now());
    execute(conn, &plan.sql, &plan.values);
    for (sql, values) in plan.events.iter().chain(plan.children.iter()) {
        execute(conn, sql, values);
    }
}

fn strings(conn: &Connection, sql: &str, id: &str) -> Vec<String> {
    let mut stmt = conn.prepare(sql).unwrap();
    let v: Vec<String> = stmt.query_map((id,), |r| r.get(0)).unwrap().map(|r| r.unwrap()).collect();
    v
}

fn event_types(conn: &Connection, id: &str) -> Vec<String> {
    strings(conn, "SELECT event_type FROM events WHERE issue_id = ?1 ORDER BY id", id)
}

fn comment_bodies(conn: &Connection, id: &str) -> Vec<String> {
    strings(conn, "SELECT text FROM comments WHERE issue_id = ?1 ORDER BY id", id)
}

fn comment(id: i64, issue_id: &str, author: &str, body: &str) -> CommentRecord {
    CommentRecord {
        id,
        issue_id: issue_id.to_string(),
        author: author.to_string(),
        body: body.to_string(),
        created_at: now(),
    }
}

fn event(event_type: &str, actor: &str, old: Option<&str>, new: Option<&str>) -> EventEntry {
    EventEntry {
        event_type: event_type.to_string(),
        actor: actor.to_string(),
        old_value: old.map(|s| s.to_string()),
        new_value: new.map(|s| s.to_string()),
        comment: None,
        created_at: now(),
    }
}

fn add_dependency(conn: &Connection, issue_id: &str, depends_on_id: &str, dep_type: &str) -> Result<(), String> {
    check_dependency(issue_id, depends_on_id, dep_type)?;
    conn.execute(
        "INSERT INTO dependencies (issue_id, depends_on_id, type, created_at, created_by) VALUES (?1, ?2, ?3, ?4, 'test-user')",
        (issue_id, depends_on_id, dep_type, now()),
    )
    .unwrap();
    let blocker: Option<String> = conn
        .query_row("SELECT status FROM issues WHERE id = ?1", (depends_on_id,), |r| r.get(0))
        .optional()
        .unwrap();
    if blocks_dependent(dep_type, blocker.as_deref()) {
        conn.execute("UPDATE issues SET status = 'blocked' WHERE id = ?1", (issue_id,)).unwrap();
    }
    Ok(())
}

fn close(conn: &Connection, id: &str) {
    let current: Option<String> = conn
        .query_row("SELECT status FROM issues WHERE id = ?1", (id,), |r| r.get(0))
        .optional()
        .unwrap();
    let plan = close_plan(id, current.as_deref(), "Completed", "test-user", &now()).unwrap().unwrap();
    execute(conn, &plan.sql, &plan.values);
    let dependents: Vec<(String, String)> = conn
        .prepare(
            "SELECT d.issue_id, i.status FROM dependencies d INNER JOIN issues i ON i.id = d.issue_id
             WHERE d.depends_on_id = ?1 AND d.type IN ('blocks', 'parent-child', 'conditional-blocks', 'waits-for')",
        )
        .unwrap()
        .query_map((id,), |r| Ok((r.get(0)?, r.get(1)?)))
        .unwrap()
        .map(|r| r.unwrap())
        .collect();
    for (dep, status) in dependents {
        let remaining: i64 = conn
            .query_row(
                "SELECT COUNT(DISTINCT d.depends_on_id) FROM dependencies d INNER JOIN issues i ON i.id = d.depends_on_id
                 WHERE d.issue_id = ?1 AND d.type IN ('blocks', 'parent-child', 'conditional-blocks', 'waits-for')
                 AND i.status NOT IN ('closed', 'tombstone', 'done', 'completed')",
                (&dep,),
                |r| r.get(0),
            )
            .unwrap();
        if unblocked_on_close(&status, remaining) {
            conn.execute("UPDATE issues SET status = 'open' WHERE id = ?1", (&dep,)).unwrap();
        }
    }
}

fn ready(conn: &Connection) -> Vec<String> {
    let mut stmt = conn.prepare(ready_candidates_query()).unwrap();
    let ids: Vec<String> = stmt.query_map([], |r| r.get(0)).unwrap().map(|r| r.unwrap()).collect();
    ids
}

fn has(ready: &[String], id: &str) -> bool {
    ready.iter().any(|i| i == id)
}

#[test]
fn test_ready_queue_excludes_closed_beads() {
    let s = open();
    create(&s, &issue("bf-open", "Open bead"));
    create(&s, &closed("bf-closed", "Closed bead"));
    let ready = ready(&s);
    assert_eq!(ready.len(), 1);
    assert_eq!(ready[0], "bf-open");
    assert!(!has(&ready, "bf-closed"));
}

#[test]
fn test_ready_queue_excludes_tombstone_beads() {
    let s = open();
    create(&s, &issue("bf-open", "Open bead"));
    create(&s, &with_status("bf-tombstone", "Tombstone bead", "tombstone"));
    let ready = ready(&s);
    assert_eq!(ready.len(), 1);
    assert_eq!(ready[0], "bf-open");
    assert!(!has(&ready, "bf-tombstone"));
}

#[test]
fn test_ready_queue_excludes_blocked_status_beads() {
    let s = open();
    create(&s, &issue("bf-open", "Open bead"));
    create(&s, &with_status("bf-blocked", "Blocked bead", "blocked"));
    let ready = ready(&s);
    assert_eq!(ready.len(), 1);
    assert_eq!(ready[0], "bf-open");
    assert!(!has(&ready, "bf-blocked"));
}

#[test]
fn test_ready_queue_excludes_in_progress_beads() {
    let s = open();
    create(&s, &issue("bf-open", "Open bead"));
    create(&s, &with_status("bf-inprogress", "In progress bead", "in_progress"));
    let ready = ready(&s);
    assert_eq!(ready.len(), 1);
    assert_eq!(ready[0], "bf-open");
    assert!(!has(&ready, "bf-inprogress"));
}

#[test]
fn test_ready_queue_excludes_deferred_beads() {
    let s = open();
    create(&s, &issue("bf-open", "Open bead"));
    create(&s, &with_status("bf-deferred", "Deferred bead", "deferred"));
    let ready = ready(&s);
    assert_eq!(ready.len(), 1);
    assert_eq!(ready[0], "bf-open");
    assert!(!has(&ready, "bf-deferred"));
}

#[test]
fn test_ready_queue_excludes_draft_beads() {
    let s = open();
    create(&s, &issue("bf-open", "Open bead"));
    create(&s, &with_status("bf-draft", "Draft bead", "draft"));
    let ready = ready(&s);
    assert_eq!(ready.len(), 1);
    assert_eq!(ready[0], "bf-open");
    assert!(!has(&ready, "bf-draft"));
}

#[test]
fn test_ready_queue_excludes_custom_status_done_beads() {
    let s = open();
    create(&s, &issue("bf-open", "Open bead"));
    create(&s, &with_status("bf-done", "Done bead", "done"));
    let ready = ready(&s);
    assert_eq!(ready.len(), 1);
    assert_eq!(ready[0], "bf-open");
    assert!(!has(&ready, "bf-done"));
}

#[test]
fn test_ready_queue_excludes_custom_status_completed_beads() {
    let s = open();
    create(&s, &issue("bf-open", "Open bead"));
    create(&s, &with_status("bf-completed", "Completed bead", "completed"));
    let ready = ready(&s);
    assert_eq!(ready.len(), 1);
    assert_eq!(ready[0], "bf-open");
    assert!(!has(&ready, "bf-completed"));
}

#[test]
fn test_ready_queue_excludes_beads_with_open_blockers() {
    let s = open();
    create(&s, &issue("bf-blocker", "Blocker"));
    create(&s, &issue("bf-dependent", "Dependent"));
    add_dependency(&s, "bf-dependent", "bf-blocker", "blocks").unwrap();
    let ready = ready(&s);
    assert_eq!(ready.len(), 1);
    assert_eq!(ready[0], "bf-blocker");
    assert!(!has(&ready, "bf-dependent"));
}

#[test]
fn test_ready_queue_includes_beads_with_closed_blockers() {
    let s = open();
    create(&s, &closed("bf-blocker", "Closed blocker"));
    create(&s, &issue("bf-dependent", "Dependent with closed blocker"));
    add_dependency(&s, "bf-dependent", "bf-blocker", "blocks").unwrap();
    let ready = ready(&s);
    assert!(has(&ready, "bf-dependent"));
}

#[test]
fn test_ready_queue_includes_beads_with_tombstone_blockers() {
    let s = open();
    create(&s, &with_status("bf-blocker", "Tombstone blocker", "tombstone"));
    create(&s, &issue("bf-dependent", "Dependent with tombstone blocker"));
    add_dependency(&s, "bf-dependent", "bf-blocker", "blocks").unwrap();
    let ready = ready(&s);
    assert!(has(&ready, "bf-dependent"));
}

#[test]
fn test_ready_queue_includes_beads_with_done_blockers() {
    let s = open();
    create(&s, &with_status("bf-blocker", "Done blocker", "done"));
    create(&s, &issue("bf-dependent", "Dependent with done blocker"));
    add_dependency(&s, "bf-dependent", "bf-blocker", "blocks").unwrap();
    let ready = ready(&s);
    assert!(has(&ready, "bf-dependent"));
}

#[test]
fn test_ready_queue_includes_beads_with_completed_blockers() {
    let s = open();
    create(&s, &with_status("bf-blocker", "Completed blocker", "completed"));
    create(&s, &issue("bf-dependent", "Dependent with completed blocker"));
    add_dependency(&s, "bf-dependent", "bf-blocker", "blocks").unwrap();
    let ready = ready(&s);
    assert!(has(&ready, "bf-dependent"));
}

#[test]
fn test_ready_queue_excludes_beads_with_multiple_open_blockers() {
    let s = open();
    create(&s, &issue("bf-blocker1", "Blocker 1"));
    create(&s, &issue("bf-blocker2", "Blocker 2"));
    create(&s, &issue("bf-dependent", "Dependent"));
    add_dependency(&s, "bf-dependent", "bf-blocker1", "blocks").unwrap();
    add_dependency(&s, "bf-dependent", "bf-blocker2", "blocks").unwrap();
    let ready = ready(&s);
    assert_eq!(ready.len(), 2);
    assert!(!has(&ready, "bf-dependent"));
}

#[test]
fn test_ready_queue_excludes_beads_with_at_least_one_open_blocker() {
    let s = open();
    create(&s, &issue("bf-open-blocker", "Open blocker"));
    create(&s, &closed("bf-closed-blocker", "Closed blocker"));
    create(&s, &issue("bf-dependent", "Dependent"));
    add_dependency(&s, "bf-dependent", "bf-open-blocker", "blocks").unwrap();
    add_dependency(&s, "bf-dependent", "bf-closed-blocker", "blocks").unwrap();
    let ready = ready(&s);
    assert!(!has(&ready, "bf-dependent"));
}

#[test]
fn test_ready_queue_includes_beads_when_all_blockers_closed() {
    let s = open();
    create(&s, &closed("bf-blocker1", "Closed blocker 1"));
    create(&s, &closed("bf-blocker2", "Closed blocker 2"));
    create(&s, &issue("bf-dependent", "Dependent"));
    add_dependency(&s, "bf-dependent", "bf-blocker1", "blocks").unwrap();
    add_dependency(&s, "bf-dependent", "bf-blocker2", "blocks").unwrap();
    let ready = ready(&s);
    assert!(has(&ready, "bf-dependent"));
}

#[test]
fn test_ready_queue_respects_blocks_dependency_type() {
    let s = open();
    create(&s, &issue("bf-blocker", "Blocker"));
    create(&s, &issue("bf-dependent", "Dependent"));
    add_dependency(&s, "bf-dependent", "bf-blocker", "blocks").unwrap();
    let ready = ready(&s);
    assert!(!has(&ready, "bf-dependent"));
}

#[test]
fn test_ready_queue_respects_parent_child_dependency_type() {
    let s = open();
    create(&s, &issue("bf-parent", "Parent"));
    create(&s, &issue("bf-child", "Child"));
    add_dependency(&s, "bf-child", "bf-parent", "parent-child").unwrap();
    let ready = ready(&s);
    assert!(!has(&ready, "bf-child"));
}

#[test]
fn test_ready_queue_respects_conditional_blocks_dependency_type() {
    let s = open();
    create(&s, &issue("bf-blocker", "Blocker"));
    create(&s, &issue("bf-dependent", "Dependent"));
    add_dependency(&s, "bf-dependent", "bf-blocker", "conditional-blocks").unwrap();
    let ready = ready(&s);
    assert!(!has(&ready, "bf-dependent"));
}

#[test]
fn test_ready_queue_respects_waits_for_dependency_type() {
    let s = open();
    create(&s, &issue("bf-waited-for", "Waited for"));
    create(&s, &issue("bf-waiter", "Waiter"));
    add_dependency(&s, "bf-waiter", "bf-waited-for", "waits-for").unwrap();
    let ready = ready(&s);
    assert!(!has(&ready, "bf-waiter"));
}

#[test]
fn test_ready_queue_ignores_non_blocking_dependency_types() {
    let s = open();
    create(&s, &issue("bf-related", "Related bead"));
    create(&s, &issue("bf-dependent", "Dependent"));
    add_dependency(&s, "bf-dependent", "bf-related", "relates-to").unwrap();
    let ready = ready(&s);
    assert_eq!(ready.len(), 2);
    assert!(has(&ready, "bf-related"));
    assert!(has(&ready, "bf-dependent"));
}

#[test]
fn test_ready_queue_ignores_related_dependency() {
    let s = open();
    create(&s, &issue("bf-related", "Related bead"));
    create(&s, &issue("bf-dependent", "Dependent"));
    add_dependency(&s, "bf-dependent", "bf-related", "related").unwrap();
    assert_eq!(ready(&s).len(), 2);
}

#[test]
fn test_ready_queue_ignores_discovered_from_dependency() {
    let s = open();
    create(&s, &issue("bf-source", "Source bead"));
    create(&s, &issue("bf-discovered", "Discovered bead"));
    add_dependency(&s, "bf-discovered", "bf-source", "discovered-from").unwrap();
    assert_eq!(ready(&s).len(), 2);
}

#[test]
fn test_ready_queue_with_transitive_dependencies() {
    let s = open();
    create(&s, &issue("bf-a", "Bead A"));
    create(&s, &issue("bf-b", "Bead B"));
    create(&s, &issue("bf-c", "Bead C"));
    add_dependency(&s, "bf-b", "bf-a", "blocks").unwrap();
    add_dependency(&s, "bf-c", "bf-b", "blocks").unwrap();
    let ready = ready(&s);
    assert_eq!(ready.len(), 1);
    assert_eq!(ready[0], "bf-a");
}

#[test]
fn test_ready_queue_with_diamond_dependencies() {
    let s = open();
    create(&s, &issue("bf-a", "Bead A"));
    create(&s, &issue("bf-b", "Bead B"));
    create(&s, &issue("bf-c", "Bead C"));
    create(&s, &issue("bf-d", "Bead D"));
    add_dependency(&s, "bf-b", "bf-a", "blocks").unwrap();
    add_dependency(&s, "bf-c", "bf-a", "blocks").unwrap();
    add_dependency(&s, "bf-d", "bf-b", "blocks").unwrap();
    add_dependency(&s, "bf-d", "bf-c", "blocks").unwrap();
    let ready = ready(&s);
    assert_eq!(ready.len(), 1);
    assert_eq!(ready[0], "bf-a");
}

#[test]
fn test_ready_queue_excludes_ephemeral_beads() {
    let s = open();
    create(&s, &issue("bf-open", "Open bead"));
    let mut b = issue("bf-ephemeral", "Ephemeral bead");
    b.ephemeral = true;
    create(&s, &b);
    let ready = ready(&s);
    assert_eq!(ready.len(), 1);
    assert_eq!(ready[0], "bf-open");
    assert!(!has(&ready, "bf-ephemeral"));
}

#[test]
fn test_ready_queue_excludes_pinned_beads() {
    let s = open();
    create(&s, &issue("bf-open", "Open bead"));
    let mut b = issue("bf-pinned", "Pinned bead");
    b.pinned = true;
    create(&s, &b);
    let ready = ready(&s);
    assert_eq!(ready.len(), 1);
    assert_eq!(ready[0], "bf-open");
    assert!(!has(&ready, "bf-pinned"));
}

#[test]
fn test_ready_queue_excludes_template_beads() {
    let s = open();
    create(&s, &issue("bf-open", "Open bead"));
    let mut b = issue("bf-template", "Template bead");
    b.is_template = true;
    create(&s, &b);
    let ready = ready(&s);
    assert_eq!(ready.len(), 1);
    assert_eq!(ready[0], "bf-open");
    assert!(!has(&ready, "bf-template"));
}

#[test]
fn test_ready_queue_excludes_deleted_beads() {
    let s = open();
    create(&s, &issue("bf-open", "Open bead"));
    let mut b = issue("bf-deleted", "Deleted bead");
    b.status = "tombstone".to_string();
    b.deleted_at = Some(now());
    b.deleted_by = Some("test-user".to_string());
    b.delete_reason = Some("Test deletion".to_string());
    create(&s, &b);
    let ready = ready(&s);
    assert_eq!(ready.len(), 1);
    assert_eq!(ready[0], "bf-open");
    assert!(!has(&ready, "bf-deleted"));
}

#[test]
fn test_ready_queue_empty_when_no_open_beads() {
    let s = open();
    for i in 1..=5 {
        create(&s, &closed(&format!("bf-closed-{}", i), &format!("Closed bead {}", i)));
    }
    assert_eq!(ready(&s).len(), 0);
}

#[test]
fn test_ready_queue_with_assigned_open_beads() {
    let s = open();
    let mut assigned = issue("bf-assigned", "Assigned bead");
    assigned.assignee = Some("worker1".to_string());
    create(&s, &assigned);
    create(&s, &issue("bf-unassigned", "Unassigned bead"));
    let ready = ready(&s);
    assert_eq!(ready.len(), 2);
    assert!(has(&ready, "bf-assigned"));
    assert!(has(&ready, "bf-unassigned"));
}

#[test]
fn test_ready_queue_ordering_by_priority_and_created_at() {
    let s = open();
    let base = chrono::Utc::now();
    let mut b1 = issue("bf-p0", "P0 bead");
    b1.priority = 0;
    b1.created_at = (base + chrono::Duration::seconds(3)).to_rfc3339();
    create(&s, &b1);
    let mut b2 = issue("bf-p0-old", "P0 older bead");
    b2.priority = 0;
    b2.created_at = (base + chrono::Duration::seconds(1)).to_rfc3339();
    create(&s, &b2);
    let mut b3 = issue("bf-p1", "P1 bead");
    b3.priority = 1;
    b3.created_at = (base + chrono::Duration::seconds(2)).to_rfc3339();
    create(&s, &b3);
    let ready = ready(&s);
    assert_eq!(ready.len(), 3);
    assert_eq!(ready[0], "bf-p0-old");
    assert_eq!(ready[1], "bf-p0");
    assert_eq!(ready[2], "bf-p1");
}

#[test]
fn test_ready_queue_handles_beads_with_no_dependencies() {
    let s = open();
    for i in 1..=10 {
        create(&s, &issue(&format!("bf-ready-{}", i), &format!("Ready bead {}", i)));
    }
    assert_eq!(ready(&s).len(), 10);
}

#[test]
fn test_ready_queue_after_closing_blocker() {
    let s = open();
    create(&s, &issue("bf-blocker", "Blocker"));
    create(&s, &issue("bf-dependent", "Dependent"));
    add_dependency(&s, "bf-dependent", "bf-blocker", "blocks").unwrap();
    assert!(!has(&ready(&s), "bf-dependent"));
    close(&s, "bf-blocker");
    assert!(has(&ready(&s), "bf-dependent"));
}

#[test]
fn test_ready_queue_self_dependency_excluded() {
    let s = open();
    create(&s, &issue("bf-self", "Self bead"));
    let result = add_dependency(&s, "bf-self", "bf-self", "blocks");
    assert!(result.is_err(), "Self-blocking dependency should be rejected");
    assert!(has(&ready(&s), "bf-self"));
}

#[test]
fn test_ready_queue_downstream_impact_ranking_basic() {
    let s = open();
    create(&s, &issue("bf-a", "Bead A (blocks 3)"));
    create(&s, &issue("bf-b", "Bead B (blocks 1)"));
    create(&s, &issue("bf-c", "Bead C (blocks 0)"));
    for id in ["bf-dep-a1", "bf-dep-a2", "bf-dep-a3", "bf-dep-b1"] {
        create(&s, &issue(id, "Dep"));
    }
    add_dependency(&s, "bf-dep-a1", "bf-a", "blocks").unwrap();
    add_dependency(&s, "bf-dep-a2", "bf-a", "blocks").unwrap();
    add_dependency(&s, "bf-dep-a3", "bf-a", "blocks").unwrap();
    add_dependency(&s, "bf-dep-b1", "bf-b", "blocks").unwrap();
    let ready = ready(&s);
    assert_eq!(ready.len(), 3, "All three unblocked beads should be ready");
    assert!(has(&ready, "bf-a"));
    assert!(has(&ready, "bf-b"));
    assert!(has(&ready, "bf-c"));
}

#[test]
fn test_ready_queue_downstream_impact_with_priority_tiebreaker() {
    let s = open();
    let mut high = issue("bf-high", "High impact");
    high.priority = 1;
    create(&s, &high);
    let mut low = issue("bf-low", "Low impact");
    low.priority = 1;
    create(&s, &low);
    create(&s, &issue("bf-dep1", "Dep 1"));
    create(&s, &issue("bf-dep2", "Dep 2"));
    add_dependency(&s, "bf-dep1", "bf-high", "blocks").unwrap();
    add_dependency(&s, "bf-dep2", "bf-high", "blocks").unwrap();
    let ready = ready(&s);
    assert_eq!(ready.len(), 2);
    assert!(has(&ready, "bf-high"));
    assert!(has(&ready, "bf-low"));
}

#[test]
fn test_ready_queue_downstream_impact_with_mixed_priorities() {
    let s = open();
    let mut p0 = issue("bf-p0", "P0 low impact");
    p0.priority = 0;
    create(&s, &p0);
    let mut p1 = issue("bf-p1", "P1 high impact");
    p1.priority = 1;
    create(&s, &p1);
    for i in 1..=5 {
        create(&s, &issue(&format!("bf-dep-{}", i), "Dep"));
        add_dependency(&s, &format!("bf-dep-{}", i), "bf-p1", "blocks").unwrap();
    }
    let ready = ready(&s);
    assert_eq!(ready.len(), 2);
    assert_eq!(ready[0], "bf-p0", "P0 should be first due to higher priority");
    assert_eq!(ready[1], "bf-p1");
}

fn row(conn: &Connection, id: &str) -> (String, String, i64, Option<String>, String, String) {
    conn.query_row(
        "SELECT title, status, priority, assignee, description, updated_at FROM issues WHERE id = ?1",
        (id,),
        |r| Ok((r.get(0)?, r.get(1)?, r.get(2)?, r.get(3)?, r.get(4)?, r.get(5)?)),
    )
    .unwrap()
}

#[test]
fn updating_changes_only_the_given_fields() {
    let s = open();
    let mut b = with_status("bf-u", "Old title", "blocked");
    b.priority = 0;
    b.assignee = Some("alice".to_string());
    b.description = Some("Keep me".to_string());
    b.updated_at = "2020-01-01T00:00:00+00:00".to_string();
    create(&s, &b);
    let changes = IssueChanges { title: Some("New title".to_string()), ..Default::default() };
    let plan = update_issue_plan(&changes, "bf-u", Some("blocked"), Some("alice"), "2030-01-01T00:00:00+00:00");
    let (sql, values) = plan.update.unwrap();
    execute(&s, &sql, &values);
    assert_eq!(
        row(&s, "bf-u"),
        (
            "New title".to_string(),
            "blocked".to_string(),
            0,
            Some("alice".to_string()),
            "Keep me".to_string(),
            "2030-01-01T00:00:00+00:00".to_string()
        )
    );
}

#[test]
fn clearing_the_assignee_stores_null_and_keeps_the_rest() {
    let s = open();
    let mut b = issue("bf-a", "Assigned");
    b.assignee = Some("alice".to_string());
    create(&s, &b);
    let changes = IssueChanges { assignee: Some("   ".to_string()), ..Default::default() };
    let plan = update_issue_plan(&changes, "bf-a", Some("open"), Some("alice"), "2030-01-01T00:00:00+00:00");
    let (sql, values) = plan.update.unwrap();
    execute(&s, &sql, &values);
    let r = row(&s, "bf-a");
    assert_eq!(r.0, "Assigned");
    assert_eq!(r.1, "open");
    assert_eq!(r.3, None);
    assert_eq!(r.5, "2030-01-01T00:00:00+00:00");
}

#[test]
fn test_issue_with_comments() {
    let s = open();
    let mut i = issue("bf-comment-1", "Comment test");
    i.comments.push(comment(1, "bf-comment-1", "test-user", "Test comment"));
    create(&s, &i);
    let bodies = comment_bodies(&s, "bf-comment-1");
    assert_eq!(bodies.len(), 1);
    assert_eq!(bodies[0], "Test comment");
}

#[test]
fn test_issue_without_comments() {
    let s = open();
    create(&s, &issue("bf-nocomment-1", "No comments"));
    assert_eq!(comment_bodies(&s, "bf-nocomment-1").len(), 0);
}

#[test]
fn test_issue_with_multiple_comments() {
    let s = open();
    let mut i = issue("bf-multicomment-1", "Multiple comments");
    i.comments.push(comment(1, "bf-multicomment-1", "user1", "First comment"));
    i.comments.push(comment(2, "bf-multicomment-1", "user2", "Second comment"));
    create(&s, &i);
    assert_eq!(comment_bodies(&s, "bf-multicomment-1").len(), 2);
}

#[test]
fn test_issue_with_event() {
    let s = open();
    let mut i = issue("bf-event-1", "Event test");
    i.events.push(event("status_changed", "test-user", Some("open"), Some("in_progress")));
    create(&s, &i);
    let types = event_types(&s, "bf-event-1");
    assert_eq!(types.len(), 1);
    assert_eq!(types[0], "status_changed");
}

#[test]
fn test_issue_without_events() {
    let s = open();
    create(&s, &issue("bf-noevent-1", "No events"));
    let types = event_types(&s, "bf-noevent-1");
    assert!(types.len() >= 1);
    assert_eq!(types[0], "created");
}

#[test]
fn test_issue_with_multiple_events() {
    let s = open();
    let mut i = issue("bf-multievent-1", "Multiple events");
    i.events.push(event("created", "creator", None, None));
    i.events.push(event("status_changed", "updater", Some("open"), Some("in_progress")));
    create(&s, &i);
    assert!(event_types(&s, "bf-multievent-1").len() >= 2);
}

#[test]
fn test_issue_with_annotations() {
    let s = open();
    let mut i = issue("bf-annot-1", "Annotation test");
    i.annotations.push(("key1".to_string(), "value1".to_string()));
    i.annotations.push(("key2".to_string(), "value2".to_string()));
    create(&s, &i);
    let keys = strings(&s, "SELECT key FROM bead_annotations WHERE bead_id = ?1 ORDER BY key", "bf-annot-1");
    let values = strings(&s, "SELECT value FROM bead_annotations WHERE bead_id = ?1 ORDER BY key", "bf-annot-1");
    assert_eq!(keys, vec!["key1".to_string(), "key2".to_string()]);
    assert_eq!(values, vec!["value1".to_string(), "value2".to_string()]);
}

fn read_back(conn: &Connection, id: &str) -> Option<bead_forge::readback::ReadIssue> {
    let mut stmt = conn.prepare(bead_forge::queries::GET_ISSUE_SQL).unwrap();
    let mut rows = stmt.query((id,)).unwrap();
    let row = rows.next().unwrap()?;
    let g = |i: usize| -> Option<String> { row.get(i).unwrap() };
    let stored = bead_forge::readback::StoredIssueRow {
        id: row.get(0).unwrap(),
        content_hash: g(1),
        title: row.get(2).unwrap(),
        description: g(3),
        design: g(4),
        acceptance_criteria: g(5),
        notes: g(6),
        status: row.get(7).unwrap(),
        priority: row.get(8).unwrap(),
        issue_type: row.get(9).unwrap(),
        assignee: g(10),
        owner: g(11),
        estimated_minutes: row.get(12).unwrap(),
        created_at: g(13),
        created_by: g(14),
        updated_at: g(15),
        closed_at: g(16),
        close_reason: g(17),
        closed_by_session: g(18),
        due_at: g(19),
        defer_until: g(20),
        external_ref: g(21),
        source_system: g(22),
        source_repo: g(23),
        deleted_at: g(24),
        deleted_by: g(25),
        delete_reason: g(26),
        original_type: g(27),
        compaction_level: row.get(28).unwrap(),
        compacted_at: g(29),
        compacted_at_commit: g(30),
        original_size: row.get(31).unwrap(),
        sender: g(32),
        ephemeral: row.get(33).unwrap(),
        pinned: row.get(34).unwrap(),
        is_template: row.get(35).unwrap(),
        labels: g(36),
    };
    Some(bead_forge::readback::issue_from_row(&stored).unwrap())
}

#[test]
fn reading_an_issue_back_gives_what_was_written() {
    let s = open();
    let mut i = issue("bf-read", "Read me");
    i.priority = 1;
    i.assignee = Some("bob".to_string());
    i.pinned = true;
    i.labels = vec!["ui".to_string()];
    i.notes = Some("n".to_string());
    create(&s, &i);
    let r = read_back(&s, "bf-read").unwrap();
    assert_eq!(r.record.title, "Read me");
    assert_eq!(r.record.status, "open");
    assert_eq!(r.record.priority, 1);
    assert_eq!(r.record.assignee.as_deref(), Some("bob"));
    assert_eq!(r.record.notes.as_deref(), Some("n"));
    assert_eq!(r.record.description.as_deref(), Some(""));
    assert_eq!(r.record.created_at, i.created_at);
    assert_eq!(r.record.content_hash.as_deref(), Some("hash"));
    assert!(r.record.pinned && !r.record.ephemeral);
    assert_eq!(r.record.labels, vec!["ui".to_string()]);
    assert!(read_back(&s, "bf-none").is_none());
}
