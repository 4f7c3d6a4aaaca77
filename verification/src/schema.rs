//! SQL schema of a bead workspace: the DDL of every table and index.
//!
//! Each table and index group is kept as a named constant; the public
//! functions hand those constants out, and their contracts pin the exact text.

use vstd::prelude::*;

verus! {

/// DDL text returned by [`issues_table`].
pub const ISSUES_TABLE: &'static str = r#"CREATE TABLE IF NOT EXISTS issues (
    id TEXT PRIMARY KEY,
    content_hash TEXT,
    title TEXT NOT NULL CHECK(length(title) <= 500),
    description TEXT NOT NULL DEFAULT '',
    design TEXT NOT NULL DEFAULT '',
    acceptance_criteria TEXT NOT NULL DEFAULT '',
    notes TEXT NOT NULL DEFAULT '',
    status TEXT NOT NULL DEFAULT 'open',
    priority INTEGER NOT NULL DEFAULT 2 CHECK(priority >= 0 AND priority <= 4),
    issue_type TEXT NOT NULL DEFAULT 'task',
    assignee TEXT,
    owner TEXT DEFAULT '',
    estimated_minutes INTEGER,
    created_at DATETIME NOT NULL DEFAULT CURRENT_TIMESTAMP,
    created_by TEXT DEFAULT '',
    updated_at DATETIME NOT NULL DEFAULT CURRENT_TIMESTAMP,
    closed_at DATETIME,
    close_reason TEXT DEFAULT '',
    closed_by_session TEXT DEFAULT '',
    due_at DATETIME,
    defer_until DATETIME,
    external_ref TEXT,
    source_system TEXT DEFAULT '',
    source_repo TEXT NOT NULL DEFAULT '.',
    deleted_at DATETIME,
    deleted_by TEXT DEFAULT '',
    delete_reason TEXT DEFAULT '',
    original_type TEXT DEFAULT '',
    compaction_level INTEGER DEFAULT 0,
    compacted_at DATETIME,
    compacted_at_commit TEXT,
    original_size INTEGER,
    sender TEXT DEFAULT '',
    ephemeral INTEGER NOT NULL DEFAULT 0,
    pinned INTEGER NOT NULL DEFAULT 0,
    is_template INTEGER NOT NULL DEFAULT 0,
    manual_status TEXT DEFAULT NULL,
    CHECK (
        (status = 'closed' AND closed_at IS NOT NULL) OR
        (status = 'tombstone') OR
        (status NOT IN ('closed', 'tombstone') AND closed_at IS NULL)
    )
)"#;

/// DDL text returned by [`issues_indexes`].
pub const ISSUES_INDEXES: &'static str = r#"CREATE INDEX IF NOT EXISTS idx_issues_status ON issues(status);
CREATE INDEX IF NOT EXISTS idx_issues_priority ON issues(priority);
CREATE INDEX IF NOT EXISTS idx_issues_issue_type ON issues(issue_type);
CREATE INDEX IF NOT EXISTS idx_issues_assignee ON issues(assignee) WHERE assignee IS NOT NULL;
CREATE INDEX IF NOT EXISTS idx_issues_created_at ON issues(created_at);
CREATE INDEX IF NOT EXISTS idx_issues_updated_at ON issues(updated_at);
CREATE INDEX IF NOT EXISTS idx_issues_content_hash ON issues(content_hash);
CREATE INDEX IF NOT EXISTS idx_issues_external_ref ON issues(external_ref) WHERE external_ref IS NOT NULL;
CREATE UNIQUE INDEX IF NOT EXISTS idx_issues_external_ref_unique ON issues(external_ref) WHERE external_ref IS NOT NULL;
CREATE INDEX IF NOT EXISTS idx_issues_ephemeral ON issues(ephemeral) WHERE ephemeral = 1;
CREATE INDEX IF NOT EXISTS idx_issues_pinned ON issues(pinned) WHERE pinned = 1;
CREATE INDEX IF NOT EXISTS idx_issues_tombstone ON issues(status) WHERE status = 'tombstone';
CREATE INDEX IF NOT EXISTS idx_issues_due_at ON issues(due_at) WHERE due_at IS NOT NULL;
CREATE INDEX IF NOT EXISTS idx_issues_defer_until ON issues(defer_until) WHERE defer_until IS NOT NULL;
CREATE INDEX IF NOT EXISTS idx_issues_ready
    ON issues(status, priority, created_at)
    WHERE status = 'open'
    AND ephemeral = 0
    AND pinned = 0
    AND is_template = 0;
CREATE INDEX IF NOT EXISTS idx_issues_list_active_order
    ON issues(priority, created_at DESC)
    WHERE status NOT IN ('closed', 'tombstone')
    AND (is_template = 0 OR is_template IS NULL);"#;

/// DDL text returned by [`dependencies_table`].
pub const DEPENDENCIES_TABLE: &'static str = r#"CREATE TABLE IF NOT EXISTS dependencies (
    issue_id TEXT NOT NULL,
    depends_on_id TEXT NOT NULL,
    type TEXT NOT NULL DEFAULT 'blocks',
    created_at DATETIME NOT NULL DEFAULT CURRENT_TIMESTAMP,
    created_by TEXT NOT NULL DEFAULT '',
    metadata TEXT DEFAULT '{}',
    thread_id TEXT DEFAULT '',
    PRIMARY KEY (issue_id, depends_on_id),
    FOREIGN KEY (issue_id) REFERENCES issues(id) ON DELETE CASCADE
)"#;

/// DDL text returned by [`dependencies_indexes`].
pub const DEPENDENCIES_INDEXES: &'static str = r#"CREATE INDEX IF NOT EXISTS idx_dependencies_issue ON dependencies(issue_id);
CREATE INDEX IF NOT EXISTS idx_dependencies_depends_on ON dependencies(depends_on_id);
CREATE INDEX IF NOT EXISTS idx_dependencies_type ON dependencies(type);
CREATE INDEX IF NOT EXISTS idx_dependencies_depends_on_type ON dependencies(depends_on_id, type);
CREATE INDEX IF NOT EXISTS idx_dependencies_thread ON dependencies(thread_id) WHERE thread_id != '';
CREATE INDEX IF NOT EXISTS idx_dependencies_blocking
    ON dependencies(depends_on_id, issue_id)
    WHERE (type = 'blocks' OR type = 'parent-child' OR type = 'conditional-blocks' OR type = 'waits-for');"#;

/// DDL text returned by [`comments_table`].
pub const COMMENTS_TABLE: &'static str = r#"CREATE TABLE IF NOT EXISTS comments (
    id INTEGER PRIMARY KEY AUTOINCREMENT,
    issue_id TEXT NOT NULL,
    author TEXT NOT NULL,
    text TEXT NOT NULL,
    created_at DATETIME NOT NULL DEFAULT CURRENT_TIMESTAMP,
    FOREIGN KEY (issue_id) REFERENCES issues(id) ON DELETE CASCADE
)"#;

/// DDL text returned by [`comments_indexes`].
pub const COMMENTS_INDEXES: &'static str = r#"CREATE INDEX IF NOT EXISTS idx_comments_issue ON comments(issue_id);
CREATE INDEX IF NOT EXISTS idx_comments_created_at ON comments(created_at);"#;

/// DDL text returned by [`events_table`].
pub const EVENTS_TABLE: &'static str = r#"CREATE TABLE IF NOT EXISTS events (
    id INTEGER PRIMARY KEY AUTOINCREMENT,
    issue_id TEXT NOT NULL,
    event_type TEXT NOT NULL,
    actor TEXT NOT NULL DEFAULT '',
    old_value TEXT,
    new_value TEXT,
    comment TEXT,
    created_at DATETIME NOT NULL DEFAULT CURRENT_TIMESTAMP,
    FOREIGN KEY (issue_id) REFERENCES issues(id) ON DELETE CASCADE
)"#;

/// DDL text returned by [`events_indexes`].
pub const EVENTS_INDEXES: &'static str = r#"CREATE INDEX IF NOT EXISTS idx_events_issue ON events(issue_id);
CREATE INDEX IF NOT EXISTS idx_events_type ON events(event_type);
CREATE INDEX IF NOT EXISTS idx_events_created_at ON events(created_at);
CREATE INDEX IF NOT EXISTS idx_events_actor ON events(actor) WHERE actor != '';"#;

/// DDL text returned by [`labels_table`].
pub const LABELS_TABLE: &'static str = r#"CREATE TABLE IF NOT EXISTS labels (
    issue_id TEXT NOT NULL,
    label TEXT NOT NULL,
    PRIMARY KEY (issue_id, label),
    FOREIGN KEY (issue_id) REFERENCES issues(id) ON DELETE CASCADE
)"#;

/// DDL text returned by [`bead_labels_table`].
pub const BEAD_LABELS_TABLE: &'static str = r#"CREATE TABLE IF NOT EXISTS bead_labels (
    bead_id TEXT NOT NULL REFERENCES issues(id) ON DELETE CASCADE,
    label    TEXT NOT NULL,
    PRIMARY KEY (bead_id, label)
)"#;

/// DDL text returned by [`issue_labels_table`].
pub const ISSUE_LABELS_TABLE: &'static str = r#"CREATE TABLE IF NOT EXISTS issue_labels (
    issue_id TEXT NOT NULL,
    label_id TEXT NOT NULL,
    created_at DATETIME NOT NULL DEFAULT CURRENT_TIMESTAMP,
    PRIMARY KEY (issue_id, label_id),
    FOREIGN KEY (issue_id) REFERENCES issues(id) ON DELETE CASCADE
)"#;

/// DDL text returned by [`issue_labels_indexes`].
pub const ISSUE_LABELS_INDEXES: &'static str = r#"CREATE INDEX IF NOT EXISTS idx_issue_labels_issue_id ON issue_labels(issue_id);
CREATE INDEX IF NOT EXISTS idx_issue_labels_label_id ON issue_labels(label_id);"#;

/// DDL text returned by [`priorities_table`].
pub const PRIORITIES_TABLE: &'static str = r#"CREATE TABLE IF NOT EXISTS priorities (
    id INTEGER PRIMARY KEY,
    name TEXT NOT NULL UNIQUE,
    value INTEGER NOT NULL,
    color TEXT,
    description TEXT
)"#;

/// DDL text returned by [`statuses_table`].
pub const STATUSES_TABLE: &'static str = r#"CREATE TABLE IF NOT EXISTS statuses (
    id TEXT PRIMARY KEY,
    name TEXT NOT NULL UNIQUE,
    category TEXT NOT NULL,
    description TEXT,
    is_terminal INTEGER NOT NULL DEFAULT 0
)"#;

/// DDL text returned by [`issue_types_table`].
pub const ISSUE_TYPES_TABLE: &'static str = r#"CREATE TABLE IF NOT EXISTS issue_types (
    id TEXT PRIMARY KEY,
    name TEXT NOT NULL UNIQUE,
    description TEXT,
    icon TEXT,
    color TEXT
)"#;

/// DDL text returned by [`issue_relations_table`].
pub const ISSUE_RELATIONS_TABLE: &'static str = r#"CREATE TABLE IF NOT EXISTS issue_relations (
    issue_id TEXT NOT NULL,
    related_id TEXT NOT NULL,
    relation_type TEXT NOT NULL,
    created_at DATETIME NOT NULL DEFAULT CURRENT_TIMESTAMP,
    created_by TEXT DEFAULT '',
    PRIMARY KEY (issue_id, related_id, relation_type),
    FOREIGN KEY (issue_id) REFERENCES issues(id) ON DELETE CASCADE,
    FOREIGN KEY (related_id) REFERENCES issues(id) ON DELETE CASCADE
)"#;

/// DDL text returned by [`issue_relations_indexes`].
pub const ISSUE_RELATIONS_INDEXES: &'static str = r#"CREATE INDEX IF NOT EXISTS idx_issue_relations_issue_id ON issue_relations(issue_id);
CREATE INDEX IF NOT EXISTS idx_issue_relations_related_id ON issue_relations(related_id);
CREATE INDEX IF NOT EXISTS idx_issue_relations_type ON issue_relations(relation_type);"#;

/// DDL text returned by [`assignees_table`].
pub const ASSIGNEES_TABLE: &'static str = r#"CREATE TABLE IF NOT EXISTS assignees (
    id TEXT PRIMARY KEY,
    name TEXT NOT NULL UNIQUE,
    email TEXT,
    avatar_url TEXT,
    created_at DATETIME NOT NULL DEFAULT CURRENT_TIMESTAMP
)"#;

/// DDL text returned by [`issue_assignees_table`].
pub const ISSUE_ASSIGNEES_TABLE: &'static str = r#"CREATE TABLE IF NOT EXISTS issue_assignees (
    issue_id TEXT NOT NULL,
    assignee_id TEXT NOT NULL,
    assigned_at DATETIME NOT NULL DEFAULT CURRENT_TIMESTAMP,
    assigned_by TEXT DEFAULT '',
    PRIMARY KEY (issue_id, assignee_id),
    FOREIGN KEY (issue_id) REFERENCES issues(id) ON DELETE CASCADE,
    FOREIGN KEY (assignee_id) REFERENCES assignees(id) ON DELETE CASCADE
)"#;

/// DDL text returned by [`issue_assignees_indexes`].
pub const ISSUE_ASSIGNEES_INDEXES: &'static str = r#"CREATE INDEX IF NOT EXISTS idx_issue_assignees_issue_id ON issue_assignees(issue_id);
CREATE INDEX IF NOT EXISTS idx_issue_assignees_assignee_id ON issue_assignees(assignee_id);
CREATE INDEX IF NOT EXISTS idx_issue_assignees_assigned_at ON issue_assignees(assigned_at);"#;

/// DDL text returned by [`bead_annotations_table`].
pub const BEAD_ANNOTATIONS_TABLE: &'static str = r#"CREATE TABLE IF NOT EXISTS bead_annotations (
    bead_id TEXT NOT NULL REFERENCES issues(id) ON DELETE CASCADE,
    key     TEXT NOT NULL,
    value   TEXT NOT NULL,
    PRIMARY KEY (bead_id, key)
)"#;

/// DDL text returned by [`bead_annotations_indexes`].
pub const BEAD_ANNOTATIONS_INDEXES: &'static str = r#"CREATE INDEX IF NOT EXISTS idx_bead_annotations_key_value
    ON bead_annotations (key, value);
CREATE INDEX IF NOT EXISTS idx_bead_annotations_bead_id
    ON bead_annotations (bead_id);"#;

/// DDL text returned by [`labels_indexes`].
pub const LABELS_INDEXES: &'static str = r#"CREATE INDEX IF NOT EXISTS idx_labels_label ON labels(label);
CREATE INDEX IF NOT EXISTS idx_labels_issue ON labels(issue_id);"#;

/// DDL text returned by [`bead_labels_indexes`].
pub const BEAD_LABELS_INDEXES: &'static str = r#"CREATE INDEX IF NOT EXISTS idx_bead_labels_label ON bead_labels(label);
CREATE INDEX IF NOT EXISTS idx_bead_labels_issue ON bead_labels(bead_id);"#;

/// DDL text returned by [`priorities_indexes`].
pub const PRIORITIES_INDEXES: &'static str = "";

/// DDL text returned by [`statuses_indexes`].
pub const STATUSES_INDEXES: &'static str = "";

/// DDL text returned by [`issue_types_indexes`].
pub const ISSUE_TYPES_INDEXES: &'static str = "";

/// DDL text returned by [`assignees_indexes`].
pub const ASSIGNEES_INDEXES: &'static str = "";

/// DDL text returned by [`dirty_issues_indexes`].
pub const DIRTY_ISSUES_INDEXES: &'static str = "";

/// DDL text returned by [`dirty_issues_table`].
pub const DIRTY_ISSUES_TABLE: &'static str = r#"CREATE TABLE IF NOT EXISTS dirty_issues (
    bead_id TEXT NOT NULL PRIMARY KEY,
    marked_at DATETIME NOT NULL DEFAULT CURRENT_TIMESTAMP,
    FOREIGN KEY (bead_id) REFERENCES issues(id) ON DELETE CASCADE
)"#;

/// DDL text returned by [`blocked_issues_cache_table`].
pub const BLOCKED_ISSUES_CACHE_TABLE: &'static str = r#"CREATE TABLE IF NOT EXISTS blocked_issues_cache (
    issue_id TEXT NOT NULL PRIMARY KEY,
    blocked_by INTEGER NOT NULL DEFAULT 0,
    blocked_at DATETIME NOT NULL DEFAULT CURRENT_TIMESTAMP,
    FOREIGN KEY (issue_id) REFERENCES issues(id) ON DELETE CASCADE
)"#;

/// DDL text returned by [`blocked_issues_cache_indexes`].
pub const BLOCKED_ISSUES_CACHE_INDEXES: &'static str = r#"CREATE INDEX IF NOT EXISTS idx_blocked_issues_cache_blocked_at
    ON blocked_issues_cache (blocked_at);"#;

/// DDL text returned by [`critical_path_cache_table`].
pub const CRITICAL_PATH_CACHE_TABLE: &'static str = r#"CREATE TABLE IF NOT EXISTS critical_path_cache (
    bead_id TEXT NOT NULL PRIMARY KEY,
    epic_id TEXT,
    es INTEGER NOT NULL DEFAULT 0,
    ls INTEGER NOT NULL DEFAULT 0,
    float INTEGER NOT NULL DEFAULT 0,
    updated_at DATETIME NOT NULL DEFAULT CURRENT_TIMESTAMP,
    FOREIGN KEY (bead_id) REFERENCES issues(id) ON DELETE CASCADE,
    FOREIGN KEY (epic_id) REFERENCES issues(id) ON DELETE CASCADE
)"#;

/// DDL text returned by [`critical_path_cache_indexes`].
pub const CRITICAL_PATH_CACHE_INDEXES: &'static str = r#"CREATE INDEX IF NOT EXISTS idx_critical_path_cache_epic_id
    ON critical_path_cache (epic_id);
CREATE INDEX IF NOT EXISTS idx_critical_path_cache_float
    ON critical_path_cache (float);"#;

/// Issues table - core bead data
/// All 36 columns with br-compatible types, defaults, and CHECK constraints.
/// Includes manual_status for derived blocked status .
pub fn issues_table() -> (s: &'static str)
    ensures
        s@ == ISSUES_TABLE@,
{
    ISSUES_TABLE
}

/// Issues table indexes
pub fn issues_indexes() -> (s: &'static str)
    ensures
        s@ == ISSUES_INDEXES@,
{
    ISSUES_INDEXES
}

/// Dependencies table - tracks relationships between beads
pub fn dependencies_table() -> (s: &'static str)
    ensures
        s@ == DEPENDENCIES_TABLE@,
{
    DEPENDENCIES_TABLE
}

/// Dependencies table indexes
pub fn dependencies_indexes() -> (s: &'static str)
    ensures
        s@ == DEPENDENCIES_INDEXES@,
{
    DEPENDENCIES_INDEXES
}

/// Comments table - discussion on beads
pub fn comments_table() -> (s: &'static str)
    ensures
        s@ == COMMENTS_TABLE@,
{
    COMMENTS_TABLE
}

/// Comments table indexes
pub fn comments_indexes() -> (s: &'static str)
    ensures
        s@ == COMMENTS_INDEXES@,
{
    COMMENTS_INDEXES
}

/// Events table - audit trail for all bead mutations
pub fn events_table() -> (s: &'static str)
    ensures
        s@ == EVENTS_TABLE@,
{
    EVENTS_TABLE
}

/// Events table indexes
pub fn events_indexes() -> (s: &'static str)
    ensures
        s@ == EVENTS_INDEXES@,
{
    EVENTS_INDEXES
}

/// Labels table - direct issue-to-label mapping
/// Stores labels as strings attached directly to issues
pub fn labels_table() -> (s: &'static str)
    ensures
        s@ == LABELS_TABLE@,
{
    LABELS_TABLE
}

/// Bead labels table - alternative label storage
/// Provides a separate table for bead-specific label storage
pub fn bead_labels_table() -> (s: &'static str)
    ensures
        s@ == BEAD_LABELS_TABLE@,
{
    BEAD_LABELS_TABLE
}

/// Issue labels table - junction table for many-to-many relationship
pub fn issue_labels_table() -> (s: &'static str)
    ensures
        s@ == ISSUE_LABELS_TABLE@,
{
    ISSUE_LABELS_TABLE
}

/// Issue labels table indexes
pub fn issue_labels_indexes() -> (s: &'static str)
    ensures
        s@ == ISSUE_LABELS_INDEXES@,
{
    ISSUE_LABELS_INDEXES
}

/// Priorities table - reference data for priority levels
pub fn priorities_table() -> (s: &'static str)
    ensures
        s@ == PRIORITIES_TABLE@,
{
    PRIORITIES_TABLE
}

/// Statuses table - reference data for status values
pub fn statuses_table() -> (s: &'static str)
    ensures
        s@ == STATUSES_TABLE@,
{
    STATUSES_TABLE
}

/// Issue types table - reference data for issue type values
pub fn issue_types_table() -> (s: &'static str)
    ensures
        s@ == ISSUE_TYPES_TABLE@,
{
    ISSUE_TYPES_TABLE
}

/// Issue relations table - additional relationship types beyond dependencies
pub fn issue_relations_table() -> (s: &'static str)
    ensures
        s@ == ISSUE_RELATIONS_TABLE@,
{
    ISSUE_RELATIONS_TABLE
}

/// Issue relations table indexes
pub fn issue_relations_indexes() -> (s: &'static str)
    ensures
        s@ == ISSUE_RELATIONS_INDEXES@,
{
    ISSUE_RELATIONS_INDEXES
}

/// Assignees table - reference data for assignees
pub fn assignees_table() -> (s: &'static str)
    ensures
        s@ == ASSIGNEES_TABLE@,
{
    ASSIGNEES_TABLE
}

/// Issue assignees table - junction table for tracking assignments
pub fn issue_assignees_table() -> (s: &'static str)
    ensures
        s@ == ISSUE_ASSIGNEES_TABLE@,
{
    ISSUE_ASSIGNEES_TABLE
}

/// Issue assignees table indexes
pub fn issue_assignees_indexes() -> (s: &'static str)
    ensures
        s@ == ISSUE_ASSIGNEES_INDEXES@,
{
    ISSUE_ASSIGNEES_INDEXES
}

/// Bead annotations table - bf-only table for arbitrary key-value metadata
/// IMPORTANT: This is a SEPARATE table (not a column on issues) because br's
/// issues_column_order_matches() check triggers rebuild_issues_table() when
/// the column count differs, which would silently destroy any extra column.
pub fn bead_annotations_table() -> (s: &'static str)
    ensures
        s@ == BEAD_ANNOTATIONS_TABLE@,
{
    BEAD_ANNOTATIONS_TABLE
}

/// Bead annotations table indexes
pub fn bead_annotations_indexes() -> (s: &'static str)
    ensures
        s@ == BEAD_ANNOTATIONS_INDEXES@,
{
    BEAD_ANNOTATIONS_INDEXES
}

/// Labels table indexes
pub fn labels_indexes() -> (s: &'static str)
    ensures
        s@ == LABELS_INDEXES@,
{
    LABELS_INDEXES
}

/// Bead labels table indexes
pub fn bead_labels_indexes() -> (s: &'static str)
    ensures
        s@ == BEAD_LABELS_INDEXES@,
{
    BEAD_LABELS_INDEXES
}

/// Priorities table indexes (minimal - PK and UNIQUE constraints sufficient)
pub fn priorities_indexes() -> (s: &'static str)
    ensures
        s@ == PRIORITIES_INDEXES@,
{
    PRIORITIES_INDEXES
}

/// Statuses table indexes (minimal - PK and UNIQUE constraints sufficient)
pub fn statuses_indexes() -> (s: &'static str)
    ensures
        s@ == STATUSES_INDEXES@,
{
    STATUSES_INDEXES
}

/// Issue types table indexes (minimal - PK and UNIQUE constraints sufficient)
pub fn issue_types_indexes() -> (s: &'static str)
    ensures
        s@ == ISSUE_TYPES_INDEXES@,
{
    ISSUE_TYPES_INDEXES
}

/// Assignees table indexes (minimal - PK and UNIQUE constraints sufficient)
pub fn assignees_indexes() -> (s: &'static str)
    ensures
        s@ == ASSIGNEES_INDEXES@,
{
    ASSIGNEES_INDEXES
}

/// Dirty issues table indexes (minimal - PK sufficient)
pub fn dirty_issues_indexes() -> (s: &'static str)
    ensures
        s@ == DIRTY_ISSUES_INDEXES@,
{
    DIRTY_ISSUES_INDEXES
}

/// Dirty issues table - tracks beads that need flushing to JSONL
pub fn dirty_issues_table() -> (s: &'static str)
    ensures
        s@ == DIRTY_ISSUES_TABLE@,
{
    DIRTY_ISSUES_TABLE
}

/// Blocked issues cache table - materialized view for derived blocked status 
pub fn blocked_issues_cache_table() -> (s: &'static str)
    ensures
        s@ == BLOCKED_ISSUES_CACHE_TABLE@,
{
    BLOCKED_ISSUES_CACHE_TABLE
}

/// Blocked issues cache indexes
pub fn blocked_issues_cache_indexes() -> (s: &'static str)
    ensures
        s@ == BLOCKED_ISSUES_CACHE_INDEXES@,
{
    BLOCKED_ISSUES_CACHE_INDEXES
}

/// Critical path cache table 
pub fn critical_path_cache_table() -> (s: &'static str)
    ensures
        s@ == CRITICAL_PATH_CACHE_TABLE@,
{
    CRITICAL_PATH_CACHE_TABLE
}

/// Critical path cache indexes
pub fn critical_path_cache_indexes() -> (s: &'static str)
    ensures
        s@ == CRITICAL_PATH_CACHE_INDEXES@,
{
    CRITICAL_PATH_CACHE_INDEXES
}

/// Same DDL as [`issues_table`], under the `table_` naming.
pub fn table_issues() -> (s: &'static str)
    ensures
        s@ == ISSUES_TABLE@,
{
    issues_table()
}

/// Same DDL as [`dependencies_table`], under the `table_` naming.
pub fn table_dependencies() -> (s: &'static str)
    ensures
        s@ == DEPENDENCIES_TABLE@,
{
    dependencies_table()
}

/// Same DDL as [`comments_table`], under the `table_` naming.
pub fn table_comments() -> (s: &'static str)
    ensures
        s@ == COMMENTS_TABLE@,
{
    comments_table()
}

/// Same DDL as [`events_table`], under the `table_` naming.
pub fn table_events() -> (s: &'static str)
    ensures
        s@ == EVENTS_TABLE@,
{
    events_table()
}

/// Same DDL as [`labels_table`], under the `table_` naming.
pub fn table_labels() -> (s: &'static str)
    ensures
        s@ == LABELS_TABLE@,
{
    labels_table()
}

/// Same DDL as [`issue_labels_table`], under the `table_` naming.
pub fn table_issue_labels() -> (s: &'static str)
    ensures
        s@ == ISSUE_LABELS_TABLE@,
{
    issue_labels_table()
}

/// Same DDL as [`assignees_table`], under the `table_` naming.
pub fn table_assignees() -> (s: &'static str)
    ensures
        s@ == ASSIGNEES_TABLE@,
{
    assignees_table()
}

/// Same DDL as [`issue_assignees_table`], under the `table_` naming.
pub fn table_issue_assignees() -> (s: &'static str)
    ensures
        s@ == ISSUE_ASSIGNEES_TABLE@,
{
    issue_assignees_table()
}

/// Same DDL as [`issue_relations_table`], under the `table_` naming.
pub fn table_issue_relations() -> (s: &'static str)
    ensures
        s@ == ISSUE_RELATIONS_TABLE@,
{
    issue_relations_table()
}

/// Same DDL as [`priorities_table`], under the `table_` naming.
pub fn table_priorities() -> (s: &'static str)
    ensures
        s@ == PRIORITIES_TABLE@,
{
    priorities_table()
}

/// Same DDL as [`statuses_table`], under the `table_` naming.
pub fn table_statuses() -> (s: &'static str)
    ensures
        s@ == STATUSES_TABLE@,
{
    statuses_table()
}

/// Same DDL as [`issue_types_table`], under the `table_` naming.
pub fn table_issue_types() -> (s: &'static str)
    ensures
        s@ == ISSUE_TYPES_TABLE@,
{
    issue_types_table()
}

/// Same DDL as [`bead_annotations_table`], under the `table_` naming.
pub fn table_bead_annotations() -> (s: &'static str)
    ensures
        s@ == BEAD_ANNOTATIONS_TABLE@,
{
    bead_annotations_table()
}

/// The complete schema script: every table and index, in creation order.
pub const SCHEMA_SQL: &'static str = r#"
-- Issues table
CREATE TABLE IF NOT EXISTS issues (
    id TEXT PRIMARY KEY,
    content_hash TEXT,
    title TEXT NOT NULL CHECK(length(title) <= 500),
    description TEXT NOT NULL DEFAULT '',
    design TEXT NOT NULL DEFAULT '',
    acceptance_criteria TEXT NOT NULL DEFAULT '',
    notes TEXT NOT NULL DEFAULT '',
    status TEXT NOT NULL DEFAULT 'open',
    priority INTEGER NOT NULL DEFAULT 2 CHECK(priority >= 0 AND priority <= 4),
    issue_type TEXT NOT NULL DEFAULT 'task',
    assignee TEXT,
    owner TEXT DEFAULT '',
    estimated_minutes INTEGER,
    created_at DATETIME NOT NULL DEFAULT CURRENT_TIMESTAMP,
    created_by TEXT DEFAULT '',
    updated_at DATETIME NOT NULL DEFAULT CURRENT_TIMESTAMP,
    closed_at DATETIME,
    close_reason TEXT DEFAULT '',
    closed_by_session TEXT DEFAULT '',
    due_at DATETIME,
    defer_until DATETIME,
    external_ref TEXT,
    source_system TEXT DEFAULT '',
    source_repo TEXT NOT NULL DEFAULT '.',
    deleted_at DATETIME,
    deleted_by TEXT DEFAULT '',
    delete_reason TEXT DEFAULT '',
    original_type TEXT DEFAULT '',
    compaction_level INTEGER DEFAULT 0,
    compacted_at DATETIME,
    compacted_at_commit TEXT,
    original_size INTEGER,
    sender TEXT DEFAULT '',
    ephemeral INTEGER NOT NULL DEFAULT 0,
    pinned INTEGER NOT NULL DEFAULT 0,
    is_template INTEGER NOT NULL DEFAULT 0,
    manual_status TEXT DEFAULT NULL,
    CHECK (
        (status = 'closed' AND closed_at IS NOT NULL) OR
        (status = 'tombstone') OR
        (status NOT IN ('closed', 'tombstone') AND closed_at IS NULL)
    )
);

-- Issues indexes
CREATE INDEX IF NOT EXISTS idx_issues_status ON issues(status);
CREATE INDEX IF NOT EXISTS idx_issues_priority ON issues(priority);
CREATE INDEX IF NOT EXISTS idx_issues_issue_type ON issues(issue_type);
CREATE INDEX IF NOT EXISTS idx_issues_assignee ON issues(assignee) WHERE assignee IS NOT NULL;
CREATE INDEX IF NOT EXISTS idx_issues_created_at ON issues(created_at);
CREATE INDEX IF NOT EXISTS idx_issues_updated_at ON issues(updated_at);
CREATE INDEX IF NOT EXISTS idx_issues_content_hash ON issues(content_hash);
CREATE INDEX IF NOT EXISTS idx_issues_external_ref ON issues(external_ref) WHERE external_ref IS NOT NULL;
CREATE UNIQUE INDEX IF NOT EXISTS idx_issues_external_ref_unique ON issues(external_ref) WHERE external_ref IS NOT NULL;
CREATE INDEX IF NOT EXISTS idx_issues_ephemeral ON issues(ephemeral) WHERE ephemeral = 1;
CREATE INDEX IF NOT EXISTS idx_issues_pinned ON issues(pinned) WHERE pinned = 1;
CREATE INDEX IF NOT EXISTS idx_issues_tombstone ON issues(status) WHERE status = 'tombstone';
CREATE INDEX IF NOT EXISTS idx_issues_due_at ON issues(due_at) WHERE due_at IS NOT NULL;
CREATE INDEX IF NOT EXISTS idx_issues_defer_until ON issues(defer_until) WHERE defer_until IS NOT NULL;
CREATE INDEX IF NOT EXISTS idx_issues_ready
    ON issues(status, priority, created_at)
    WHERE status = 'open'
    AND ephemeral = 0
    AND pinned = 0
    AND is_template = 0;
CREATE INDEX IF NOT EXISTS idx_issues_list_active_order
    ON issues(priority, created_at DESC)
    WHERE status NOT IN ('closed', 'tombstone')
    AND (is_template = 0 OR is_template IS NULL);

-- Dependencies table
CREATE TABLE IF NOT EXISTS dependencies (
    issue_id TEXT NOT NULL,
    depends_on_id TEXT NOT NULL,
    type TEXT NOT NULL DEFAULT 'blocks',
    created_at DATETIME NOT NULL DEFAULT CURRENT_TIMESTAMP,
    created_by TEXT NOT NULL DEFAULT '',
    metadata TEXT DEFAULT '{}',
    thread_id TEXT DEFAULT '',
    PRIMARY KEY (issue_id, depends_on_id),
    FOREIGN KEY (issue_id) REFERENCES issues(id) ON DELETE CASCADE
);

-- Dependencies indexes
CREATE INDEX IF NOT EXISTS idx_dependencies_issue ON dependencies(issue_id);
CREATE INDEX IF NOT EXISTS idx_dependencies_depends_on ON dependencies(depends_on_id);
CREATE INDEX IF NOT EXISTS idx_dependencies_type ON dependencies(type);
CREATE INDEX IF NOT EXISTS idx_dependencies_depends_on_type ON dependencies(depends_on_id, type);
CREATE INDEX IF NOT EXISTS idx_dependencies_thread ON dependencies(thread_id) WHERE thread_id != '';
CREATE INDEX IF NOT EXISTS idx_dependencies_blocking
    ON dependencies(depends_on_id, issue_id)
    WHERE (type = 'blocks' OR type = 'parent-child' OR type = 'conditional-blocks' OR type = 'waits-for');

-- Comments table
CREATE TABLE IF NOT EXISTS comments (
    id INTEGER PRIMARY KEY AUTOINCREMENT,
    issue_id TEXT NOT NULL,
    author TEXT NOT NULL,
    text TEXT NOT NULL,
    created_at DATETIME NOT NULL DEFAULT CURRENT_TIMESTAMP,
    FOREIGN KEY (issue_id) REFERENCES issues(id) ON DELETE CASCADE
);

-- Comments indexes
CREATE INDEX IF NOT EXISTS idx_comments_issue ON comments(issue_id);
CREATE INDEX IF NOT EXISTS idx_comments_created_at ON comments(created_at);

-- Events table
CREATE TABLE IF NOT EXISTS events (
    id INTEGER PRIMARY KEY AUTOINCREMENT,
    issue_id TEXT NOT NULL,
    event_type TEXT NOT NULL,
    actor TEXT NOT NULL DEFAULT '',
    old_value TEXT,
    new_value TEXT,
    comment TEXT,
    created_at DATETIME NOT NULL DEFAULT CURRENT_TIMESTAMP,
    FOREIGN KEY (issue_id) REFERENCES issues(id) ON DELETE CASCADE
);

-- Events indexes
CREATE INDEX IF NOT EXISTS idx_events_issue ON events(issue_id);
CREATE INDEX IF NOT EXISTS idx_events_type ON events(event_type);
CREATE INDEX IF NOT EXISTS idx_events_created_at ON events(created_at);
CREATE INDEX IF NOT EXISTS idx_events_actor ON events(actor) WHERE actor != '';

-- Labels table - direct issue-to-label mapping
CREATE TABLE IF NOT EXISTS labels (
    issue_id TEXT NOT NULL,
    label TEXT NOT NULL,
    PRIMARY KEY (issue_id, label),
    FOREIGN KEY (issue_id) REFERENCES issues(id) ON DELETE CASCADE
);

-- Labels indexes
CREATE INDEX IF NOT EXISTS idx_labels_label ON labels(label);
CREATE INDEX IF NOT EXISTS idx_labels_issue ON labels(issue_id);

-- Bead labels table - alternative label storage
CREATE TABLE IF NOT EXISTS bead_labels (
    bead_id TEXT NOT NULL REFERENCES issues(id) ON DELETE CASCADE,
    label    TEXT NOT NULL,
    PRIMARY KEY (bead_id, label)
);

-- Bead labels indexes
CREATE INDEX IF NOT EXISTS idx_bead_labels_label ON bead_labels(label);
CREATE INDEX IF NOT EXISTS idx_bead_labels_issue ON bead_labels(bead_id);

-- Issue labels junction table
CREATE TABLE IF NOT EXISTS issue_labels (
    issue_id TEXT NOT NULL,
    label_id TEXT NOT NULL,
    created_at DATETIME NOT NULL DEFAULT CURRENT_TIMESTAMP,
    PRIMARY KEY (issue_id, label_id),
    FOREIGN KEY (issue_id) REFERENCES issues(id) ON DELETE CASCADE
);

-- Issue labels indexes
CREATE INDEX IF NOT EXISTS idx_issue_labels_issue_id ON issue_labels(issue_id);
CREATE INDEX IF NOT EXISTS idx_issue_labels_label_id ON issue_labels(label_id);

-- Priorities reference table
CREATE TABLE IF NOT EXISTS priorities (
    id INTEGER PRIMARY KEY,
    name TEXT NOT NULL UNIQUE,
    value INTEGER NOT NULL,
    color TEXT,
    description TEXT
);

-- Statuses reference table
CREATE TABLE IF NOT EXISTS statuses (
    id TEXT PRIMARY KEY,
    name TEXT NOT NULL UNIQUE,
    category TEXT NOT NULL,
    description TEXT,
    is_terminal INTEGER NOT NULL DEFAULT 0
);

-- Issue types reference table
CREATE TABLE IF NOT EXISTS issue_types (
    id TEXT PRIMARY KEY,
    name TEXT NOT NULL UNIQUE,
    description TEXT,
    icon TEXT,
    color TEXT
);

-- Issue relations table
CREATE TABLE IF NOT EXISTS issue_relations (
    issue_id TEXT NOT NULL,
    related_id TEXT NOT NULL,
    relation_type TEXT NOT NULL,
    created_at DATETIME NOT NULL DEFAULT CURRENT_TIMESTAMP,
    created_by TEXT DEFAULT '',
    PRIMARY KEY (issue_id, related_id, relation_type),
    FOREIGN KEY (issue_id) REFERENCES issues(id) ON DELETE CASCADE,
    FOREIGN KEY (related_id) REFERENCES issues(id) ON DELETE CASCADE
);

-- Issue relations indexes
CREATE INDEX IF NOT EXISTS idx_issue_relations_issue_id ON issue_relations(issue_id);
CREATE INDEX IF NOT EXISTS idx_issue_relations_related_id ON issue_relations(related_id);
CREATE INDEX IF NOT EXISTS idx_issue_relations_type ON issue_relations(relation_type);

-- Assignees reference table
CREATE TABLE IF NOT EXISTS assignees (
    id TEXT PRIMARY KEY,
    name TEXT NOT NULL UNIQUE,
    email TEXT,
    avatar_url TEXT,
    created_at DATETIME NOT NULL DEFAULT CURRENT_TIMESTAMP
);

-- Issue assignees junction table
CREATE TABLE IF NOT EXISTS issue_assignees (
    issue_id TEXT NOT NULL,
    assignee_id TEXT NOT NULL,
    assigned_at DATETIME NOT NULL DEFAULT CURRENT_TIMESTAMP,
    assigned_by TEXT DEFAULT '',
    PRIMARY KEY (issue_id, assignee_id),
    FOREIGN KEY (issue_id) REFERENCES issues(id) ON DELETE CASCADE,
    FOREIGN KEY (assignee_id) REFERENCES assignees(id) ON DELETE CASCADE
);

-- Issue assignees indexes
CREATE INDEX IF NOT EXISTS idx_issue_assignees_issue_id ON issue_assignees(issue_id);
CREATE INDEX IF NOT EXISTS idx_issue_assignees_assignee_id ON issue_assignees(assignee_id);
CREATE INDEX IF NOT EXISTS idx_issue_assignees_assigned_at ON issue_assignees(assigned_at);

-- Bead annotations table (bf-only, never touched by br)
CREATE TABLE IF NOT EXISTS bead_annotations (
    bead_id TEXT NOT NULL REFERENCES issues(id) ON DELETE CASCADE,
    key     TEXT NOT NULL,
    value   TEXT NOT NULL,
    PRIMARY KEY (bead_id, key)
);

-- Bead annotations indexes
CREATE INDEX IF NOT EXISTS idx_bead_annotations_key_value
    ON bead_annotations (key, value);
CREATE INDEX IF NOT EXISTS idx_bead_annotations_bead_id
    ON bead_annotations (bead_id);

-- Dirty issues table (tracks beads that need flushing to JSONL)
CREATE TABLE IF NOT EXISTS dirty_issues (
    bead_id TEXT NOT NULL PRIMARY KEY,
    marked_at DATETIME NOT NULL DEFAULT CURRENT_TIMESTAMP,
    FOREIGN KEY (bead_id) REFERENCES issues(id) ON DELETE CASCADE
);

-- Critical path cache table (stores computed CPM float values for beads)
CREATE TABLE IF NOT EXISTS critical_path_cache (
    bead_id TEXT NOT NULL PRIMARY KEY,
    epic_id TEXT,
    es INTEGER NOT NULL DEFAULT 0,
    ls INTEGER NOT NULL DEFAULT 0,
    float INTEGER NOT NULL DEFAULT 0,
    updated_at DATETIME NOT NULL DEFAULT CURRENT_TIMESTAMP,
    FOREIGN KEY (bead_id) REFERENCES issues(id) ON DELETE CASCADE,
    FOREIGN KEY (epic_id) REFERENCES issues(id) ON DELETE CASCADE
);

-- Critical path cache indexes
CREATE INDEX IF NOT EXISTS idx_critical_path_cache_epic_id
    ON critical_path_cache (epic_id);
CREATE INDEX IF NOT EXISTS idx_critical_path_cache_float
    ON critical_path_cache (float);

-- Blocked issues cache table (materialized view of blocked beads for Phase 7.8)
CREATE TABLE IF NOT EXISTS blocked_issues_cache (
    issue_id TEXT NOT NULL PRIMARY KEY,
    blocked_by INTEGER NOT NULL DEFAULT 0,
    blocked_at DATETIME NOT NULL DEFAULT CURRENT_TIMESTAMP,
    FOREIGN KEY (issue_id) REFERENCES issues(id) ON DELETE CASCADE
);

-- Blocked issues cache indexes
CREATE INDEX IF NOT EXISTS idx_blocked_issues_cache_blocked_at
    ON blocked_issues_cache (blocked_at);
"#;

/// The table DDL strings, in dependency order.
pub open spec fn table_ddls() -> Seq<Seq<char>> {
    seq![
        ISSUES_TABLE@,
        DEPENDENCIES_TABLE@,
        COMMENTS_TABLE@,
        EVENTS_TABLE@,
        LABELS_TABLE@,
        ISSUE_LABELS_TABLE@,
        PRIORITIES_TABLE@,
        STATUSES_TABLE@,
        ISSUE_TYPES_TABLE@,
        ISSUE_RELATIONS_TABLE@,
        ASSIGNEES_TABLE@,
        ISSUE_ASSIGNEES_TABLE@,
        BEAD_ANNOTATIONS_TABLE@,
        DIRTY_ISSUES_TABLE@,
        BLOCKED_ISSUES_CACHE_TABLE@,
        CRITICAL_PATH_CACHE_TABLE@,
    ]
}

/// All 16 table DDL strings, in dependency order.
pub fn all_tables() -> (v: Vec<&'static str>)
    ensures
        v@.map_values(|s: &'static str| s@) == table_ddls(),
{
    let mut v: Vec<&'static str> = Vec::new();
    v.push(issues_table());
    v.push(dependencies_table());
    v.push(comments_table());
    v.push(events_table());
    v.push(labels_table());
    v.push(issue_labels_table());
    v.push(priorities_table());
    v.push(statuses_table());
    v.push(issue_types_table());
    v.push(issue_relations_table());
    v.push(assignees_table());
    v.push(issue_assignees_table());
    v.push(bead_annotations_table());
    v.push(dirty_issues_table());
    v.push(blocked_issues_cache_table());
    v.push(critical_path_cache_table());
    assert(v@.map_values(|s: &'static str| s@) =~= table_ddls());
    v
}

/// The index DDL groups, in dependency order.
pub open spec fn index_ddls() -> Seq<Seq<char>> {
    seq![
        ISSUES_INDEXES@,
        DEPENDENCIES_INDEXES@,
        COMMENTS_INDEXES@,
        EVENTS_INDEXES@,
        LABELS_INDEXES@,
        ISSUE_LABELS_INDEXES@,
        PRIORITIES_INDEXES@,
        STATUSES_INDEXES@,
        ISSUE_TYPES_INDEXES@,
        ISSUE_RELATIONS_INDEXES@,
        ASSIGNEES_INDEXES@,
        ISSUE_ASSIGNEES_INDEXES@,
        BEAD_ANNOTATIONS_INDEXES@,
        DIRTY_ISSUES_INDEXES@,
        BLOCKED_ISSUES_CACHE_INDEXES@,
        CRITICAL_PATH_CACHE_INDEXES@,
    ]
}

/// All 16 index DDL groups, in dependency order.
pub fn all_indexes() -> (v: Vec<&'static str>)
    ensures
        v@.map_values(|s: &'static str| s@) == index_ddls(),
{
    let mut v: Vec<&'static str> = Vec::new();
    v.push(issues_indexes());
    v.push(dependencies_indexes());
    v.push(comments_indexes());
    v.push(events_indexes());
    v.push(labels_indexes());
    v.push(issue_labels_indexes());
    v.push(priorities_indexes());
    v.push(statuses_indexes());
    v.push(issue_types_indexes());
    v.push(issue_relations_indexes());
    v.push(assignees_indexes());
    v.push(issue_assignees_indexes());
    v.push(bead_annotations_indexes());
    v.push(dirty_issues_indexes());
    v.push(blocked_issues_cache_indexes());
    v.push(critical_path_cache_indexes());
    assert(v@.map_values(|s: &'static str| s@) =~= index_ddls());
    v
}

} // verus!
