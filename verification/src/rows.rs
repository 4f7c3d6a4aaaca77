//! The stored row of an issue: the values bound when an issue is created
//! and when an issue read from the JSONL export replaces the stored one.
//!
//! An issue is given with its times already rendered as RFC 3339 text, and
//! its status and type as the text under which the table stores them. An
//! absent optional field binds NULL.

use vstd::prelude::*;
use crate::changes::{actor_or, value_view, value_views, SqlValue, ValueView};
use crate::text::to_owned_string;
use crate::children::{
    annotation_rows, comment_rows, dependency_rows, event_rows, label_rows, push_annotation_rows,
    push_comment_rows, push_dependency_rows, push_event_rows, push_label_rows, statement_views,
    CommentRecord, DependencyRecord, EventEntry, Statement, StatementView, BEAD_LABEL_INSERT_SQL,
    CREATED_EVENT_SQL, LABEL_INSERT_SQL,
};

verus! {

/// The statement that stores a new issue: the id, the content hash, then
/// every other column in table order.
pub const INSERT_ISSUE_SQL: &'static str = "INSERT INTO issues (
                    id, content_hash, title, description, design, acceptance_criteria, notes,
                    status, priority, issue_type, assignee, owner, estimated_minutes,
                    created_at, created_by, updated_at, closed_at, close_reason,
                    closed_by_session, due_at, defer_until, external_ref, source_system,
                    source_repo, deleted_at, deleted_by, delete_reason, original_type,
                    compaction_level, compacted_at, compacted_at_commit, original_size,
                    sender, ephemeral, pinned, is_template
                ) VALUES (?1, ?2, ?3, ?4, ?5, ?6, ?7, ?8, ?9, ?10, ?11, ?12, ?13, ?14, ?15,
                          ?16, ?17, ?18, ?19, ?20, ?21, ?22, ?23, ?24, ?25, ?26, ?27, ?28,
                          ?29, ?30, ?31, ?32, ?33, ?34, ?35, ?36)";

/// The statement that replaces every column of a stored issue: the content
/// hash, every other column in table order, and the id last.
pub const UPDATE_FROM_JSON_SQL: &'static str = "UPDATE issues SET
                    content_hash = ?1, title = ?2, description = ?3, design = ?4,
                    acceptance_criteria = ?5, notes = ?6, status = ?7, priority = ?8,
                    issue_type = ?9, assignee = ?10, owner = ?11, estimated_minutes = ?12,
                    created_at = ?13, created_by = ?14, updated_at = ?15, closed_at = ?16,
                    close_reason = ?17, closed_by_session = ?18, due_at = ?19, defer_until = ?20,
                    external_ref = ?21, source_system = ?22, source_repo = ?23,
                    deleted_at = ?24, deleted_by = ?25, delete_reason = ?26, original_type = ?27,
                    compaction_level = ?28, compacted_at = ?29, compacted_at_commit = ?30,
                    original_size = ?31, sender = ?32, ephemeral = ?33, pinned = ?34, is_template = ?35
                 WHERE id = ?36";

/// An issue as the issues table stores it.
#[derive(Debug, Clone)]
pub struct IssueRecord {
    pub id: String,
    pub content_hash: Option<String>,
    pub title: String,
    pub description: Option<String>,
    pub design: Option<String>,
    pub acceptance_criteria: Option<String>,
    pub notes: Option<String>,
    pub status: String,
    pub priority: i32,
    pub issue_type: String,
    pub assignee: Option<String>,
    pub owner: Option<String>,
    pub estimated_minutes: Option<i32>,
    pub created_at: String,
    pub created_by: Option<String>,
    pub updated_at: String,
    pub closed_at: Option<String>,
    pub close_reason: Option<String>,
    pub closed_by_session: Option<String>,
    pub due_at: Option<String>,
    pub defer_until: Option<String>,
    pub external_ref: Option<String>,
    pub source_system: Option<String>,
    pub source_repo: Option<String>,
    pub deleted_at: Option<String>,
    pub deleted_by: Option<String>,
    pub delete_reason: Option<String>,
    pub original_type: Option<String>,
    pub compaction_level: Option<i32>,
    pub compacted_at: Option<String>,
    pub compacted_at_commit: Option<String>,
    pub original_size: Option<i64>,
    pub sender: Option<String>,
    pub ephemeral: bool,
    pub pinned: bool,
    pub is_template: bool,
    /// The labels, stored in both label tables.
    pub labels: Vec<String>,
    pub dependencies: Vec<DependencyRecord>,
    pub comments: Vec<CommentRecord>,
    /// Key and value of each annotation.
    pub annotations: Vec<(String, String)>,
    /// The events the issue carries.
    pub events: Vec<EventEntry>,
}

/// An optional text: the text, or NULL.
pub open spec fn opt_text(o: Option<String>) -> ValueView {
    match o {
        Some(s) => ValueView::Text(s@),
        None => ValueView::Null,
    }
}

/// An optional text, or `default` when absent.
pub open spec fn text_or(o: Option<String>, default: Seq<char>) -> ValueView {
    match o {
        Some(s) => ValueView::Text(s@),
        None => ValueView::Text(default),
    }
}

/// An optional integer: the integer, or NULL.
pub open spec fn opt_int(o: Option<i32>) -> ValueView {
    match o {
        Some(i) => ValueView::Integer(i as int),
        None => ValueView::Null,
    }
}

/// A flag stored as 1 or 0.
pub open spec fn flag(b: bool) -> ValueView {
    ValueView::Integer(if b { 1 } else { 0 })
}

/// The title, the four free texts, status, priority and type, and the assignee.
pub open spec fn columns_text(r: IssueRecord) -> Seq<ValueView> {
    seq![
        ValueView::Text(r.title@),
        text_or(r.description, ""@),
        text_or(r.design, ""@),
        text_or(r.acceptance_criteria, ""@),
        text_or(r.notes, ""@),
        ValueView::Text(r.status@),
        ValueView::Integer(r.priority as int),
        ValueView::Text(r.issue_type@),
        opt_text(r.assignee),
    ]
}

/// Owner, estimate, creation and update, and the close fields.
pub open spec fn columns_people(r: IssueRecord) -> Seq<ValueView> {
    seq![
        opt_text(r.owner),
        opt_int(r.estimated_minutes),
        ValueView::Text(r.created_at@),
        opt_text(r.created_by),
        ValueView::Text(r.updated_at@),
        opt_text(r.closed_at),
        opt_text(r.close_reason),
        opt_text(r.closed_by_session),
        opt_text(r.due_at),
    ]
}

/// Due and deferral times, references and sources, deletion.
pub open spec fn columns_times(r: IssueRecord) -> Seq<ValueView> {
    seq![
        opt_text(r.defer_until),
        opt_text(r.external_ref),
        opt_text(r.source_system),
        text_or(r.source_repo, "."@),
        opt_text(r.deleted_at),
        opt_text(r.deleted_by),
        opt_text(r.delete_reason),
        opt_text(r.original_type),
    ]
}

/// Original type, compaction, size, sender and the three flags.
pub open spec fn columns_rest(r: IssueRecord) -> Seq<ValueView> {
    seq![
        opt_int(r.compaction_level),
        opt_text(r.compacted_at),
        opt_text(r.compacted_at_commit),
        match r.original_size {
                Some(i) => ValueView::Integer(i as int),
                None => ValueView::Null,
            },
        opt_text(r.sender),
        flag(r.ephemeral),
        flag(r.pinned),
        flag(r.is_template),
    ]
}

/// The values of the columns after the content hash, in table order:
/// missing free texts are stored empty and a missing source repository as
/// ".".
pub open spec fn issue_columns(r: IssueRecord) -> Seq<ValueView> {
    columns_text(r) + columns_people(r) + columns_times(r) + columns_rest(r)
}

/// The row values of an issue as given: its content hash (NULL when it has
/// none) and the other columns.
pub open spec fn issue_row_values(r: IssueRecord) -> Seq<ValueView> {
    seq![opt_text(r.content_hash)] + issue_columns(r)
}

/// The content hash stored for an issue: its own, or the one computed from
/// its content when it has none.
pub open spec fn stored_hash(r: IssueRecord, computed: Seq<char>) -> Seq<char> {
    match r.content_hash {
        Some(h) => h@,
        None => computed,
    }
}

fn opt_text_value(o: &Option<String>) -> (v: SqlValue)
    ensures
        value_view(v) == opt_text(*o),
{
    match o {
        Some(s) => SqlValue::Text(s.clone()),
        None => SqlValue::Null,
    }
}

fn text_or_value(o: &Option<String>, default: &str) -> (v: SqlValue)
    ensures
        value_view(v) == text_or(*o, default@),
{
    match o {
        Some(s) => SqlValue::Text(s.clone()),
        None => SqlValue::Text(to_owned_string(default)),
    }
}

fn opt_int_value(o: Option<i32>) -> (v: SqlValue)
    ensures
        value_view(v) == opt_int(o),
{
    match o {
        Some(i) => SqlValue::Integer(i as i64),
        None => SqlValue::Null,
    }
}

fn flag_value(b: bool) -> (v: SqlValue)
    ensures
        value_view(v) == flag(b),
{
    SqlValue::Integer(if b { 1 } else { 0 })
}

fn push_value(v: &mut Vec<SqlValue>, x: SqlValue)
    ensures
        value_views(final(v)@) == value_views(old(v)@).push(value_view(x)),
{
    let ghost x_view = value_view(x);
    v.push(x);
    assert(value_views(v@) =~= value_views(old(v)@).push(x_view));
}

fn push_columns_text(v: &mut Vec<SqlValue>, r: &IssueRecord)
    ensures
        value_views(final(v)@) == value_views(old(v)@) + columns_text(*r),
{
    push_value(v, SqlValue::Text(r.title.clone()));
    push_value(v, text_or_value(&r.description, ""));
    push_value(v, text_or_value(&r.design, ""));
    push_value(v, text_or_value(&r.acceptance_criteria, ""));
    push_value(v, text_or_value(&r.notes, ""));
    push_value(v, SqlValue::Text(r.status.clone()));
    push_value(v, SqlValue::Integer(r.priority as i64));
    push_value(v, SqlValue::Text(r.issue_type.clone()));
    push_value(v, opt_text_value(&r.assignee));
    assert(value_views(v@) =~= value_views(old(v)@) + columns_text(*r));
}

fn push_columns_people(v: &mut Vec<SqlValue>, r: &IssueRecord)
    ensures
        value_views(final(v)@) == value_views(old(v)@) + columns_people(*r),
{
    push_value(v, opt_text_value(&r.owner));
    push_value(v, opt_int_value(r.estimated_minutes));
    push_value(v, SqlValue::Text(r.created_at.clone()));
    push_value(v, opt_text_value(&r.created_by));
    push_value(v, SqlValue::Text(r.updated_at.clone()));
    push_value(v, opt_text_value(&r.closed_at));
    push_value(v, opt_text_value(&r.close_reason));
    push_value(v, opt_text_value(&r.closed_by_session));
    push_value(v, opt_text_value(&r.due_at));
    assert(value_views(v@) =~= value_views(old(v)@) + columns_people(*r));
}

fn push_columns_times(v: &mut Vec<SqlValue>, r: &IssueRecord)
    ensures
        value_views(final(v)@) == value_views(old(v)@) + columns_times(*r),
{
    push_value(v, opt_text_value(&r.defer_until));
    push_value(v, opt_text_value(&r.external_ref));
    push_value(v, opt_text_value(&r.source_system));
    push_value(v, text_or_value(&r.source_repo, "."));
    push_value(v, opt_text_value(&r.deleted_at));
    push_value(v, opt_text_value(&r.deleted_by));
    push_value(v, opt_text_value(&r.delete_reason));
    push_value(v, opt_text_value(&r.original_type));
    assert(value_views(v@) =~= value_views(old(v)@) + columns_times(*r));
}

fn push_columns_rest(v: &mut Vec<SqlValue>, r: &IssueRecord)
    ensures
        value_views(final(v)@) == value_views(old(v)@) + columns_rest(*r),
{
    push_value(v, opt_int_value(r.compaction_level));
    push_value(v, opt_text_value(&r.compacted_at));
    push_value(v, opt_text_value(&r.compacted_at_commit));
    push_value(v, match r.original_size {
        Some(i) => SqlValue::Integer(i),
        None => SqlValue::Null,
    });
    push_value(v, opt_text_value(&r.sender));
    push_value(v, flag_value(r.ephemeral));
    push_value(v, flag_value(r.pinned));
    push_value(v, flag_value(r.is_template));
    assert(value_views(v@) =~= value_views(old(v)@) + columns_rest(*r));
}

/// Push the values of the columns after the content hash.
fn push_issue_columns(v: &mut Vec<SqlValue>, r: &IssueRecord)
    ensures
        value_views(final(v)@) == value_views(old(v)@) + issue_columns(*r),
{
    push_columns_text(v, r);
    push_columns_people(v, r);
    push_columns_times(v, r);
    push_columns_rest(v, r);
    assert(value_views(v@) =~= value_views(old(v)@) + issue_columns(*r));
}


/// The rows stored beside an issue when it is created or replaced from the
/// JSONL export without its annotations: its labels (in both label tables),
/// its dependencies and its comments.
pub open spec fn core_child_rows(r: IssueRecord) -> Seq<StatementView> {
    label_rows(LABEL_INSERT_SQL@, r.id@, r.labels@) + label_rows(BEAD_LABEL_INSERT_SQL@, r.id@, r.labels@)
        + dependency_rows(r.dependencies@) + comment_rows(r.comments@)
}

/// The rows stored beside an issue: those of [`core_child_rows`], then its
/// annotations.
pub open spec fn child_rows(r: IssueRecord) -> Seq<StatementView> {
    core_child_rows(r) + annotation_rows(r.id@, r.annotations@)
}

/// The events recorded when an issue is stored: the events it carries, or,
/// when it carries none, a "created" event by its creator ("" when none is
/// named) at its creation time.
pub open spec fn creation_event_rows(r: IssueRecord) -> Seq<StatementView> {
    if r.events@.len() == 0 {
        seq![
            (
                CREATED_EVENT_SQL@,
                seq![
                    ValueView::Text(r.id@),
                    ValueView::Text(actor_or(r.created_by, ""@)),
                    ValueView::Text(r.created_at@),
                ],
            ),
        ]
    } else {
        event_rows(r.id@, r.events@)
    }
}

fn push_core_children(out: &mut Vec<Statement>, r: &IssueRecord)
    ensures
        statement_views(final(out)@) == statement_views(old(out)@) + core_child_rows(*r),
{
    push_label_rows(out, LABEL_INSERT_SQL, r.id.as_str(), &r.labels);
    push_label_rows(out, BEAD_LABEL_INSERT_SQL, r.id.as_str(), &r.labels);
    push_dependency_rows(out, &r.dependencies);
    push_comment_rows(out, &r.comments);
    assert(statement_views(out@) =~= statement_views(old(out)@) + core_child_rows(*r));
}

/// The statements that store the rows beside issue `r`
/// ([`child_rows`]); without its annotations when `with_annotations` is
/// false ([`core_child_rows`]).
pub fn child_statements(r: &IssueRecord, with_annotations: bool) -> (s: Vec<Statement>)
    ensures
        statement_views(s@) == if with_annotations {
            child_rows(*r)
        } else {
            core_child_rows(*r)
        },
{
    let mut out: Vec<Statement> = Vec::new();
    assert(statement_views(out@) =~= Seq::<StatementView>::empty());
    push_core_children(&mut out, r);
    if with_annotations {
        push_annotation_rows(&mut out, r.id.as_str(), &r.annotations);
    }
    assert(statement_views(out@) =~= if with_annotations {
        child_rows(*r)
    } else {
        core_child_rows(*r)
    });
    out
}

/// What storing a new issue writes.
#[derive(Debug, Clone)]
pub struct CreatePlan {
    /// The INSERT statement ([`INSERT_ISSUE_SQL`]).
    pub sql: String,
    /// Its bound values: the id, the stored content hash, the other columns.
    pub values: Vec<SqlValue>,
    /// The content hash stored with the issue.
    pub content_hash: String,
    /// The statements that record its events ([`creation_event_rows`]).
    pub events: Vec<Statement>,
    /// The statements that store its labels, dependencies, comments and
    /// annotations ([`child_rows`]).
    pub children: Vec<Statement>,
    /// When the issue is marked for export: `now`.
    pub dirty_marked_at: String,
}

/// What storing the new issue `issue` at time `now` writes, with
/// `computed_hash` the hash of its content: the row (its own content hash,
/// or the computed one when it has none), its events (those it carries, or
/// a "created" event when it carries none), its labels, dependencies,
/// comments and annotations, and the mark for export.
pub fn create_issue_plan(issue: &IssueRecord, computed_hash: &str, now: &str) -> (p: CreatePlan)
    ensures
        p.sql@ == INSERT_ISSUE_SQL@,
        p.content_hash@ == stored_hash(*issue, computed_hash@),
        value_views(p.values@) == seq![ValueView::Text(issue.id@), ValueView::Text(p.content_hash@)]
            + issue_columns(*issue),
        statement_views(p.events@) == creation_event_rows(*issue),
        statement_views(p.children@) == child_rows(*issue),
        p.dirty_marked_at@ == now@,
{
    let hash = match &issue.content_hash {
        Some(h) => h.clone(),
        None => to_owned_string(computed_hash),
    };
    let mut values: Vec<SqlValue> = Vec::new();
    push_value(&mut values, SqlValue::Text(issue.id.clone()));
    push_value(&mut values, SqlValue::Text(hash.clone()));
    push_issue_columns(&mut values, issue);
    assert(value_views(values@) =~= seq![ValueView::Text(issue.id@), ValueView::Text(hash@)]
        + issue_columns(*issue));
    let mut events: Vec<Statement> = Vec::new();
    if issue.events.len() == 0 {
        let actor = match &issue.created_by {
            Some(a) => a.clone(),
            None => to_owned_string(""),
        };
        let mut ev: Vec<SqlValue> = Vec::new();
        ev.push(SqlValue::Text(issue.id.clone()));
        ev.push(SqlValue::Text(actor));
        ev.push(SqlValue::Text(issue.created_at.clone()));
        let ghost row = seq![
            ValueView::Text(issue.id@),
            ValueView::Text(actor_or(issue.created_by, ""@)),
            ValueView::Text(issue.created_at@),
        ];
        assert(value_views(ev@) =~= row);
        events.push((to_owned_string(CREATED_EVENT_SQL), ev));
        assert(statement_views(events@) =~= seq![(CREATED_EVENT_SQL@, row)]);
    } else {
        assert(statement_views(events@) =~= Seq::<StatementView>::empty());
        push_event_rows(&mut events, issue.id.as_str(), &issue.events);
        assert(statement_views(events@) =~= creation_event_rows(*issue));
    }
    CreatePlan {
        sql: to_owned_string(INSERT_ISSUE_SQL),
        values,
        content_hash: hash,
        events,
        children: child_statements(issue, true),
        dirty_marked_at: to_owned_string(now),
    }
}

/// The statement with which an issue read from the JSONL export replaces
/// the stored one, and its bound values: the issue's own content hash (NULL
/// when it has none), the other columns, and the id last.
pub fn json_update_statement(issue: &IssueRecord) -> (r: (String, Vec<SqlValue>))
    ensures
        r.0@ == UPDATE_FROM_JSON_SQL@,
        value_views(r.1@) == issue_row_values(*issue).push(ValueView::Text(issue.id@)),
{
    let mut values: Vec<SqlValue> = Vec::new();
    push_value(&mut values, opt_text_value(&issue.content_hash));
    push_issue_columns(&mut values, issue);
    push_value(&mut values, SqlValue::Text(issue.id.clone()));
    assert(value_views(values@) =~= issue_row_values(*issue).push(ValueView::Text(issue.id@)));
    (to_owned_string(UPDATE_FROM_JSON_SQL), values)
}

/// The statement with which an import replaces a stored issue, and its
/// bound values: as [`json_update_statement`], except that an issue without
/// a content hash stores `computed_hash`, the hash of its content.
pub fn import_update_statement(issue: &IssueRecord, computed_hash: &str) -> (r: (String, Vec<SqlValue>))
    ensures
        r.0@ == UPDATE_FROM_JSON_SQL@,
        value_views(r.1@) == seq![ValueView::Text(stored_hash(*issue, computed_hash@))] + issue_columns(
            *issue,
        ) + seq![ValueView::Text(issue.id@)],
{
    let hash = match &issue.content_hash {
        Some(h) => h.clone(),
        None => to_owned_string(computed_hash),
    };
    let mut values: Vec<SqlValue> = Vec::new();
    push_value(&mut values, SqlValue::Text(hash));
    push_issue_columns(&mut values, issue);
    push_value(&mut values, SqlValue::Text(issue.id.clone()));
    assert(value_views(values@) =~= seq![ValueView::Text(stored_hash(*issue, computed_hash@))]
        + issue_columns(*issue) + seq![ValueView::Text(issue.id@)]);
    (to_owned_string(UPDATE_FROM_JSON_SQL), values)
}


/// Removes the labels of an issue.
pub const LABELS_CLEAR_SQL: &'static str = "DELETE FROM labels WHERE issue_id = ?1";

/// Removes the labels of a bead from the bead label table.
pub const BEAD_LABELS_CLEAR_SQL: &'static str = "DELETE FROM bead_labels WHERE bead_id = ?1";

/// Removes the dependencies of an issue.
pub const DEPENDENCIES_CLEAR_SQL: &'static str = "DELETE FROM dependencies WHERE issue_id = ?1";

/// Removes the comments of an issue.
pub const COMMENTS_CLEAR_SQL: &'static str = "DELETE FROM comments WHERE issue_id = ?1";

/// Removes the annotations of a bead.
pub const ANNOTATIONS_CLEAR_SQL: &'static str = "DELETE FROM bead_annotations WHERE bead_id = ?1";

/// The statements that remove the rows stored beside issue `id` before it is
/// replaced: its labels (both tables), dependencies and comments, and its
/// annotations too when `with_annotations` holds.
pub open spec fn clear_rows(id: Seq<char>, with_annotations: bool) -> Seq<StatementView> {
    let b = seq![ValueView::Text(id)];
    seq![
        (LABELS_CLEAR_SQL@, b),
        (BEAD_LABELS_CLEAR_SQL@, b),
        (DEPENDENCIES_CLEAR_SQL@, b),
        (COMMENTS_CLEAR_SQL@, b),
    ] + if with_annotations {
        seq![(ANNOTATIONS_CLEAR_SQL@, b)]
    } else {
        Seq::empty()
    }
}

fn id_binding(id: &str) -> (v: Vec<SqlValue>)
    ensures
        value_views(v@) == seq![ValueView::Text(id@)],
{
    let mut v: Vec<SqlValue> = Vec::new();
    v.push(SqlValue::Text(to_owned_string(id)));
    assert(value_views(v@) =~= seq![ValueView::Text(id@)]);
    v
}

fn clear_statements(id: &str, with_annotations: bool) -> (s: Vec<Statement>)
    ensures
        statement_views(s@) == clear_rows(id@, with_annotations),
{
    let mut out: Vec<Statement> = Vec::new();
    out.push((to_owned_string(LABELS_CLEAR_SQL), id_binding(id)));
    out.push((to_owned_string(BEAD_LABELS_CLEAR_SQL), id_binding(id)));
    out.push((to_owned_string(DEPENDENCIES_CLEAR_SQL), id_binding(id)));
    out.push((to_owned_string(COMMENTS_CLEAR_SQL), id_binding(id)));
    if with_annotations {
        out.push((to_owned_string(ANNOTATIONS_CLEAR_SQL), id_binding(id)));
    }
    assert(statement_views(out@) =~= clear_rows(id@, with_annotations));
    out
}

/// The statements with which an update replaces the labels of issue `id`
/// (when given: each label table is emptied and refilled in turn) and its
/// annotations (when given: emptied and refilled).
pub open spec fn rewrite_rows(
    id: Seq<char>,
    labels: Option<Vec<String>>,
    annotations: Option<Vec<(String, String)>>,
) -> Seq<StatementView> {
    let b = seq![ValueView::Text(id)];
    (match labels {
        Some(ls) => seq![(LABELS_CLEAR_SQL@, b)] + label_rows(LABEL_INSERT_SQL@, id, ls@) + seq![
            (BEAD_LABELS_CLEAR_SQL@, b),
        ] + label_rows(BEAD_LABEL_INSERT_SQL@, id, ls@),
        None => Seq::empty(),
    }) + match annotations {
        Some(a) => seq![(ANNOTATIONS_CLEAR_SQL@, b)] + annotation_rows(id, a@),
        None => Seq::empty(),
    }
}

/// The statements of [`rewrite_rows`].
pub fn rewrite_statements(
    id: &str,
    labels: &Option<Vec<String>>,
    annotations: &Option<Vec<(String, String)>>,
) -> (s: Vec<Statement>)
    ensures
        statement_views(s@) == rewrite_rows(id@, *labels, *annotations),
{
    let mut out: Vec<Statement> = Vec::new();
    let ghost b = seq![ValueView::Text(id@)];
    match labels {
        Some(ls) => {
            out.push((to_owned_string(LABELS_CLEAR_SQL), id_binding(id)));
            assert(statement_views(out@) =~= seq![(LABELS_CLEAR_SQL@, b)]);
            push_label_rows(&mut out, LABEL_INSERT_SQL, id, ls);
            let ghost first = out@;
            out.push((to_owned_string(BEAD_LABELS_CLEAR_SQL), id_binding(id)));
            assert(statement_views(out@) =~= statement_views(first).push((BEAD_LABELS_CLEAR_SQL@, b)));
            let ghost mid = out@;
            push_label_rows(&mut out, BEAD_LABEL_INSERT_SQL, id, ls);
            assert(statement_views(mid) =~= seq![(LABELS_CLEAR_SQL@, b)] + label_rows(LABEL_INSERT_SQL@, id@, ls@) + seq![
                (BEAD_LABELS_CLEAR_SQL@, b),
            ]);
        },
        None => {},
    }
    let ghost after_labels = out@;
    match annotations {
        Some(a) => {
            out.push((to_owned_string(ANNOTATIONS_CLEAR_SQL), id_binding(id)));
            assert(statement_views(out@) =~= statement_views(after_labels).push((ANNOTATIONS_CLEAR_SQL@, b)));
            push_annotation_rows(&mut out, id, a);
        },
        None => {},
    }
    assert(statement_views(out@) =~= rewrite_rows(id@, *labels, *annotations));
    out
}

/// What replacing a stored issue with one read from the JSONL export writes:
/// the rows stored beside it are removed, the row is updated, and the rows
/// beside the new version are stored.
#[derive(Debug)]
pub struct ReplacePlan {
    pub clears: Vec<Statement>,
    pub update: (String, Vec<SqlValue>),
    pub children: Vec<Statement>,
}

/// Replacing a stored issue with `issue` as its JSON form gives it: its
/// labels, dependencies and comments are removed and stored anew, the row is
/// rewritten with the issue's own content hash ([`json_update_statement`]);
/// its annotations are left as they are.
pub fn json_replace_plan(issue: &IssueRecord) -> (p: ReplacePlan)
    ensures
        statement_views(p.clears@) == clear_rows(issue.id@, false),
        p.update.0@ == UPDATE_FROM_JSON_SQL@,
        value_views(p.update.1@) == issue_row_values(*issue).push(ValueView::Text(issue.id@)),
        statement_views(p.children@) == core_child_rows(*issue),
{
    ReplacePlan {
        clears: clear_statements(issue.id.as_str(), false),
        update: json_update_statement(issue),
        children: child_statements(issue, false),
    }
}

/// Replacing a stored issue with `issue` during an import, `computed_hash`
/// being the hash of its content: all the rows stored beside it (annotations
/// included) are removed and stored anew, and the row is rewritten with the
/// content hash stored for it ([`import_update_statement`]).
pub fn import_replace_plan(issue: &IssueRecord, computed_hash: &str) -> (p: ReplacePlan)
    ensures
        statement_views(p.clears@) == clear_rows(issue.id@, true),
        p.update.0@ == UPDATE_FROM_JSON_SQL@,
        value_views(p.update.1@) == seq![ValueView::Text(stored_hash(*issue, computed_hash@))]
            + issue_columns(*issue) + seq![ValueView::Text(issue.id@)],
        statement_views(p.children@) == child_rows(*issue),
{
    ReplacePlan {
        clears: clear_statements(issue.id.as_str(), true),
        update: import_update_statement(issue, computed_hash),
        children: child_statements(issue, true),
    }
}

} // verus!
