//! The rows stored beside an issue: its labels, dependencies, comments,
//! annotations and events, each written by one statement with its bound
//! values.

use vstd::prelude::*;
use crate::changes::{value_views, SqlValue, ValueView};
use crate::rows::opt_text;
use crate::text::{to_owned_string, trim_spec};
use crate::rules::{empty_label_message, label_to_store};

verus! {

/// Stores one label of an issue.
pub const LABEL_INSERT_SQL: &'static str = "INSERT OR IGNORE INTO labels (issue_id, label) VALUES (?1, ?2)";

/// Stores one label of a bead in the bead label table.
pub const BEAD_LABEL_INSERT_SQL: &'static str = "INSERT OR IGNORE INTO bead_labels (bead_id, label) VALUES (?1, ?2)";

/// Stores one dependency.
pub const DEPENDENCY_INSERT_SQL: &'static str = "INSERT INTO dependencies (issue_id, depends_on_id, type, metadata, thread_id, created_at, created_by)
                     VALUES (?1, ?2, ?3, ?4, ?5, ?6, ?7)";

/// Stores one comment.
pub const COMMENT_INSERT_SQL: &'static str = "INSERT INTO comments (id, issue_id, author, text, created_at) VALUES (?1, ?2, ?3, ?4, ?5)";

/// Stores one annotation of a bead.
pub const ANNOTATION_INSERT_SQL: &'static str = "INSERT INTO bead_annotations (bead_id, key, value) VALUES (?1, ?2, ?3)";

/// Stores one event that an issue carries.
pub const EVENT_INSERT_SQL: &'static str = "INSERT INTO events (issue_id, event_type, actor, old_value, new_value, comment, created_at) VALUES (?1, ?2, ?3, ?4, ?5, ?6, ?7)";

/// Records the creation of an issue: its id, its creator and its creation time.
pub const CREATED_EVENT_SQL: &'static str = "INSERT INTO events (issue_id, event_type, actor, created_at) VALUES (?1, 'created', ?2, ?3)";

/// A dependency of an issue, its metadata already rendered as JSON text.
#[derive(Debug, Clone)]
pub struct DependencyRecord {
    pub issue_id: String,
    pub depends_on_id: String,
    pub dep_type: String,
    pub metadata: Option<String>,
    pub thread_id: Option<String>,
    pub created_at: String,
    pub created_by: String,
}

/// A comment on an issue.
#[derive(Debug, Clone)]
pub struct CommentRecord {
    pub id: i64,
    pub issue_id: String,
    pub author: String,
    pub body: String,
    pub created_at: String,
}

/// An event that an issue carries.
#[derive(Debug, Clone)]
pub struct EventEntry {
    pub event_type: String,
    pub actor: String,
    pub old_value: Option<String>,
    pub new_value: Option<String>,
    pub comment: Option<String>,
    pub created_at: String,
}

/// A statement as plain values: its SQL text and its bound values.
pub type StatementView = (Seq<char>, Seq<ValueView>);

/// A statement with its bound values.
pub type Statement = (String, Vec<SqlValue>);

pub open spec fn statement_view(s: Statement) -> StatementView {
    (s.0@, value_views(s.1@))
}

pub open spec fn statement_views(s: Seq<Statement>) -> Seq<StatementView> {
    s.map_values(|x: Statement| statement_view(x))
}

/// One row per label, each binding the issue id and the label.
pub open spec fn label_rows(sql: Seq<char>, id: Seq<char>, labels: Seq<String>) -> Seq<StatementView> {
    labels.map_values(|l: String| (sql, seq![ValueView::Text(id), ValueView::Text(l@)]))
}

/// The values a dependency binds, in column order.
pub open spec fn dependency_values(d: DependencyRecord) -> Seq<ValueView> {
    seq![
        ValueView::Text(d.issue_id@),
        ValueView::Text(d.depends_on_id@),
        ValueView::Text(d.dep_type@),
        opt_text(d.metadata),
        opt_text(d.thread_id),
        ValueView::Text(d.created_at@),
        ValueView::Text(d.created_by@),
    ]
}

pub open spec fn dependency_rows(deps: Seq<DependencyRecord>) -> Seq<StatementView> {
    deps.map_values(|d: DependencyRecord| (DEPENDENCY_INSERT_SQL@, dependency_values(d)))
}

/// The values a comment binds: its id, its issue, author, text and time.
pub open spec fn comment_values(c: CommentRecord) -> Seq<ValueView> {
    seq![
        ValueView::Integer(c.id as int),
        ValueView::Text(c.issue_id@),
        ValueView::Text(c.author@),
        ValueView::Text(c.body@),
        ValueView::Text(c.created_at@),
    ]
}

pub open spec fn comment_rows(comments: Seq<CommentRecord>) -> Seq<StatementView> {
    comments.map_values(|c: CommentRecord| (COMMENT_INSERT_SQL@, comment_values(c)))
}

/// One row per annotation, each binding the bead id, the key and the value.
pub open spec fn annotation_rows(id: Seq<char>, annotations: Seq<(String, String)>) -> Seq<StatementView> {
    annotations.map_values(
        |a: (String, String)|
            (ANNOTATION_INSERT_SQL@, seq![ValueView::Text(id), ValueView::Text(a.0@), ValueView::Text(a.1@)]),
    )
}

/// The values an event binds: the issue id, then the event's own fields.
pub open spec fn event_values(id: Seq<char>, e: EventEntry) -> Seq<ValueView> {
    seq![
        ValueView::Text(id),
        ValueView::Text(e.event_type@),
        ValueView::Text(e.actor@),
        opt_text(e.old_value),
        opt_text(e.new_value),
        opt_text(e.comment),
        ValueView::Text(e.created_at@),
    ]
}

pub open spec fn event_rows(id: Seq<char>, events: Seq<EventEntry>) -> Seq<StatementView> {
    events.map_values(|e: EventEntry| (EVENT_INSERT_SQL@, event_values(id, e)))
}

fn push_statement(out: &mut Vec<Statement>, sql: &str, values: Vec<SqlValue>)
    ensures
        statement_views(final(out)@) == statement_views(old(out)@).push((sql@, value_views(values@))),
{
    let ghost v = value_views(values@);
    out.push((to_owned_string(sql), values));
    assert(statement_views(out@) =~= statement_views(old(out)@).push((sql@, v)));
}

/// Append a row per label.
pub fn push_label_rows(out: &mut Vec<Statement>, sql: &str, id: &str, labels: &Vec<String>)
    ensures
        statement_views(final(out)@) == statement_views(old(out)@) + label_rows(sql@, id@, labels@),
{
    let mut i: usize = 0;
    while i < labels.len()
        invariant
            0 <= i <= labels@.len(),
            statement_views(out@) == statement_views(old(out)@) + label_rows(
                sql@,
                id@,
                labels@.take(i as int),
            ),
        decreases labels@.len() - i,
    {
        let mut values: Vec<SqlValue> = Vec::new();
        values.push(SqlValue::Text(to_owned_string(id)));
        values.push(SqlValue::Text(labels[i].clone()));
        assert(value_views(values@) =~= seq![ValueView::Text(id@), ValueView::Text(labels@[i as int]@)]);
        push_statement(out, sql, values);
        assert(labels@.take(i + 1) =~= labels@.take(i as int).push(labels@[i as int]));
        assert(label_rows(sql@, id@, labels@.take(i + 1)) =~= label_rows(
            sql@,
            id@,
            labels@.take(i as int),
        ).push((sql@, seq![ValueView::Text(id@), ValueView::Text(labels@[i as int]@)])));
        i = i + 1;
    }
    assert(labels@.take(labels@.len() as int) =~= labels@);
}

/// Append a row per dependency.
pub fn push_dependency_rows(out: &mut Vec<Statement>, deps: &Vec<DependencyRecord>)
    ensures
        statement_views(final(out)@) == statement_views(old(out)@) + dependency_rows(deps@),
{
    let mut i: usize = 0;
    while i < deps.len()
        invariant
            0 <= i <= deps@.len(),
            statement_views(out@) == statement_views(old(out)@) + dependency_rows(
                deps@.take(i as int),
            ),
        decreases deps@.len() - i,
    {
        let d = &deps[i];
        let mut values: Vec<SqlValue> = Vec::new();
        values.push(SqlValue::Text(d.issue_id.clone()));
        values.push(SqlValue::Text(d.depends_on_id.clone()));
        values.push(SqlValue::Text(d.dep_type.clone()));
        values.push(opt_text_value(&d.metadata));
        values.push(opt_text_value(&d.thread_id));
        values.push(SqlValue::Text(d.created_at.clone()));
        values.push(SqlValue::Text(d.created_by.clone()));
        assert(value_views(values@) =~= dependency_values(*d));
        push_statement(out, DEPENDENCY_INSERT_SQL, values);
        assert(deps@.take(i + 1) =~= deps@.take(i as int).push(deps@[i as int]));
        assert(dependency_rows(deps@.take(i + 1)) =~= dependency_rows(deps@.take(i as int)).push(
            (DEPENDENCY_INSERT_SQL@, dependency_values(deps@[i as int])),
        ));
        i = i + 1;
    }
    assert(deps@.take(deps@.len() as int) =~= deps@);
}

/// Append a row per comment.
pub fn push_comment_rows(out: &mut Vec<Statement>, comments: &Vec<CommentRecord>)
    ensures
        statement_views(final(out)@) == statement_views(old(out)@) + comment_rows(comments@),
{
    let mut i: usize = 0;
    while i < comments.len()
        invariant
            0 <= i <= comments@.len(),
            statement_views(out@) == statement_views(old(out)@) + comment_rows(
                comments@.take(i as int),
            ),
        decreases comments@.len() - i,
    {
        let c = &comments[i];
        let mut values: Vec<SqlValue> = Vec::new();
        values.push(SqlValue::Integer(c.id));
        values.push(SqlValue::Text(c.issue_id.clone()));
        values.push(SqlValue::Text(c.author.clone()));
        values.push(SqlValue::Text(c.body.clone()));
        values.push(SqlValue::Text(c.created_at.clone()));
        assert(value_views(values@) =~= comment_values(*c));
        push_statement(out, COMMENT_INSERT_SQL, values);
        assert(comments@.take(i + 1) =~= comments@.take(i as int).push(comments@[i as int]));
        assert(comment_rows(comments@.take(i + 1)) =~= comment_rows(comments@.take(i as int)).push(
            (COMMENT_INSERT_SQL@, comment_values(comments@[i as int])),
        ));
        i = i + 1;
    }
    assert(comments@.take(comments@.len() as int) =~= comments@);
}

/// Append a row per annotation.
pub fn push_annotation_rows(out: &mut Vec<Statement>, id: &str, annotations: &Vec<(String, String)>)
    ensures
        statement_views(final(out)@) == statement_views(old(out)@) + annotation_rows(
            id@,
            annotations@,
        ),
{
    let mut i: usize = 0;
    while i < annotations.len()
        invariant
            0 <= i <= annotations@.len(),
            statement_views(out@) == statement_views(old(out)@) + annotation_rows(
                id@,
                annotations@.take(i as int),
            ),
        decreases annotations@.len() - i,
    {
        let a = &annotations[i];
        let mut values: Vec<SqlValue> = Vec::new();
        values.push(SqlValue::Text(to_owned_string(id)));
        values.push(SqlValue::Text(a.0.clone()));
        values.push(SqlValue::Text(a.1.clone()));
        let ghost row = seq![ValueView::Text(id@), ValueView::Text(a.0@), ValueView::Text(a.1@)];
        assert(value_views(values@) =~= row);
        push_statement(out, ANNOTATION_INSERT_SQL, values);
        assert(annotations@.take(i + 1) =~= annotations@.take(i as int).push(annotations@[i as int]));
        assert(annotation_rows(id@, annotations@.take(i + 1)) =~= annotation_rows(
            id@,
            annotations@.take(i as int),
        ).push((ANNOTATION_INSERT_SQL@, row)));
        i = i + 1;
    }
    assert(annotations@.take(annotations@.len() as int) =~= annotations@);
}

/// Append a row per event.
pub fn push_event_rows(out: &mut Vec<Statement>, id: &str, events: &Vec<EventEntry>)
    ensures
        statement_views(final(out)@) == statement_views(old(out)@) + event_rows(id@, events@),
{
    let mut i: usize = 0;
    while i < events.len()
        invariant
            0 <= i <= events@.len(),
            statement_views(out@) == statement_views(old(out)@) + event_rows(
                id@,
                events@.take(i as int),
            ),
        decreases events@.len() - i,
    {
        let e = &events[i];
        let mut values: Vec<SqlValue> = Vec::new();
        values.push(SqlValue::Text(to_owned_string(id)));
        values.push(SqlValue::Text(e.event_type.clone()));
        values.push(SqlValue::Text(e.actor.clone()));
        values.push(opt_text_value(&e.old_value));
        values.push(opt_text_value(&e.new_value));
        values.push(opt_text_value(&e.comment));
        values.push(SqlValue::Text(e.created_at.clone()));
        assert(value_views(values@) =~= event_values(id@, *e));
        push_statement(out, EVENT_INSERT_SQL, values);
        assert(events@.take(i + 1) =~= events@.take(i as int).push(events@[i as int]));
        assert(event_rows(id@, events@.take(i + 1)) =~= event_rows(id@, events@.take(i as int)).push(
            (EVENT_INSERT_SQL@, event_values(id@, events@[i as int])),
        ));
        i = i + 1;
    }
    assert(events@.take(events@.len() as int) =~= events@);
}

fn opt_text_value(o: &Option<String>) -> (v: SqlValue)
    ensures
        crate::changes::value_view(v) == opt_text(*o),
{
    match o {
        Some(s) => SqlValue::Text(s.clone()),
        None => SqlValue::Null,
    }
}

/// Removes one label of an issue.
pub const LABEL_DELETE_SQL: &'static str = "DELETE FROM labels WHERE issue_id = ?1 AND label = ?2";

/// Removes one label of a bead from the bead label table.
pub const BEAD_LABEL_DELETE_SQL: &'static str = "DELETE FROM bead_labels WHERE bead_id = ?1 AND label = ?2";

/// Adds a comment, numbered by the table: issue, author, text, time.
pub const COMMENT_ADD_SQL: &'static str = "INSERT INTO comments (issue_id, author, text, created_at) VALUES (?1, ?2, ?3, ?4)";

/// Sets one annotation of a bead, replacing the value under the same key.
pub const ANNOTATION_SET_SQL: &'static str = "INSERT OR REPLACE INTO bead_annotations (bead_id, key, value) VALUES (?1, ?2, ?3)";

/// Removes one annotation of a bead.
pub const ANNOTATION_REMOVE_SQL: &'static str = "DELETE FROM bead_annotations WHERE bead_id = ?1 AND key = ?2";

/// The statements that add label `label` to issue `id` (`insert_sql` and
/// `bead_sql` being the statements for the two label tables): the label is
/// trimmed, and a blank one is refused.
pub open spec fn label_change_rows(insert_sql: Seq<char>, bead_sql: Seq<char>, id: Seq<char>, label: Seq<char>) -> Seq<
    StatementView,
> {
    let b = seq![ValueView::Text(id), ValueView::Text(trim_spec(label))];
    seq![(insert_sql, b), (bead_sql, b)]
}

fn label_change(sql: &str, bead_sql: &str, id: &str, label: &str) -> (r: Result<Vec<Statement>, String>)
    ensures
        trim_spec(label@).len() == 0 ==> (r matches Err(m) && m@ == empty_label_message()),
        trim_spec(label@).len() > 0 ==> (r matches Ok(s) && statement_views(s@) == label_change_rows(
            sql@,
            bead_sql@,
            id@,
            label@,
        )),
{
    let t = match label_to_store(label) {
        Ok(t) => t,
        Err(m) => return Err(m),
    };
    let mut out: Vec<Statement> = Vec::new();
    let mut a: Vec<SqlValue> = Vec::new();
    a.push(SqlValue::Text(to_owned_string(id)));
    a.push(SqlValue::Text(t.clone()));
    let mut b: Vec<SqlValue> = Vec::new();
    b.push(SqlValue::Text(to_owned_string(id)));
    b.push(SqlValue::Text(t));
    let ghost row = seq![ValueView::Text(id@), ValueView::Text(trim_spec(label@))];
    assert(value_views(a@) =~= row);
    assert(value_views(b@) =~= row);
    push_statement(&mut out, sql, a);
    push_statement(&mut out, bead_sql, b);
    assert(statement_views(out@) =~= label_change_rows(sql@, bead_sql@, id@, label@));
    Ok(out)
}

/// What adding a label to issue `id` writes: the trimmed label in both label
/// tables (kept once when already there); a blank label is refused.
pub fn label_add_plan(id: &str, label: &str) -> (r: Result<Vec<Statement>, String>)
    ensures
        trim_spec(label@).len() == 0 ==> (r matches Err(m) && m@ == empty_label_message()),
        trim_spec(label@).len() > 0 ==> (r matches Ok(s) && statement_views(s@) == label_change_rows(
            LABEL_INSERT_SQL@,
            BEAD_LABEL_INSERT_SQL@,
            id@,
            label@,
        )),
{
    label_change(LABEL_INSERT_SQL, BEAD_LABEL_INSERT_SQL, id, label)
}

/// What removing a label from issue `id` writes: the trimmed label is
/// deleted from both label tables; a blank label is refused. The issue is
/// marked for export only when a row was deleted.
pub fn label_remove_plan(id: &str, label: &str) -> (r: Result<Vec<Statement>, String>)
    ensures
        trim_spec(label@).len() == 0 ==> (r matches Err(m) && m@ == empty_label_message()),
        trim_spec(label@).len() > 0 ==> (r matches Ok(s) && statement_views(s@) == label_change_rows(
            LABEL_DELETE_SQL@,
            BEAD_LABEL_DELETE_SQL@,
            id@,
            label@,
        )),
{
    label_change(LABEL_DELETE_SQL, BEAD_LABEL_DELETE_SQL, id, label)
}

} // verus!
