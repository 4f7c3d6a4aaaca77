//! What a change set does to a stored issue: the columns that the UPDATE
//! statement assigns, the events that are recorded, and whether the issue is
//! marked for export.
//!
//! Statuses are held as the text under which the issues table stores them;
//! times as RFC 3339 text. One reading of the clock, `now`, stamps every
//! column and event that the change writes.

use vstd::prelude::*;
use crate::children::{statement_views, Statement};
use crate::rows::{rewrite_rows, rewrite_statements};
use crate::subprocess::{join_spec, views};
use crate::rules::terminal_status;
use crate::subprocess::join_strings;
use crate::text::{opt_str_view, push_str_chars, string_from_chars, to_owned_string, trim_chars, trim_spec};

verus! {

/// A value bound to a placeholder of a statement.
#[derive(Debug, Clone, PartialEq, Eq)]
pub enum SqlValue {
    Text(String),
    Integer(i64),
    Null,
}

/// What a bound value stands for.
pub ghost enum ValueView {
    Text(Seq<char>),
    Integer(int),
    Null,
}

pub open spec fn value_view(v: SqlValue) -> ValueView {
    match v {
        SqlValue::Text(s) => ValueView::Text(s@),
        SqlValue::Integer(i) => ValueView::Integer(i as int),
        SqlValue::Null => ValueView::Null,
    }
}

pub open spec fn opt_value_view(v: Option<SqlValue>) -> Option<ValueView> {
    match v {
        Some(x) => Some(value_view(x)),
        None => None,
    }
}

pub open spec fn value_views(vs: Seq<SqlValue>) -> Seq<ValueView> {
    vs.map_values(|v: SqlValue| value_view(v))
}

/// The changes to apply to an issue; a field that is `None` is left as it is.
/// An assignee that is blank after trimming clears the assignee.
#[derive(Debug, Clone, Default)]
pub struct IssueChanges {
    pub title: Option<String>,
    pub description: Option<String>,
    pub design: Option<String>,
    pub acceptance_criteria: Option<String>,
    pub notes: Option<String>,
    pub status: Option<String>,
    pub priority: Option<i32>,
    pub issue_type: Option<String>,
    pub assignee: Option<String>,
    pub owner: Option<String>,
    pub estimated_minutes: Option<i32>,
    pub due_at: Option<String>,
    pub defer_until: Option<String>,
    pub external_ref: Option<String>,
    pub labels: Option<Vec<String>>,
    pub annotations: Option<Vec<(String, String)>>,
    pub actor: Option<String>,
}

/// An event to record about the issue.
#[derive(Debug, Clone, PartialEq, Eq)]
pub struct EventRecord {
    pub event_type: String,
    pub actor: String,
    pub old_value: Option<String>,
    pub new_value: Option<String>,
}

/// What an event record stands for: type, actor, old and new value.
pub open spec fn event_view(e: EventRecord) -> (Seq<char>, Seq<char>, Option<Seq<char>>, Option<Seq<char>>) {
    (e.event_type@, e.actor@, opt_view(e.old_value), opt_view(e.new_value))
}

pub open spec fn event_views(es: Seq<EventRecord>) -> Seq<(Seq<char>, Seq<char>, Option<Seq<char>>, Option<Seq<char>>)> {
    es.map_values(|e: EventRecord| event_view(e))
}

pub open spec fn opt_view(o: Option<String>) -> Option<Seq<char>> {
    match o {
        Some(s) => Some(s@),
        None => None,
    }
}

/// What applying a change set takes.
#[derive(Debug, Clone)]
pub struct IssueUpdatePlan {
    /// The UPDATE statement, with its bound values in placeholder order (the
    /// issue id last), when any column changes.
    pub update: Option<(String, Vec<SqlValue>)>,
    /// The events to record, in order.
    pub events: Vec<EventRecord>,
    /// Whether the issue is marked for export.
    pub mark_dirty: bool,
    /// Whether the status changed, so that dependents and the blocked cache
    /// are brought up to date.
    pub status_changed: bool,
    /// The statements that replace the labels and annotations given.
    pub rewrites: Vec<Statement>,
}

/// One assignment of the SET list: its text, and the value bound to its
/// placeholder if it has one.
pub type Assignment = (Seq<char>, Option<ValueView>);

/// Whether a status is closed or a tombstone.
pub open spec fn is_closed_or_tombstone(s: Seq<char>) -> bool {
    s == "closed"@ || s == "tombstone"@
}

/// Whether a status is terminal: closed, tombstone, done or completed (the
/// statuses that no longer block dependents).
pub open spec fn is_terminal(s: Seq<char>) -> bool {
    s == "closed"@ || s == "tombstone"@ || s == "done"@ || s == "completed"@
}

/// The actor of the change, or `default` when none is named.
pub open spec fn actor_or(actor: Option<String>, default: Seq<char>) -> Seq<char> {
    match actor {
        Some(a) => a@,
        None => default,
    }
}

pub open spec fn text_assignment(column: Seq<char>, v: Option<String>) -> Seq<Assignment> {
    match v {
        Some(x) => seq![(column + " = ?"@, Some(ValueView::Text(x@)))],
        None => Seq::empty(),
    }
}

pub open spec fn integer_assignment(column: Seq<char>, v: Option<i32>) -> Seq<Assignment> {
    match v {
        Some(x) => seq![(column + " = ?"@, Some(ValueView::Integer(x as int)))],
        None => Seq::empty(),
    }
}

/// The assignments of a status change. Leaving closed or tombstone for
/// another status clears the close fields; closing an issue that was not
/// closed fills them (an empty reason, the actor or "cli" as the session).
pub open spec fn status_assignments(
    status: Option<String>,
    current: Option<Seq<char>>,
    actor: Option<String>,
    now: Seq<char>,
) -> Seq<Assignment> {
    match status {
        None => Seq::empty(),
        Some(s) => seq![("status = ?"@, Some(ValueView::Text(s@)))] + if current matches Some(c)
            && is_closed_or_tombstone(c) && !is_closed_or_tombstone(s@) {
            seq![
                ("closed_at = NULL"@, None),
                ("close_reason = NULL"@, None),
                ("closed_by_session = NULL"@, None),
            ]
        } else if s@ == "closed"@ && current != Some("closed"@) {
            seq![
                ("closed_at = ?"@, Some(ValueView::Text(now))),
                ("close_reason = ?"@, Some(ValueView::Text(Seq::empty()))),
                ("closed_by_session = ?"@, Some(ValueView::Text(actor_or(actor, "cli"@)))),
            ]
        } else {
            Seq::empty()
        },
    }
}

/// The assignee as stored: none when the given one is blank.
pub open spec fn stored_assignee(a: Seq<char>) -> Option<Seq<char>> {
    if trim_spec(a).len() == 0 {
        None
    } else {
        Some(a)
    }
}

pub open spec fn assignee_assignment(assignee: Option<String>) -> Seq<Assignment> {
    match assignee {
        Some(a) => if stored_assignee(a@) is None {
            seq![("assignee"@ + " = NULL"@, None)]
        } else {
            seq![("assignee"@ + " = ?"@, Some(ValueView::Text(a@)))]
        },
        None => Seq::empty(),
    }
}

/// The assignments of the given fields, in column order.
pub open spec fn field_assignments(c: IssueChanges, current: Option<Seq<char>>, now: Seq<char>) -> Seq<
    Assignment,
> {
    text_assignment("title"@, c.title)
        + text_assignment("description"@, c.description)
        + text_assignment("design"@, c.design)
        + text_assignment("acceptance_criteria"@, c.acceptance_criteria)
        + text_assignment("notes"@, c.notes)
        + status_assignments(c.status, current, c.actor, now)
        + integer_assignment("priority"@, c.priority)
        + text_assignment("issue_type"@, c.issue_type)
        + assignee_assignment(c.assignee)
        + text_assignment("owner"@, c.owner)
        + integer_assignment("estimated_minutes"@, c.estimated_minutes)
        + text_assignment("due_at"@, c.due_at)
        + text_assignment("defer_until"@, c.defer_until)
        + text_assignment("external_ref"@, c.external_ref)
}

/// The full SET list: the field assignments and, when there are any, the
/// update time.
pub open spec fn set_list(c: IssueChanges, current: Option<Seq<char>>, now: Seq<char>) -> Seq<Assignment> {
    let f = field_assignments(c, current, now);
    if f.len() == 0 {
        f
    } else {
        f.push(("updated_at"@ + " = ?"@, Some(ValueView::Text(now))))
    }
}

pub open spec fn assignment_texts(a: Seq<Assignment>) -> Seq<Seq<char>> {
    a.map_values(|x: Assignment| x.0)
}

/// The bound values of the assignments, in order.
pub open spec fn assignment_values(a: Seq<Assignment>) -> Seq<ValueView>
    decreases a.len(),
{
    if a.len() == 0 {
        Seq::empty()
    } else {
        assignment_values(a.drop_last()) + match a.last().1 {
            Some(v) => seq![v],
            None => Seq::empty(),
        }
    }
}

/// The UPDATE statement of a SET list.
pub open spec fn update_sql(a: Seq<Assignment>) -> Seq<char> {
    "UPDATE issues SET "@ + join_spec(assignment_texts(a), ", "@) + " WHERE id = ?"@
}

/// The event of a status change: leaving a terminal status for one that is
/// not reopens the issue; any other change of status is recorded as a
/// status change (by the actor, or "system" when none is named).
pub open spec fn status_event(current: Option<Seq<char>>, status: Option<String>, actor: Option<String>) -> Seq<
    (Seq<char>, Seq<char>, Option<Seq<char>>, Option<Seq<char>>),
> {
    match (current, status) {
        (Some(c), Some(n)) => if is_terminal(c) && !is_terminal(n@) {
            seq![("reopened"@, actor_or(actor, "system"@), Some(c), Some(n@))]
        } else if c != n@ {
            seq![("status_changed"@, actor_or(actor, "system"@), Some(c), Some(n@))]
        } else {
            Seq::empty()
        },
        _ => Seq::empty(),
    }
}

/// The event of a change of assignee.
pub open spec fn assignee_event(current: Option<Seq<char>>, assignee: Option<String>, actor: Option<String>) -> Seq<
    (Seq<char>, Seq<char>, Option<Seq<char>>, Option<Seq<char>>),
> {
    match assignee {
        Some(a) => if current != stored_assignee(a@) {
            seq![("assignee_changed"@, actor_or(actor, "cli"@), current, stored_assignee(a@))]
        } else {
            Seq::empty()
        },
        None => Seq::empty(),
    }
}

/// The texts that are scanned for secrets before a change is applied: the
/// free-text fields that are given, then the labels, then each annotation's
/// key and value.
pub open spec fn scanned_texts(c: IssueChanges) -> Seq<Seq<char>> {
    opt_seq(c.title) + opt_seq(c.description) + opt_seq(c.design) + opt_seq(c.acceptance_criteria)
        + opt_seq(c.notes) + opt_seq(c.assignee) + opt_seq(c.owner) + opt_seq(c.external_ref)
        + match c.labels {
        Some(ls) => views(ls@),
        None => Seq::empty(),
    } + match c.annotations {
        Some(kvs) => pair_texts(kvs@),
        None => Seq::empty(),
    }
}

pub open spec fn opt_seq(o: Option<String>) -> Seq<Seq<char>> {
    match o {
        Some(s) => seq![s@],
        None => Seq::empty(),
    }
}

/// Each pair's key and value, one after the other.
pub open spec fn pair_texts(kvs: Seq<(String, String)>) -> Seq<Seq<char>>
    decreases kvs.len(),
{
    if kvs.len() == 0 {
        Seq::empty()
    } else {
        pair_texts(kvs.drop_last()) + seq![kvs.last().0@, kvs.last().1@]
    }
}


/// The text of an assignment: the column, then ` = ?` or ` = NULL`.
fn assignment_text(column: &str, rhs: &str) -> (s: String)
    ensures
        s@ == column@ + rhs@,
{
    let mut v: Vec<char> = Vec::new();
    push_str_chars(&mut v, column);
    push_str_chars(&mut v, rhs);
    string_from_chars(v.as_slice())
}

/// The SET list under construction.
struct SetBuilder {
    texts: Vec<String>,
    values: Vec<SqlValue>,
    list: Ghost<Seq<Assignment>>,
}

impl SetBuilder {
    spec fn wf(&self) -> bool {
        &&& views(self.texts@) == assignment_texts(self.list@)
        &&& value_views(self.values@) == assignment_values(self.list@)
    }

    fn new() -> (b: Self)
        ensures
            b.wf(),
            b.list@ == Seq::<Assignment>::empty(),
    {
        let b = SetBuilder { texts: Vec::new(), values: Vec::new(), list: Ghost(Seq::empty()) };
        assert(views(b.texts@) =~= assignment_texts(b.list@));
        assert(value_views(b.values@) =~= assignment_values(b.list@));
        b
    }

    fn push(&mut self, text: &str, value: Option<SqlValue>)
        requires
            old(self).wf(),
        ensures
            final(self).wf(),
            final(self).list@ == old(self).list@.push((text@, opt_value_view(value))),
    {
        let ghost a = (text@, opt_value_view(value));
        let ghost l = self.list@.push(a);
        let ghost vs = self.values@;
        let ghost ts = self.texts@;
        self.texts.push(to_owned_string(text));
        match value {
            Some(v) => self.values.push(v),
            None => {},
        }
        self.list = Ghost(l);
        assert(l.drop_last() =~= old(self).list@);
        assert(views(self.texts@) =~= views(ts).push(text@));
        assert(views(self.texts@) =~= assignment_texts(l));
        assert(value_views(self.values@) =~= assignment_values(l));
    }

    fn push_text(&mut self, column: &str, v: &Option<String>)
        requires
            old(self).wf(),
        ensures
            final(self).wf(),
            final(self).list@ == old(self).list@ + text_assignment(column@, *v),
    {
        match v {
            Some(x) => self.push(
                assignment_text(column, " = ?").as_str(),
                Some(SqlValue::Text(x.clone())),
            ),
            None => {},
        }
        assert(self.list@ =~= old(self).list@ + text_assignment(column@, *v));
    }

    fn push_integer(&mut self, column: &str, v: Option<i32>)
        requires
            old(self).wf(),
        ensures
            final(self).wf(),
            final(self).list@ == old(self).list@ + integer_assignment(column@, v),
    {
        match v {
            Some(x) => self.push(
                assignment_text(column, " = ?").as_str(),
                Some(SqlValue::Integer(x as i64)),
            ),
            None => {},
        }
        assert(self.list@ =~= old(self).list@ + integer_assignment(column@, v));
    }
}

/// Whether a status is closed or a tombstone.
fn closed_or_tombstone(s: &str) -> (b: bool)
    ensures
        b == is_closed_or_tombstone(s@),
{
    let closed = to_owned_string("closed");
    let tombstone = to_owned_string("tombstone");
    let t = to_owned_string(s);
    t == closed || t == tombstone
}

fn actor_or_default(actor: &Option<String>, default: &str) -> (s: String)
    ensures
        s@ == actor_or(*actor, default@),
{
    match actor {
        Some(a) => a.clone(),
        None => to_owned_string(default),
    }
}

fn push_status_assignments(b: &mut SetBuilder, c: &IssueChanges, current: Option<&str>, now: &str)
    requires
        old(b).wf(),
    ensures
        final(b).wf(),
        final(b).list@ == old(b).list@ + status_assignments(c.status, opt_str_view(current), c.actor, now@),
{
    match &c.status {
        Some(s) => {
            b.push("status = ?", Some(SqlValue::Text(s.clone())));
            let leaving_closed = match current {
                Some(cur) => closed_or_tombstone(cur) && !closed_or_tombstone(s.as_str()),
                None => false,
            };
            if leaving_closed {
                b.push("closed_at = NULL", None);
                b.push("close_reason = NULL", None);
                b.push("closed_by_session = NULL", None);
            } else {
                let closed = to_owned_string("closed");
                let was_closed = match current {
                    Some(cur) => to_owned_string(cur) == closed,
                    None => false,
                };
                if *s == closed && !was_closed {
                    b.push("closed_at = ?", Some(SqlValue::Text(to_owned_string(now))));
                    b.push("close_reason = ?", Some(SqlValue::Text(String::new())));
                    b.push(
                        "closed_by_session = ?",
                        Some(SqlValue::Text(actor_or_default(&c.actor, "cli"))),
                    );
                }
            }
        },
        None => {},
    }
    assert(b.list@ =~= old(b).list@ + status_assignments(c.status, opt_str_view(current), c.actor, now@));
}

fn push_assignee_assignment(b: &mut SetBuilder, assignee: &Option<String>)
    requires
        old(b).wf(),
    ensures
        final(b).wf(),
        final(b).list@ == old(b).list@ + assignee_assignment(*assignee),
{
    match assignee {
        Some(a) => {
            if trim_chars(a.as_str()).len() == 0 {
                b.push(assignment_text("assignee", " = NULL").as_str(), None);
            } else {
                b.push(assignment_text("assignee", " = ?").as_str(), Some(SqlValue::Text(a.clone())));
            }
        },
        None => {},
    }
    assert(b.list@ =~= old(b).list@ + assignee_assignment(*assignee));
}

fn field_set_list(c: &IssueChanges, current: Option<&str>, now: &str) -> (b: SetBuilder)
    ensures
        b.wf(),
        b.list@ == field_assignments(*c, opt_str_view(current), now@),
{
    let mut b = SetBuilder::new();
    b.push_text("title", &c.title);
    b.push_text("description", &c.description);
    b.push_text("design", &c.design);
    b.push_text("acceptance_criteria", &c.acceptance_criteria);
    b.push_text("notes", &c.notes);
    push_status_assignments(&mut b, c, current, now);
    b.push_integer("priority", c.priority);
    b.push_text("issue_type", &c.issue_type);
    push_assignee_assignment(&mut b, &c.assignee);
    b.push_text("owner", &c.owner);
    b.push_integer("estimated_minutes", c.estimated_minutes);
    b.push_text("due_at", &c.due_at);
    b.push_text("defer_until", &c.defer_until);
    b.push_text("external_ref", &c.external_ref);
    assert(b.list@ =~= field_assignments(*c, opt_str_view(current), now@));
    b
}


fn push_opt(v: &mut Vec<String>, o: &Option<String>)
    ensures
        views(final(v)@) == views(old(v)@) + opt_seq(*o),
{
    let ghost before = v@;
    match o {
        Some(x) => v.push(x.clone()),
        None => {},
    }
    assert(views(v@) =~= views(before) + opt_seq(*o));
}

/// The texts to scan for secrets before `c` is applied (see [`scanned_texts`]).
pub fn secret_scan_texts(c: &IssueChanges) -> (v: Vec<String>)
    ensures
        views(v@) == scanned_texts(*c),
{
    let mut v: Vec<String> = Vec::new();
    assert(views(v@) =~= Seq::<Seq<char>>::empty());
    push_opt(&mut v, &c.title);
    push_opt(&mut v, &c.description);
    push_opt(&mut v, &c.design);
    push_opt(&mut v, &c.acceptance_criteria);
    push_opt(&mut v, &c.notes);
    push_opt(&mut v, &c.assignee);
    push_opt(&mut v, &c.owner);
    push_opt(&mut v, &c.external_ref);
    let ghost fields = views(v@);
    match &c.labels {
        Some(ls) => {
            let mut i: usize = 0;
            while i < ls.len()
                invariant
                    0 <= i <= ls@.len(),
                    views(v@) == fields + views(ls@.take(i as int)),
                decreases ls@.len() - i,
            {
                let ghost before = v@;
                v.push(ls[i].clone());
                i = i + 1;
                assert(views(ls@.take(i as int)) =~= views(ls@.take(i - 1)).push(ls@[i - 1]@));
                assert(views(v@) =~= views(before).push(ls@[i - 1]@));
            }
            assert(ls@.take(ls@.len() as int) =~= ls@);
        },
        None => {},
    }
    let ghost with_labels = views(v@);
    match &c.annotations {
        Some(kvs) => {
            let mut i: usize = 0;
            while i < kvs.len()
                invariant
                    0 <= i <= kvs@.len(),
                    views(v@) == with_labels + pair_texts(kvs@.take(i as int)),
                decreases kvs@.len() - i,
            {
                let ghost before = v@;
                v.push(kvs[i].0.clone());
                v.push(kvs[i].1.clone());
                i = i + 1;
                assert(kvs@.take(i as int).drop_last() =~= kvs@.take(i - 1));
                assert(views(v@) =~= views(before).push(kvs@[i - 1].0@).push(kvs@[i - 1].1@));
                assert(views(v@) =~= with_labels + pair_texts(kvs@.take(i as int)));
            }
            assert(kvs@.take(kvs@.len() as int) =~= kvs@);
        },
        None => {},
    }
    assert(views(v@) =~= scanned_texts(*c));
    v
}

/// The events of applying `c` to an issue whose status and assignee were
/// `current_status` and `current_assignee`.
fn update_events(c: &IssueChanges, current_status: Option<&str>, current_assignee: Option<&str>) -> (e: Vec<EventRecord>)
    ensures
        event_views(e@) == status_event(opt_str_view(current_status), c.status, c.actor)
            + assignee_event(opt_str_view(current_assignee), c.assignee, c.actor),
{
    let mut e: Vec<EventRecord> = Vec::new();
    match (current_status, &c.status) {
        (Some(cur), Some(new)) => {
            if terminal_status(cur) && !terminal_status(new.as_str()) {
                e.push(
                    EventRecord {
                        event_type: to_owned_string("reopened"),
                        actor: actor_or_default(&c.actor, "system"),
                        old_value: Some(to_owned_string(cur)),
                        new_value: Some(new.clone()),
                    },
                );
            } else if to_owned_string(cur) != *new {
                e.push(
                    EventRecord {
                        event_type: to_owned_string("status_changed"),
                        actor: actor_or_default(&c.actor, "system"),
                        old_value: Some(to_owned_string(cur)),
                        new_value: Some(new.clone()),
                    },
                );
            }
        },
        _ => {},
    }
    let ghost first = event_views(e@);
    assert(first =~= status_event(opt_str_view(current_status), c.status, c.actor));
    match &c.assignee {
        Some(a) => {
            let new_val: Option<String> = if trim_chars(a.as_str()).len() == 0 {
                None
            } else {
                Some(a.clone())
            };
            let old_val: Option<String> = match current_assignee {
                Some(x) => Some(to_owned_string(x)),
                None => None,
            };
            let same = match (&old_val, &new_val) {
                (Some(x), Some(y)) => *x == *y,
                (None, None) => true,
                _ => false,
            };
            if !same {
                let ghost before = e@;
                e.push(
                    EventRecord {
                        event_type: to_owned_string("assignee_changed"),
                        actor: actor_or_default(&c.actor, "cli"),
                        old_value: old_val,
                        new_value: new_val,
                    },
                );
                assert(event_views(e@) =~= event_views(before).push(event_view(e@.last())));
            }
        },
        None => {},
    }
    assert(event_views(e@) =~= status_event(opt_str_view(current_status), c.status, c.actor)
        + assignee_event(opt_str_view(current_assignee), c.assignee, c.actor));
    e
}

/// What applying the change set `c` to issue `id` takes, given the issue's
/// status and assignee before the change and the time `now`:
/// - the UPDATE statement assigns each given field (see [`set_list`]), and
///   is absent when no column changes;
/// - a "reopened" event when the status leaves a terminal status for one
///   that is not, a "status_changed" event for any other change of status,
///   and an "assignee_changed" event when the stored assignee changes;
/// - the issue is marked for export when a column, the labels or the
///   annotations change.
pub fn update_issue_plan(
    c: &IssueChanges,
    id: &str,
    current_status: Option<&str>,
    current_assignee: Option<&str>,
    now: &str,
) -> (p: IssueUpdatePlan)
    ensures
        ({
            let l = set_list(*c, opt_str_view(current_status), now@);
            &&& l.len() == 0 ==> p.update is None
            &&& l.len() > 0 ==> (p.update matches Some(u) && u.0@ == update_sql(l) && value_views(u.1@)
                == assignment_values(l).push(ValueView::Text(id@)))
            &&& p.mark_dirty == (l.len() > 0 || c.labels is Some || c.annotations is Some)
        }),
        event_views(p.events@) == status_event(opt_str_view(current_status), c.status, c.actor)
            + assignee_event(opt_str_view(current_assignee), c.assignee, c.actor),
        p.status_changed == c.status is Some,
        statement_views(p.rewrites@) == rewrite_rows(id@, c.labels, c.annotations),
{
    let mut b = field_set_list(c, current_status, now);
    proof {
        assert(views(b.texts@).len() == b.texts@.len());
        assert(assignment_texts(b.list@).len() == b.list@.len());
    }
    let any_field = b.texts.len() > 0;
    if any_field {
        b.push(
            assignment_text("updated_at", " = ?").as_str(),
            Some(SqlValue::Text(to_owned_string(now))),
        );
    }
    assert(b.list@ == set_list(*c, opt_str_view(current_status), now@));
    let update = if any_field {
        let joined = join_strings(&b.texts, ", ");
        let mut text: Vec<char> = Vec::new();
        push_str_chars(&mut text, "UPDATE issues SET ");
        push_str_chars(&mut text, joined.as_str());
        push_str_chars(&mut text, " WHERE id = ?");
        let sql = string_from_chars(text.as_slice());
        let ghost vs = b.values@;
        let mut values = b.values;
        values.push(SqlValue::Text(to_owned_string(id)));
        assert(value_views(values@) =~= value_views(vs).push(ValueView::Text(id@)));
        Some((sql, values))
    } else {
        None
    };
    let events = update_events(c, current_status, current_assignee);
    IssueUpdatePlan {
        update,
        events,
        mark_dirty: any_field || c.labels.is_some() || c.annotations.is_some(),
        status_changed: c.status.is_some(),
        rewrites: rewrite_statements(id, &c.labels, &c.annotations),
    }
}


/// The SET list of a simple update of title, status and priority: the given
/// fields and, when there are any, the update time.
pub open spec fn simple_set_list(
    title: Option<String>,
    status: Option<String>,
    priority: Option<i32>,
    now: Seq<char>,
) -> Seq<Assignment> {
    let f = text_assignment("title"@, title) + text_assignment("status"@, status)
        + integer_assignment("priority"@, priority);
    if f.len() == 0 {
        f
    } else {
        f.push(("updated_at"@ + " = ?"@, Some(ValueView::Text(now))))
    }
}

/// The UPDATE statement with which `apply_issue_update` changes the title,
/// status and priority that are given of issue `id` at time `now`, with its
/// bound values (the id last); none when no field is given.
pub fn simple_update_statement(
    title: &Option<String>,
    status: &Option<String>,
    priority: Option<i32>,
    id: &str,
    now: &str,
) -> (r: Option<(String, Vec<SqlValue>)>)
    ensures
        ({
            let l = simple_set_list(*title, *status, priority, now@);
            &&& l.len() == 0 ==> r is None
            &&& l.len() > 0 ==> (r matches Some(u) && u.0@ == update_sql(l) && value_views(u.1@)
                == assignment_values(l).push(ValueView::Text(id@)))
        }),
{
    let mut b = SetBuilder::new();
    b.push_text("title", title);
    b.push_text("status", status);
    b.push_integer("priority", priority);
    proof {
        assert(views(b.texts@).len() == b.texts@.len());
        assert(assignment_texts(b.list@).len() == b.list@.len());
    }
    if b.texts.len() == 0 {
        return None;
    }
    b.push(
            assignment_text("updated_at", " = ?").as_str(),
            Some(SqlValue::Text(to_owned_string(now))),
        );
    let joined = join_strings(&b.texts, ", ");
    let mut text: Vec<char> = Vec::new();
    push_str_chars(&mut text, "UPDATE issues SET ");
    push_str_chars(&mut text, joined.as_str());
    push_str_chars(&mut text, " WHERE id = ?");
    let ghost vs = b.values@;
    let mut values = b.values;
    values.push(SqlValue::Text(to_owned_string(id)));
    assert(value_views(values@) =~= value_views(vs).push(ValueView::Text(id@)));
    Some((string_from_chars(text.as_slice()), values))
}

/// An update of a bead that does not exist.
#[derive(Debug, Clone, Copy, PartialEq, Eq)]
pub struct MissingBead;

/// What applying `c` to bead `id` takes, where `exists` says whether the
/// bead is stored: a missing bead is refused, and nothing is written for it;
/// a stored one gets the plan of [`update_issue_plan`].
pub fn checked_update_plan(
    c: &IssueChanges,
    id: &str,
    exists: bool,
    current_status: Option<&str>,
    current_assignee: Option<&str>,
    now: &str,
) -> (r: Result<IssueUpdatePlan, MissingBead>)
    ensures
        !exists ==> r == Err::<IssueUpdatePlan, MissingBead>(MissingBead),
        exists ==> (r matches Ok(p) && {
            let l = set_list(*c, opt_str_view(current_status), now@);
            &&& l.len() == 0 ==> p.update is None
            &&& l.len() > 0 ==> (p.update matches Some(u) && u.0@ == update_sql(l) && value_views(u.1@)
                == assignment_values(l).push(ValueView::Text(id@)))
            &&& p.mark_dirty == (l.len() > 0 || c.labels is Some || c.annotations is Some)
            &&& event_views(p.events@) == status_event(opt_str_view(current_status), c.status, c.actor)
                + assignee_event(opt_str_view(current_assignee), c.assignee, c.actor)
            &&& p.status_changed == c.status is Some
            &&& statement_views(p.rewrites@) == rewrite_rows(id@, c.labels, c.annotations)
        }),
{
    if !exists {
        return Err(MissingBead);
    }
    Ok(update_issue_plan(c, id, current_status, current_assignee, now))
}

/// The statement that closes a bead: closed status, no assignee, the close
/// time, reason and session, and the update time.
pub const CLOSE_SQL: &'static str = "UPDATE issues SET status = 'closed', assignee = NULL, closed_at = ?, close_reason = ?, closed_by_session = ?, updated_at = ? WHERE id = ?";

/// What closing a bead writes.
#[derive(Debug, Clone)]
pub struct ClosePlan {
    /// The UPDATE statement.
    pub sql: String,
    /// Its bound values.
    pub values: Vec<SqlValue>,
    /// The "closed" event (its new value is the reason).
    pub event: EventRecord,
}

/// What closing bead `id`, whose status is `current_status` (none when it
/// is not stored), with `reason` by `actor` at `now` writes: a missing bead
/// is refused; a closed one is left as it is (`None`); any other is closed,
/// its assignee cleared, its close fields filled, and a "closed" event
/// recorded. The bead is then marked for export.
pub fn close_plan(
    id: &str,
    current_status: Option<&str>,
    reason: &str,
    actor: &str,
    now: &str,
) -> (r: Result<Option<ClosePlan>, MissingBead>)
    ensures
        match current_status {
            None => r == Err::<Option<ClosePlan>, MissingBead>(MissingBead),
            Some(s) => if s@ == "closed"@ {
                r == Ok::<Option<ClosePlan>, MissingBead>(None)
            } else {
                r matches Ok(Some(p)) && p.sql@ == CLOSE_SQL@ && value_views(p.values@) == seq![
                    ValueView::Text(now@),
                    ValueView::Text(reason@),
                    ValueView::Text(actor@),
                    ValueView::Text(now@),
                    ValueView::Text(id@),
                ] && event_view(p.event) == ("closed"@, actor@, None::<Seq<char>>, Some(reason@))
            },
        },
{
    match current_status {
        None => Err(MissingBead),
        Some(s) => {
            if to_owned_string(s) == to_owned_string("closed") {
                return Ok(None);
            }
            let values = vec![
                SqlValue::Text(to_owned_string(now)),
                SqlValue::Text(to_owned_string(reason)),
                SqlValue::Text(to_owned_string(actor)),
                SqlValue::Text(to_owned_string(now)),
                SqlValue::Text(to_owned_string(id)),
            ];
            assert(value_views(values@) =~= seq![
                ValueView::Text(now@),
                ValueView::Text(reason@),
                ValueView::Text(actor@),
                ValueView::Text(now@),
                ValueView::Text(id@),
            ]);
            Ok(
                Some(
                    ClosePlan {
                        sql: to_owned_string(CLOSE_SQL),
                        values,
                        event: EventRecord {
                            event_type: to_owned_string("closed"),
                            actor: to_owned_string(actor),
                            old_value: None,
                            new_value: Some(to_owned_string(reason)),
                        },
                    },
                ),
            )
        },
    }
}

/// Why a bead cannot be reopened.
#[derive(Debug, Clone, PartialEq, Eq)]
pub enum ReopenRefusal {
    /// No bead has the id.
    NotFound,
    /// The bead is not closed; the message names its status.
    NotClosed(String),
}

/// The refusal to reopen bead `id` whose status is `status`.
pub open spec fn not_closed_message(id: Seq<char>, status: Seq<char>) -> Seq<char> {
    "Cannot reopen bead "@ + id + ": status is '"@ + status + "', must be 'closed'"@
}

/// Whether bead `id`, whose status is `current_status` (none when there is
/// no such bead), can be reopened: only a closed bead can.
pub fn check_reopen(id: &str, current_status: Option<&str>) -> (r: Result<(), ReopenRefusal>)
    ensures
        match current_status {
            None => r == Err::<(), ReopenRefusal>(ReopenRefusal::NotFound),
            Some(s) => if s@ == "closed"@ {
                r is Ok
            } else {
                r matches Err(ReopenRefusal::NotClosed(m)) && m@ == not_closed_message(id@, s@)
            },
        },
{
    match current_status {
        None => Err(ReopenRefusal::NotFound),
        Some(s) => {
            if to_owned_string(s) == to_owned_string("closed") {
                Ok(())
            } else {
                let mut text: Vec<char> = Vec::new();
                push_str_chars(&mut text, "Cannot reopen bead ");
                push_str_chars(&mut text, id);
                push_str_chars(&mut text, ": status is '");
                push_str_chars(&mut text, s);
                push_str_chars(&mut text, "', must be 'closed'");
                Err(ReopenRefusal::NotClosed(string_from_chars(text.as_slice())))
            }
        },
    }
}


/// The statement that reopens a closed bead: open, unassigned, close fields
/// cleared, bound to the time and then the id.
pub const REOPEN_SQL: &'static str = "UPDATE issues SET status = 'open', assignee = NULL, closed_at = NULL, close_reason = NULL, closed_by_session = NULL, updated_at = ?1 WHERE id = ?2";

/// What reopening a bead writes.
#[derive(Debug, Clone)]
pub struct ReopenPlan {
    /// The UPDATE statement ([`REOPEN_SQL`]).
    pub sql: String,
    /// Its bound values: the time, then the id.
    pub values: Vec<SqlValue>,
    /// The "reopened" event, by "system", from closed to open.
    pub event: EventRecord,
}

/// What reopening bead `id` at time `now` writes, where `current_status` is
/// its stored status (none when there is no such bead): refused as
/// [`check_reopen`] refuses; otherwise the bead is reopened and the event
/// recorded. The bead is then marked for export.
pub fn reopen_plan(id: &str, current_status: Option<&str>, now: &str) -> (r: Result<ReopenPlan, ReopenRefusal>)
    ensures
        match current_status {
            None => r == Err::<ReopenPlan, ReopenRefusal>(ReopenRefusal::NotFound),
            Some(s) => if s@ == "closed"@ {
                r matches Ok(p) && p.sql@ == REOPEN_SQL@ && value_views(p.values@) == seq![
                    ValueView::Text(now@),
                    ValueView::Text(id@),
                ] && event_view(p.event) == (
                    "reopened"@,
                    "system"@,
                    Some("closed"@),
                    Some("open"@),
                )
            } else {
                r matches Err(ReopenRefusal::NotClosed(m)) && m@ == not_closed_message(id@, s@)
            },
        },
{
    match check_reopen(id, current_status) {
        Err(e) => Err(e),
        Ok(()) => {
            let mut values: Vec<SqlValue> = Vec::new();
            values.push(SqlValue::Text(to_owned_string(now)));
            values.push(SqlValue::Text(to_owned_string(id)));
            assert(value_views(values@) =~= seq![ValueView::Text(now@), ValueView::Text(id@)]);
            Ok(
                ReopenPlan {
                    sql: to_owned_string(REOPEN_SQL),
                    values,
                    event: EventRecord {
                        event_type: to_owned_string("reopened"),
                        actor: to_owned_string("system"),
                        old_value: Some(to_owned_string("closed")),
                        new_value: Some(to_owned_string("open")),
                    },
                },
            )
        },
    }
}

/// The CHECK that the issues table puts on the status and the close time:
/// a closed issue has a close time, a tombstone may have one, and any other
/// issue has none.
pub open spec fn close_check(status: Seq<char>, closed_at_set: bool) -> bool {
    (status == "closed"@ && closed_at_set) || status == "tombstone"@ || (!is_closed_or_tombstone(
        status,
    ) && !closed_at_set)
}

/// Whether the close time is set once the assignments are made, given
/// whether it was set before.
pub open spec fn closed_at_after(a: Seq<Assignment>, before: bool) -> bool
    decreases a.len(),
{
    if a.len() == 0 {
        before
    } else if a.last().0 == "closed_at = NULL"@ {
        false
    } else if a.last().0 == "closed_at = ?"@ {
        true
    } else {
        closed_at_after(a.drop_last(), before)
    }
}

/// A status change keeps the issues table's CHECK on the status and the
/// close time: from a row that meets it, the assignments of a change to
/// status `s` give a row that meets it too.
pub proof fn lemma_status_change_keeps_close_check(
    s: String,
    current: Seq<char>,
    closed_at_set: bool,
    actor: Option<String>,
    now: Seq<char>,
)
    requires
        close_check(current, closed_at_set),
    ensures
        close_check(
            s@,
            closed_at_after(status_assignments(Some(s), Some(current), actor, now), closed_at_set),
        ),
{
    reveal_strlit("status = ?");
    reveal_strlit("closed_at = NULL");
    reveal_strlit("close_reason = NULL");
    reveal_strlit("closed_by_session = NULL");
    reveal_strlit("closed_at = ?");
    reveal_strlit("close_reason = ?");
    reveal_strlit("closed_by_session = ?");
    reveal_strlit("closed");
    reveal_strlit("tombstone");
    let a = status_assignments(Some(s), Some(current), actor, now);
    assert("close_reason = ?"@[5] != "closed_at = NULL"@[5]);
    assert("close_reason = ?"@ != "closed_at = NULL"@);
    if is_closed_or_tombstone(current) && !is_closed_or_tombstone(s@) {
        let a1 = a.drop_last();
        let a2 = a1.drop_last();
        assert(a.last().0 == "closed_by_session = NULL"@);
        assert(a.last().0.len() != "closed_at = NULL"@.len());
        assert(a.last().0.len() != "closed_at = ?"@.len());
        assert(closed_at_after(a, closed_at_set) == closed_at_after(a1, closed_at_set));
        assert(a1.last().0 == "close_reason = NULL"@);
        assert(a1.last().0.len() != "closed_at = NULL"@.len());
        assert(a1.last().0.len() != "closed_at = ?"@.len());
        assert(closed_at_after(a1, closed_at_set) == closed_at_after(a2, closed_at_set));
        assert(a2.last().0 == "closed_at = NULL"@);
        assert(closed_at_after(a, closed_at_set) == false);
    } else if s@ == "closed"@ && current != "closed"@ {
        let a1 = a.drop_last();
        let a2 = a1.drop_last();
        assert(a.last().0 == "closed_by_session = ?"@);
        assert(a.last().0.len() != "closed_at = NULL"@.len());
        assert(a.last().0.len() != "closed_at = ?"@.len());
        assert(closed_at_after(a, closed_at_set) == closed_at_after(a1, closed_at_set));
        assert(a1.last().0 == "close_reason = ?"@);
        assert(a1.last().0 != "closed_at = NULL"@);
        assert(a1.last().0.len() != "closed_at = ?"@.len());
        assert(closed_at_after(a1, closed_at_set) == closed_at_after(a2, closed_at_set));
        assert(a2.last().0 == "closed_at = ?"@);
        assert(a2.last().0.len() != "closed_at = NULL"@.len());
        assert(closed_at_after(a, closed_at_set) == true);
    } else {
        assert(a =~= seq![("status = ?"@, Some(ValueView::Text(s@)))]);
        assert(a.drop_last() =~= Seq::<Assignment>::empty());
        assert(a.last().0.len() != "closed_at = NULL"@.len());
        assert(a.last().0.len() != "closed_at = ?"@.len());
        assert(closed_at_after(a.drop_last(), closed_at_set) == closed_at_set);
        assert(closed_at_after(a, closed_at_set) == closed_at_set);
    }
}


/// A stored row: the value of each column.
pub type Row = Map<Seq<char>, ValueView>;

/// The column an assignment writes: its text without ` = ?` or ` = NULL`.
pub open spec fn assignment_target(a: Assignment) -> Seq<char> {
    match a.1 {
        Some(_) => a.0.take(a.0.len() - 4),
        None => a.0.take(a.0.len() - 7),
    }
}

/// The value an assignment writes: its bound value, or NULL.
pub open spec fn assigned_value(a: Assignment) -> ValueView {
    match a.1 {
        Some(v) => v,
        None => ValueView::Null,
    }
}

/// The row after the assignments are made, one after the other.
pub open spec fn apply_set(row: Row, l: Seq<Assignment>) -> Row
    decreases l.len(),
{
    if l.len() == 0 {
        row
    } else {
        apply_set(row, l.drop_last()).insert(assignment_target(l.last()), assigned_value(l.last()))
    }
}

/// Whether `col` is the column of a field that the change set gives.
pub open spec fn given_column(c: IssueChanges, col: Seq<char>) -> bool {
    (c.title is Some && col == "title"@) ||
    (c.description is Some && col == "description"@) ||
    (c.design is Some && col == "design"@) ||
    (c.acceptance_criteria is Some && col == "acceptance_criteria"@) ||
    (c.notes is Some && col == "notes"@) ||
    (c.priority is Some && col == "priority"@) ||
    (c.issue_type is Some && col == "issue_type"@) ||
    (c.assignee is Some && col == "assignee"@) ||
    (c.owner is Some && col == "owner"@) ||
    (c.estimated_minutes is Some && col == "estimated_minutes"@) ||
    (c.due_at is Some && col == "due_at"@) ||
    (c.defer_until is Some && col == "defer_until"@) ||
    (c.external_ref is Some && col == "external_ref"@)
}

/// The row with `col` set to the given text, or unchanged when none is given.
pub open spec fn with_text(r: Row, col: Seq<char>, v: Option<String>) -> Row {
    match v {
        Some(x) => r.insert(col, ValueView::Text(x@)),
        None => r,
    }
}

/// The row with `col` set to the given integer, or unchanged when none is given.
pub open spec fn with_integer(r: Row, col: Seq<char>, v: Option<i32>) -> Row {
    match v {
        Some(x) => r.insert(col, ValueView::Integer(x as int)),
        None => r,
    }
}

/// The row with the assignee set as stored (NULL when blank), or unchanged
/// when none is given.
pub open spec fn with_assignee(r: Row, v: Option<String>) -> Row {
    match v {
        Some(a) => r.insert(
            "assignee"@,
            match stored_assignee(a@) {
                Some(t) => ValueView::Text(t),
                None => ValueView::Null,
            },
        ),
        None => r,
    }
}

proof fn lemma_apply_concat(row: Row, a: Seq<Assignment>, b: Seq<Assignment>)
    ensures
        apply_set(row, a + b) == apply_set(apply_set(row, a), b),
    decreases b.len(),
{
    if b.len() == 0 {
        assert(a + b =~= a);
    } else {
        lemma_apply_concat(row, a, b.drop_last());
        assert((a + b).drop_last() =~= a + b.drop_last());
    }
}

proof fn lemma_target_of(col: Seq<char>, rhs: Seq<char>)
    ensures
        (col + rhs).take(col.len() as int) == col,
{
    assert((col + rhs).take(col.len() as int) =~= col);
}

proof fn lemma_apply_part_text(r: Row, col: Seq<char>, v: Option<String>)
    ensures
        apply_set(r, text_assignment(col, v)) == with_text(r, col, v),
{
    if let Some(x) = v {
        reveal_strlit(" = ?");
        lemma_target_of(col, " = ?"@);
        let l = text_assignment(col, v);
        assert(l.drop_last() =~= Seq::<Assignment>::empty());
        assert(apply_set(r, l.drop_last()) == r);
        assert((col + " = ?"@).len() - 4 == col.len());
        assert(assignment_target(l.last()) == col);
        assert(assigned_value(l.last()) == ValueView::Text(x@));
    }
}

proof fn lemma_apply_part_int(r: Row, col: Seq<char>, v: Option<i32>)
    ensures
        apply_set(r, integer_assignment(col, v)) == with_integer(r, col, v),
{
    if let Some(x) = v {
        reveal_strlit(" = ?");
        lemma_target_of(col, " = ?"@);
        let l = integer_assignment(col, v);
        assert(l.drop_last() =~= Seq::<Assignment>::empty());
        assert(apply_set(r, l.drop_last()) == r);
        assert((col + " = ?"@).len() - 4 == col.len());
        assert(assignment_target(l.last()) == col);
        assert(assigned_value(l.last()) == ValueView::Integer(x as int));
    }
}

proof fn lemma_apply_part_assignee(r: Row, v: Option<String>)
    ensures
        apply_set(r, assignee_assignment(v)) == with_assignee(r, v),
{
    if let Some(a) = v {
        reveal_strlit(" = ?");
        reveal_strlit(" = NULL");
        reveal_strlit("assignee");
        lemma_target_of("assignee"@, " = ?"@);
        lemma_target_of("assignee"@, " = NULL"@);
        let l = assignee_assignment(v);
        assert(l.drop_last() =~= Seq::<Assignment>::empty());
        assert(apply_set(r, l.drop_last()) == r);
        assert(("assignee"@ + " = ?"@).len() - 4 == "assignee"@.len());
        assert(("assignee"@ + " = NULL"@).len() - 7 == "assignee"@.len());
        assert(assignment_target(l.last()) == "assignee"@);
    }
}

/// The row that a change set without a status gives, field by field.
pub open spec fn field_row(row: Row, c: IssueChanges) -> Row {
    with_text(with_text(with_text(with_integer(with_text(with_assignee(with_text(with_integer(with_text(with_text(with_text(with_text(with_text(row, "title"@, c.title), "description"@, c.description), "design"@, c.design), "acceptance_criteria"@, c.acceptance_criteria), "notes"@, c.notes), "priority"@, c.priority), "issue_type"@, c.issue_type), c.assignee), "owner"@, c.owner), "estimated_minutes"@, c.estimated_minutes), "due_at"@, c.due_at), "defer_until"@, c.defer_until), "external_ref"@, c.external_ref)
}

proof fn lemma_field_row(row: Row, c: IssueChanges, current: Option<Seq<char>>, now: Seq<char>)
    requires
        c.status is None,
    ensures
        apply_set(row, field_assignments(c, current, now)) == field_row(row, c),
{
    lemma_apply_part_text(row, "title"@, c.title);
    lemma_apply_concat(row, text_assignment("title"@, c.title), text_assignment("description"@, c.description));
    lemma_apply_part_text(apply_set(row, text_assignment("title"@, c.title)), "description"@, c.description);
    lemma_apply_concat(row, text_assignment("title"@, c.title) + text_assignment("description"@, c.description), text_assignment("design"@, c.design));
    lemma_apply_part_text(apply_set(row, text_assignment("title"@, c.title) + text_assignment("description"@, c.description)), "design"@, c.design);
    lemma_apply_concat(row, text_assignment("title"@, c.title) + text_assignment("description"@, c.description) + text_assignment("design"@, c.design), text_assignment("acceptance_criteria"@, c.acceptance_criteria));
    lemma_apply_part_text(apply_set(row, text_assignment("title"@, c.title) + text_assignment("description"@, c.description) + text_assignment("design"@, c.design)), "acceptance_criteria"@, c.acceptance_criteria);
    lemma_apply_concat(row, text_assignment("title"@, c.title) + text_assignment("description"@, c.description) + text_assignment("design"@, c.design) + text_assignment("acceptance_criteria"@, c.acceptance_criteria), text_assignment("notes"@, c.notes));
    lemma_apply_part_text(apply_set(row, text_assignment("title"@, c.title) + text_assignment("description"@, c.description) + text_assignment("design"@, c.design) + text_assignment("acceptance_criteria"@, c.acceptance_criteria)), "notes"@, c.notes);
    lemma_apply_concat(row, text_assignment("title"@, c.title) + text_assignment("description"@, c.description) + text_assignment("design"@, c.design) + text_assignment("acceptance_criteria"@, c.acceptance_criteria) + text_assignment("notes"@, c.notes), status_assignments(c.status, current, c.actor, now));
    assert(apply_set(apply_set(row, text_assignment("title"@, c.title) + text_assignment("description"@, c.description) + text_assignment("design"@, c.design) + text_assignment("acceptance_criteria"@, c.acceptance_criteria) + text_assignment("notes"@, c.notes)), status_assignments(c.status, current, c.actor, now)) == apply_set(row, text_assignment("title"@, c.title) + text_assignment("description"@, c.description) + text_assignment("design"@, c.design) + text_assignment("acceptance_criteria"@, c.acceptance_criteria) + text_assignment("notes"@, c.notes)));
    lemma_apply_concat(row, text_assignment("title"@, c.title) + text_assignment("description"@, c.description) + text_assignment("design"@, c.design) + text_assignment("acceptance_criteria"@, c.acceptance_criteria) + text_assignment("notes"@, c.notes) + status_assignments(c.status, current, c.actor, now), integer_assignment("priority"@, c.priority));
    lemma_apply_part_int(apply_set(row, text_assignment("title"@, c.title) + text_assignment("description"@, c.description) + text_assignment("design"@, c.design) + text_assignment("acceptance_criteria"@, c.acceptance_criteria) + text_assignment("notes"@, c.notes) + status_assignments(c.status, current, c.actor, now)), "priority"@, c.priority);
    lemma_apply_concat(row, text_assignment("title"@, c.title) + text_assignment("description"@, c.description) + text_assignment("design"@, c.design) + text_assignment("acceptance_criteria"@, c.acceptance_criteria) + text_assignment("notes"@, c.notes) + status_assignments(c.status, current, c.actor, now) + integer_assignment("priority"@, c.priority), text_assignment("issue_type"@, c.issue_type));
    lemma_apply_part_text(apply_set(row, text_assignment("title"@, c.title) + text_assignment("description"@, c.description) + text_assignment("design"@, c.design) + text_assignment("acceptance_criteria"@, c.acceptance_criteria) + text_assignment("notes"@, c.notes) + status_assignments(c.status, current, c.actor, now) + integer_assignment("priority"@, c.priority)), "issue_type"@, c.issue_type);
    lemma_apply_concat(row, text_assignment("title"@, c.title) + text_assignment("description"@, c.description) + text_assignment("design"@, c.design) + text_assignment("acceptance_criteria"@, c.acceptance_criteria) + text_assignment("notes"@, c.notes) + status_assignments(c.status, current, c.actor, now) + integer_assignment("priority"@, c.priority) + text_assignment("issue_type"@, c.issue_type), assignee_assignment(c.assignee));
    lemma_apply_part_assignee(apply_set(row, text_assignment("title"@, c.title) + text_assignment("description"@, c.description) + text_assignment("design"@, c.design) + text_assignment("acceptance_criteria"@, c.acceptance_criteria) + text_assignment("notes"@, c.notes) + status_assignments(c.status, current, c.actor, now) + integer_assignment("priority"@, c.priority) + text_assignment("issue_type"@, c.issue_type)), c.assignee);
    lemma_apply_concat(row, text_assignment("title"@, c.title) + text_assignment("description"@, c.description) + text_assignment("design"@, c.design) + text_assignment("acceptance_criteria"@, c.acceptance_criteria) + text_assignment("notes"@, c.notes) + status_assignments(c.status, current, c.actor, now) + integer_assignment("priority"@, c.priority) + text_assignment("issue_type"@, c.issue_type) + assignee_assignment(c.assignee), text_assignment("owner"@, c.owner));
    lemma_apply_part_text(apply_set(row, text_assignment("title"@, c.title) + text_assignment("description"@, c.description) + text_assignment("design"@, c.design) + text_assignment("acceptance_criteria"@, c.acceptance_criteria) + text_assignment("notes"@, c.notes) + status_assignments(c.status, current, c.actor, now) + integer_assignment("priority"@, c.priority) + text_assignment("issue_type"@, c.issue_type) + assignee_assignment(c.assignee)), "owner"@, c.owner);
    lemma_apply_concat(row, text_assignment("title"@, c.title) + text_assignment("description"@, c.description) + text_assignment("design"@, c.design) + text_assignment("acceptance_criteria"@, c.acceptance_criteria) + text_assignment("notes"@, c.notes) + status_assignments(c.status, current, c.actor, now) + integer_assignment("priority"@, c.priority) + text_assignment("issue_type"@, c.issue_type) + assignee_assignment(c.assignee) + text_assignment("owner"@, c.owner), integer_assignment("estimated_minutes"@, c.estimated_minutes));
    lemma_apply_part_int(apply_set(row, text_assignment("title"@, c.title) + text_assignment("description"@, c.description) + text_assignment("design"@, c.design) + text_assignment("acceptance_criteria"@, c.acceptance_criteria) + text_assignment("notes"@, c.notes) + status_assignments(c.status, current, c.actor, now) + integer_assignment("priority"@, c.priority) + text_assignment("issue_type"@, c.issue_type) + assignee_assignment(c.assignee) + text_assignment("owner"@, c.owner)), "estimated_minutes"@, c.estimated_minutes);
    lemma_apply_concat(row, text_assignment("title"@, c.title) + text_assignment("description"@, c.description) + text_assignment("design"@, c.design) + text_assignment("acceptance_criteria"@, c.acceptance_criteria) + text_assignment("notes"@, c.notes) + status_assignments(c.status, current, c.actor, now) + integer_assignment("priority"@, c.priority) + text_assignment("issue_type"@, c.issue_type) + assignee_assignment(c.assignee) + text_assignment("owner"@, c.owner) + integer_assignment("estimated_minutes"@, c.estimated_minutes), text_assignment("due_at"@, c.due_at));
    lemma_apply_part_text(apply_set(row, text_assignment("title"@, c.title) + text_assignment("description"@, c.description) + text_assignment("design"@, c.design) + text_assignment("acceptance_criteria"@, c.acceptance_criteria) + text_assignment("notes"@, c.notes) + status_assignments(c.status, current, c.actor, now) + integer_assignment("priority"@, c.priority) + text_assignment("issue_type"@, c.issue_type) + assignee_assignment(c.assignee) + text_assignment("owner"@, c.owner) + integer_assignment("estimated_minutes"@, c.estimated_minutes)), "due_at"@, c.due_at);
    lemma_apply_concat(row, text_assignment("title"@, c.title) + text_assignment("description"@, c.description) + text_assignment("design"@, c.design) + text_assignment("acceptance_criteria"@, c.acceptance_criteria) + text_assignment("notes"@, c.notes) + status_assignments(c.status, current, c.actor, now) + integer_assignment("priority"@, c.priority) + text_assignment("issue_type"@, c.issue_type) + assignee_assignment(c.assignee) + text_assignment("owner"@, c.owner) + integer_assignment("estimated_minutes"@, c.estimated_minutes) + text_assignment("due_at"@, c.due_at), text_assignment("defer_until"@, c.defer_until));
    lemma_apply_part_text(apply_set(row, text_assignment("title"@, c.title) + text_assignment("description"@, c.description) + text_assignment("design"@, c.design) + text_assignment("acceptance_criteria"@, c.acceptance_criteria) + text_assignment("notes"@, c.notes) + status_assignments(c.status, current, c.actor, now) + integer_assignment("priority"@, c.priority) + text_assignment("issue_type"@, c.issue_type) + assignee_assignment(c.assignee) + text_assignment("owner"@, c.owner) + integer_assignment("estimated_minutes"@, c.estimated_minutes) + text_assignment("due_at"@, c.due_at)), "defer_until"@, c.defer_until);
    lemma_apply_concat(row, text_assignment("title"@, c.title) + text_assignment("description"@, c.description) + text_assignment("design"@, c.design) + text_assignment("acceptance_criteria"@, c.acceptance_criteria) + text_assignment("notes"@, c.notes) + status_assignments(c.status, current, c.actor, now) + integer_assignment("priority"@, c.priority) + text_assignment("issue_type"@, c.issue_type) + assignee_assignment(c.assignee) + text_assignment("owner"@, c.owner) + integer_assignment("estimated_minutes"@, c.estimated_minutes) + text_assignment("due_at"@, c.due_at) + text_assignment("defer_until"@, c.defer_until), text_assignment("external_ref"@, c.external_ref));
    lemma_apply_part_text(apply_set(row, text_assignment("title"@, c.title) + text_assignment("description"@, c.description) + text_assignment("design"@, c.design) + text_assignment("acceptance_criteria"@, c.acceptance_criteria) + text_assignment("notes"@, c.notes) + status_assignments(c.status, current, c.actor, now) + integer_assignment("priority"@, c.priority) + text_assignment("issue_type"@, c.issue_type) + assignee_assignment(c.assignee) + text_assignment("owner"@, c.owner) + integer_assignment("estimated_minutes"@, c.estimated_minutes) + text_assignment("due_at"@, c.due_at) + text_assignment("defer_until"@, c.defer_until)), "external_ref"@, c.external_ref);
}

proof fn lemma_column_names_distinct()
    ensures
        "title"@ != "description"@,
        "title"@ != "design"@,
        "title"@ != "acceptance_criteria"@,
        "title"@ != "notes"@,
        "title"@ != "priority"@,
        "title"@ != "issue_type"@,
        "title"@ != "assignee"@,
        "title"@ != "owner"@,
        "title"@ != "estimated_minutes"@,
        "title"@ != "due_at"@,
        "title"@ != "defer_until"@,
        "title"@ != "external_ref"@,
        "title"@ != "updated_at"@,
        "description"@ != "design"@,
        "description"@ != "acceptance_criteria"@,
        "description"@ != "notes"@,
        "description"@ != "priority"@,
        "description"@ != "issue_type"@,
        "description"@ != "assignee"@,
        "description"@ != "owner"@,
        "description"@ != "estimated_minutes"@,
        "description"@ != "due_at"@,
        "description"@ != "defer_until"@,
        "description"@ != "external_ref"@,
        "description"@ != "updated_at"@,
        "design"@ != "acceptance_criteria"@,
        "design"@ != "notes"@,
        "design"@ != "priority"@,
        "design"@ != "issue_type"@,
        "design"@ != "assignee"@,
        "design"@ != "owner"@,
        "design"@ != "estimated_minutes"@,
        "design"@ != "due_at"@,
        "design"@ != "defer_until"@,
        "design"@ != "external_ref"@,
        "design"@ != "updated_at"@,
        "acceptance_criteria"@ != "notes"@,
        "acceptance_criteria"@ != "priority"@,
        "acceptance_criteria"@ != "issue_type"@,
        "acceptance_criteria"@ != "assignee"@,
        "acceptance_criteria"@ != "owner"@,
        "acceptance_criteria"@ != "estimated_minutes"@,
        "acceptance_criteria"@ != "due_at"@,
        "acceptance_criteria"@ != "defer_until"@,
        "acceptance_criteria"@ != "external_ref"@,
        "acceptance_criteria"@ != "updated_at"@,
        "notes"@ != "priority"@,
        "notes"@ != "issue_type"@,
        "notes"@ != "assignee"@,
        "notes"@ != "owner"@,
        "notes"@ != "estimated_minutes"@,
        "notes"@ != "due_at"@,
        "notes"@ != "defer_until"@,
        "notes"@ != "external_ref"@,
        "notes"@ != "updated_at"@,
        "priority"@ != "issue_type"@,
        "priority"@ != "assignee"@,
        "priority"@ != "owner"@,
        "priority"@ != "estimated_minutes"@,
        "priority"@ != "due_at"@,
        "priority"@ != "defer_until"@,
        "priority"@ != "external_ref"@,
        "priority"@ != "updated_at"@,
        "issue_type"@ != "assignee"@,
        "issue_type"@ != "owner"@,
        "issue_type"@ != "estimated_minutes"@,
        "issue_type"@ != "due_at"@,
        "issue_type"@ != "defer_until"@,
        "issue_type"@ != "external_ref"@,
        "issue_type"@ != "updated_at"@,
        "assignee"@ != "owner"@,
        "assignee"@ != "estimated_minutes"@,
        "assignee"@ != "due_at"@,
        "assignee"@ != "defer_until"@,
        "assignee"@ != "external_ref"@,
        "assignee"@ != "updated_at"@,
        "owner"@ != "estimated_minutes"@,
        "owner"@ != "due_at"@,
        "owner"@ != "defer_until"@,
        "owner"@ != "external_ref"@,
        "owner"@ != "updated_at"@,
        "estimated_minutes"@ != "due_at"@,
        "estimated_minutes"@ != "defer_until"@,
        "estimated_minutes"@ != "external_ref"@,
        "estimated_minutes"@ != "updated_at"@,
        "due_at"@ != "defer_until"@,
        "due_at"@ != "external_ref"@,
        "due_at"@ != "updated_at"@,
        "defer_until"@ != "external_ref"@,
        "defer_until"@ != "updated_at"@,
        "external_ref"@ != "updated_at"@,
{
    reveal_strlit("title");
    reveal_strlit("description");
    reveal_strlit("design");
    reveal_strlit("acceptance_criteria");
    reveal_strlit("notes");
    reveal_strlit("priority");
    reveal_strlit("issue_type");
    reveal_strlit("assignee");
    reveal_strlit("owner");
    reveal_strlit("estimated_minutes");
    reveal_strlit("due_at");
    reveal_strlit("defer_until");
    reveal_strlit("external_ref");
    reveal_strlit("updated_at");
    assert("title"@.len() == 5);
    assert("description"@.len() == 11);
    assert("design"@.len() == 6);
    assert("acceptance_criteria"@.len() == 19);
    assert("notes"@.len() == 5);
    assert("priority"@.len() == 8);
    assert("issue_type"@.len() == 10);
    assert("assignee"@.len() == 8);
    assert("owner"@.len() == 5);
    assert("estimated_minutes"@.len() == 17);
    assert("due_at"@.len() == 6);
    assert("defer_until"@.len() == 11);
    assert("external_ref"@.len() == 12);
    assert("updated_at"@.len() == 10);
    assert("description"@[3] != "design"@[3]);
    assert("acceptance_criteria"@[0] != "assignee"@[0] || "acceptance_criteria"@.len() != "assignee"@.len());
    assert("title"@[0] != "notes"@[0]);
    assert("title"@[0] != "owner"@[0]);
    assert("description"@[2] != "defer_until"@[2]);
    assert("design"@[1] != "due_at"@[1]);
    assert("notes"@[0] != "owner"@[0]);
    assert("priority"@[0] != "assignee"@[0]);
    assert("issue_type"@[0] != "updated_at"@[0]);
}

/// Whether two rows agree at a column: both lack it, or both hold the same
/// value there.
pub open spec fn agree_at(a: Row, b: Row, col: Seq<char>) -> bool {
    a.dom().contains(col) == b.dom().contains(col) && (b.dom().contains(col) ==> a[col] == b[col])
}

proof fn lemma_field_row_keeps(row: Row, c: IssueChanges, col: Seq<char>)
    requires
        !given_column(c, col),
    ensures
        agree_at(field_row(row, c), row, col),
{
    let r1 = with_text(row, "title"@, c.title);
    let r2 = with_text(r1, "description"@, c.description);
    let r3 = with_text(r2, "design"@, c.design);
    let r4 = with_text(r3, "acceptance_criteria"@, c.acceptance_criteria);
    let r5 = with_text(r4, "notes"@, c.notes);
    let r6 = with_integer(r5, "priority"@, c.priority);
    let r7 = with_text(r6, "issue_type"@, c.issue_type);
    let r8 = with_assignee(r7, c.assignee);
    let r9 = with_text(r8, "owner"@, c.owner);
    let r10 = with_integer(r9, "estimated_minutes"@, c.estimated_minutes);
    let r11 = with_text(r10, "due_at"@, c.due_at);
    let r12 = with_text(r11, "defer_until"@, c.defer_until);
    let r13 = with_text(r12, "external_ref"@, c.external_ref);
    assert(agree_at(r1, row, col));
    assert(agree_at(r2, row, col));
    assert(agree_at(r3, row, col));
    assert(agree_at(r4, row, col));
    assert(agree_at(r5, row, col));
    assert(agree_at(r6, row, col));
    assert(agree_at(r7, row, col));
    assert(agree_at(r8, row, col));
    assert(agree_at(r9, row, col));
    assert(agree_at(r10, row, col));
    assert(agree_at(r11, row, col));
    assert(agree_at(r12, row, col));
    assert(agree_at(r13, row, col));
}

proof fn lemma_field_row_values(row: Row, c: IssueChanges)
    ensures
        c.title matches Some(x) ==> field_row(row, c)["title"@] == ValueView::Text(x@),
        c.description matches Some(x) ==> field_row(row, c)["description"@] == ValueView::Text(x@),
        c.design matches Some(x) ==> field_row(row, c)["design"@] == ValueView::Text(x@),
        c.acceptance_criteria matches Some(x) ==> field_row(row, c)["acceptance_criteria"@] == ValueView::Text(x@),
        c.notes matches Some(x) ==> field_row(row, c)["notes"@] == ValueView::Text(x@),
        c.priority matches Some(x) ==> field_row(row, c)["priority"@] == ValueView::Integer(x as int),
        c.issue_type matches Some(x) ==> field_row(row, c)["issue_type"@] == ValueView::Text(x@),
        c.assignee matches Some(x) ==> field_row(row, c)["assignee"@] == match stored_assignee(x@) {
                Some(t) => ValueView::Text(t),
                None => ValueView::Null,
            },
        c.owner matches Some(x) ==> field_row(row, c)["owner"@] == ValueView::Text(x@),
        c.estimated_minutes matches Some(x) ==> field_row(row, c)["estimated_minutes"@] == ValueView::Integer(x as int),
        c.due_at matches Some(x) ==> field_row(row, c)["due_at"@] == ValueView::Text(x@),
        c.defer_until matches Some(x) ==> field_row(row, c)["defer_until"@] == ValueView::Text(x@),
        c.external_ref matches Some(x) ==> field_row(row, c)["external_ref"@] == ValueView::Text(x@),
{
    lemma_column_names_distinct();
    let r1 = with_text(row, "title"@, c.title);
    let r2 = with_text(r1, "description"@, c.description);
    let r3 = with_text(r2, "design"@, c.design);
    let r4 = with_text(r3, "acceptance_criteria"@, c.acceptance_criteria);
    let r5 = with_text(r4, "notes"@, c.notes);
    let r6 = with_integer(r5, "priority"@, c.priority);
    let r7 = with_text(r6, "issue_type"@, c.issue_type);
    let r8 = with_assignee(r7, c.assignee);
    let r9 = with_text(r8, "owner"@, c.owner);
    let r10 = with_integer(r9, "estimated_minutes"@, c.estimated_minutes);
    let r11 = with_text(r10, "due_at"@, c.due_at);
    let r12 = with_text(r11, "defer_until"@, c.defer_until);
    let r13 = with_text(r12, "external_ref"@, c.external_ref);
    if let Some(x) = c.title {
        assert(r1["title"@] == ValueView::Text(x@));
        assert(r2["title"@] == ValueView::Text(x@));
        assert(r3["title"@] == ValueView::Text(x@));
        assert(r4["title"@] == ValueView::Text(x@));
        assert(r5["title"@] == ValueView::Text(x@));
        assert(r6["title"@] == ValueView::Text(x@));
        assert(r7["title"@] == ValueView::Text(x@));
        assert(r8["title"@] == ValueView::Text(x@));
        assert(r9["title"@] == ValueView::Text(x@));
        assert(r10["title"@] == ValueView::Text(x@));
        assert(r11["title"@] == ValueView::Text(x@));
        assert(r12["title"@] == ValueView::Text(x@));
        assert(r13["title"@] == ValueView::Text(x@));
    }
    if let Some(x) = c.description {
        assert(r2["description"@] == ValueView::Text(x@));
        assert(r3["description"@] == ValueView::Text(x@));
        assert(r4["description"@] == ValueView::Text(x@));
        assert(r5["description"@] == ValueView::Text(x@));
        assert(r6["description"@] == ValueView::Text(x@));
        assert(r7["description"@] == ValueView::Text(x@));
        assert(r8["description"@] == ValueView::Text(x@));
        assert(r9["description"@] == ValueView::Text(x@));
        assert(r10["description"@] == ValueView::Text(x@));
        assert(r11["description"@] == ValueView::Text(x@));
        assert(r12["description"@] == ValueView::Text(x@));
        assert(r13["description"@] == ValueView::Text(x@));
    }
    if let Some(x) = c.design {
        assert(r3["design"@] == ValueView::Text(x@));
        assert(r4["design"@] == ValueView::Text(x@));
        assert(r5["design"@] == ValueView::Text(x@));
        assert(r6["design"@] == ValueView::Text(x@));
        assert(r7["design"@] == ValueView::Text(x@));
        assert(r8["design"@] == ValueView::Text(x@));
        assert(r9["design"@] == ValueView::Text(x@));
        assert(r10["design"@] == ValueView::Text(x@));
        assert(r11["design"@] == ValueView::Text(x@));
        assert(r12["design"@] == ValueView::Text(x@));
        assert(r13["design"@] == ValueView::Text(x@));
    }
    if let Some(x) = c.acceptance_criteria {
        assert(r4["acceptance_criteria"@] == ValueView::Text(x@));
        assert(r5["acceptance_criteria"@] == ValueView::Text(x@));
        assert(r6["acceptance_criteria"@] == ValueView::Text(x@));
        assert(r7["acceptance_criteria"@] == ValueView::Text(x@));
        assert(r8["acceptance_criteria"@] == ValueView::Text(x@));
        assert(r9["acceptance_criteria"@] == ValueView::Text(x@));
        assert(r10["acceptance_criteria"@] == ValueView::Text(x@));
        assert(r11["acceptance_criteria"@] == ValueView::Text(x@));
        assert(r12["acceptance_criteria"@] == ValueView::Text(x@));
        assert(r13["acceptance_criteria"@] == ValueView::Text(x@));
    }
    if let Some(x) = c.notes {
        assert(r5["notes"@] == ValueView::Text(x@));
        assert(r6["notes"@] == ValueView::Text(x@));
        assert(r7["notes"@] == ValueView::Text(x@));
        assert(r8["notes"@] == ValueView::Text(x@));
        assert(r9["notes"@] == ValueView::Text(x@));
        assert(r10["notes"@] == ValueView::Text(x@));
        assert(r11["notes"@] == ValueView::Text(x@));
        assert(r12["notes"@] == ValueView::Text(x@));
        assert(r13["notes"@] == ValueView::Text(x@));
    }
    if let Some(x) = c.priority {
        assert(r6["priority"@] == ValueView::Integer(x as int));
        assert(r7["priority"@] == ValueView::Integer(x as int));
        assert(r8["priority"@] == ValueView::Integer(x as int));
        assert(r9["priority"@] == ValueView::Integer(x as int));
        assert(r10["priority"@] == ValueView::Integer(x as int));
        assert(r11["priority"@] == ValueView::Integer(x as int));
        assert(r12["priority"@] == ValueView::Integer(x as int));
        assert(r13["priority"@] == ValueView::Integer(x as int));
    }
    if let Some(x) = c.issue_type {
        assert(r7["issue_type"@] == ValueView::Text(x@));
        assert(r8["issue_type"@] == ValueView::Text(x@));
        assert(r9["issue_type"@] == ValueView::Text(x@));
        assert(r10["issue_type"@] == ValueView::Text(x@));
        assert(r11["issue_type"@] == ValueView::Text(x@));
        assert(r12["issue_type"@] == ValueView::Text(x@));
        assert(r13["issue_type"@] == ValueView::Text(x@));
    }
    if let Some(x) = c.assignee {
        assert(r8["assignee"@] == match stored_assignee(x@) {
                    Some(t) => ValueView::Text(t),
                    None => ValueView::Null,
                });
        assert(r9["assignee"@] == match stored_assignee(x@) {
                    Some(t) => ValueView::Text(t),
                    None => ValueView::Null,
                });
        assert(r10["assignee"@] == match stored_assignee(x@) {
                    Some(t) => ValueView::Text(t),
                    None => ValueView::Null,
                });
        assert(r11["assignee"@] == match stored_assignee(x@) {
                    Some(t) => ValueView::Text(t),
                    None => ValueView::Null,
                });
        assert(r12["assignee"@] == match stored_assignee(x@) {
                    Some(t) => ValueView::Text(t),
                    None => ValueView::Null,
                });
        assert(r13["assignee"@] == match stored_assignee(x@) {
                    Some(t) => ValueView::Text(t),
                    None => ValueView::Null,
                });
    }
    if let Some(x) = c.owner {
        assert(r9["owner"@] == ValueView::Text(x@));
        assert(r10["owner"@] == ValueView::Text(x@));
        assert(r11["owner"@] == ValueView::Text(x@));
        assert(r12["owner"@] == ValueView::Text(x@));
        assert(r13["owner"@] == ValueView::Text(x@));
    }
    if let Some(x) = c.estimated_minutes {
        assert(r10["estimated_minutes"@] == ValueView::Integer(x as int));
        assert(r11["estimated_minutes"@] == ValueView::Integer(x as int));
        assert(r12["estimated_minutes"@] == ValueView::Integer(x as int));
        assert(r13["estimated_minutes"@] == ValueView::Integer(x as int));
    }
    if let Some(x) = c.due_at {
        assert(r11["due_at"@] == ValueView::Text(x@));
        assert(r12["due_at"@] == ValueView::Text(x@));
        assert(r13["due_at"@] == ValueView::Text(x@));
    }
    if let Some(x) = c.defer_until {
        assert(r12["defer_until"@] == ValueView::Text(x@));
        assert(r13["defer_until"@] == ValueView::Text(x@));
    }
    if let Some(x) = c.external_ref {
        assert(r13["external_ref"@] == ValueView::Text(x@));
    }
}

/// An update that changes no status changes only the columns of the fields
/// it gives, and the update time: each given field holds its new value (a
/// blank assignee reads back as NULL), the update time is `now` when any
/// field is given, and every other column keeps its value. With no field
/// given the row stays as it is.
#[verifier::rlimit(100)]
pub proof fn lemma_update_changes_only_given_fields(
    row: Row,
    c: IssueChanges,
    current: Option<Seq<char>>,
    now: Seq<char>,
)
    requires
        c.status is None,
    ensures
        ({
            let r = apply_set(row, set_list(c, current, now));
            &&& forall|col: Seq<char>|
                !given_column(c, col) && col != "updated_at"@ ==> (r.dom().contains(col)
                    == row.dom().contains(col) && (row.dom().contains(col) ==> r[col] == row[col]))
            &&& c.title matches Some(x) ==> r["title"@] == ValueView::Text(x@)
            &&& c.description matches Some(x) ==> r["description"@] == ValueView::Text(x@)
            &&& c.design matches Some(x) ==> r["design"@] == ValueView::Text(x@)
            &&& c.acceptance_criteria matches Some(x) ==> r["acceptance_criteria"@] == ValueView::Text(x@)
            &&& c.notes matches Some(x) ==> r["notes"@] == ValueView::Text(x@)
            &&& c.priority matches Some(x) ==> r["priority"@] == ValueView::Integer(x as int)
            &&& c.issue_type matches Some(x) ==> r["issue_type"@] == ValueView::Text(x@)
            &&& c.assignee matches Some(a) ==> r["assignee"@] == match stored_assignee(a@) {
                Some(t) => ValueView::Text(t),
                None => ValueView::Null,
            }
            &&& c.owner matches Some(x) ==> r["owner"@] == ValueView::Text(x@)
            &&& c.estimated_minutes matches Some(x) ==> r["estimated_minutes"@] == ValueView::Integer(x as int)
            &&& c.due_at matches Some(x) ==> r["due_at"@] == ValueView::Text(x@)
            &&& c.defer_until matches Some(x) ==> r["defer_until"@] == ValueView::Text(x@)
            &&& c.external_ref matches Some(x) ==> r["external_ref"@] == ValueView::Text(x@)
            &&& field_assignments(c, current, now).len() > 0 ==> r["updated_at"@] == ValueView::Text(now)
            &&& field_assignments(c, current, now).len() == 0 ==> r == row
        }),
{
    lemma_field_row(row, c, current, now);
    lemma_field_row_values(row, c);
    lemma_column_names_distinct();
    let f = field_assignments(c, current, now);
    let fr = field_row(row, c);
    assert forall|col: Seq<char>| !given_column(c, col) implies agree_at(fr, row, col) by {
        lemma_field_row_keeps(row, c, col);
    }
    if f.len() > 0 {
        reveal_strlit(" = ?");
        reveal_strlit("updated_at");
        lemma_target_of("updated_at"@, " = ?"@);
        let x = ("updated_at"@ + " = ?"@, Some(ValueView::Text(now)));
        let l = f.push(x);
        assert(l.drop_last() =~= f);
        assert(("updated_at"@ + " = ?"@).len() - 4 == "updated_at"@.len());
        assert(assignment_target(x) == "updated_at"@);
        assert(apply_set(row, l) == fr.insert("updated_at"@, ValueView::Text(now)));
    } else {
        assert(c.title is None);
        assert(c.description is None);
        assert(c.design is None);
        assert(c.acceptance_criteria is None);
        assert(c.notes is None);
        assert(c.priority is None);
        assert(c.issue_type is None);
        assert(c.assignee is None);
        assert(c.owner is None);
        assert(c.estimated_minutes is None);
        assert(c.due_at is None);
        assert(c.defer_until is None);
        assert(c.external_ref is None);
        assert(fr == row);
    }
}

} // verus!
