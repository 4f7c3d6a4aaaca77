//! Single-field update semantics: an update names exactly one field.

use vstd::prelude::*;
use crate::text::to_owned_string;
use crate::changes::{
    apply_set, assignment_target, assigned_value, assignment_values, event_view, simple_set_list,
    simple_update_statement, update_sql, value_views, Assignment, EventRecord, Row, SqlValue,
    ValueView,
};

verus! {

/// The one field an update changes.
#[derive(Debug, Clone, PartialEq, Eq)]
pub enum FieldUpdate<S, P> {
    Title(String),
    Status(S),
    Priority(P),
}

/// How many of the three fields are given.
pub open spec fn given_count<S, P>(title: Option<&str>, status: Option<S>, priority: Option<P>) -> nat {
    (if title is Some { 1nat } else { 0nat }) + (if status is Some { 1nat } else { 0nat }) + (
    if priority is Some {
        1nat
    } else {
        0nat
    })
}

/// The refusal of an update that names no field.
pub open spec fn no_field_message() -> Seq<char> {
    "At least one field must be provided for update (title, status, or priority)"@
}

/// The refusal of an update that names several fields.
pub open spec fn several_fields_message() -> Seq<char> {
    "Only one field can be updated at a time (title, status, or priority)"@
}

/// Check that exactly one field is given, and say which: an update with no
/// field, or with more than one, is refused with a validation message.
pub fn single_field_update<S, P>(
    title: Option<&str>,
    status: Option<S>,
    priority: Option<P>,
) -> (r: Result<FieldUpdate<S, P>, String>)
    ensures
        given_count(title, status, priority) == 0 ==> (r matches Err(m) && m@ == no_field_message()),
        given_count(title, status, priority) > 1 ==> (r matches Err(m) && m@ == several_fields_message()),
        given_count(title, status, priority) == 1 ==> match r {
            Ok(FieldUpdate::Title(t)) => title matches Some(x) && t@ == x@,
            Ok(FieldUpdate::Status(s)) => status == Some(s),
            Ok(FieldUpdate::Priority(p)) => priority == Some(p),
            Err(_) => false,
        },
{
    let count: usize = (if title.is_some() { 1 } else { 0 }) + (if status.is_some() { 1 } else { 0 }) + (if priority.is_some() { 1 } else { 0 });
    if count == 0 {
        return Err(to_owned_string(
            "At least one field must be provided for update (title, status, or priority)",
        ));
    }
    if count > 1 {
        return Err(to_owned_string(
            "Only one field can be updated at a time (title, status, or priority)",
        ));
    }
    match title {
        Some(t) => Ok(FieldUpdate::Title(to_owned_string(t))),
        None => match status {
            Some(s) => Ok(FieldUpdate::Status(s)),
            None => match priority {
                Some(p) => Ok(FieldUpdate::Priority(p)),
                None => Err(to_owned_string(
                    "At least one field must be provided for update (title, status, or priority)",
                )),
            },
        },
    }
}


/// Why a single-field update is refused.
#[derive(Debug, Clone, PartialEq, Eq)]
pub enum UpdateRefusal {
    /// Not exactly one field is given; the message says which way.
    Validation(String),
    /// The bead does not exist.
    NotFound,
}

/// The single-field update of a bead, where `exists` says whether the bead
/// is stored: the fields are checked first (exactly one must be given), then
/// a missing bead is refused; otherwise the one field is named.
pub fn check_update<S, P>(
    title: Option<&str>,
    status: Option<S>,
    priority: Option<P>,
    exists: bool,
) -> (r: Result<FieldUpdate<S, P>, UpdateRefusal>)
    ensures
        given_count(title, status, priority) == 0 ==> (r matches Err(UpdateRefusal::Validation(m))
            && m@ == no_field_message()),
        given_count(title, status, priority) > 1 ==> (r matches Err(UpdateRefusal::Validation(m))
            && m@ == several_fields_message()),
        given_count(title, status, priority) == 1 && !exists ==> r == Err::<
            FieldUpdate<S, P>,
            UpdateRefusal,
        >(UpdateRefusal::NotFound),
        given_count(title, status, priority) == 1 && exists ==> match r {
            Ok(FieldUpdate::Title(t)) => title matches Some(x) && t@ == x@,
            Ok(FieldUpdate::Status(s)) => status == Some(s),
            Ok(FieldUpdate::Priority(p)) => priority == Some(p),
            Err(_) => false,
        },
{
    match single_field_update(title, status, priority) {
        Err(m) => Err(UpdateRefusal::Validation(m)),
        Ok(f) => {
            if exists {
                Ok(f)
            } else {
                Err(UpdateRefusal::NotFound)
            }
        },
    }
}


/// The SET list of a single-field update: the field's column, then the
/// update time.
pub open spec fn single_field_list(column: Seq<char>, value: ValueView, now: Seq<char>) -> Seq<
    Assignment,
> {
    seq![(column + " = ?"@, Some(value)), ("updated_at"@ + " = ?"@, Some(ValueView::Text(now)))]
}

/// The column and value of the one field given (title, status or priority,
/// in that order of precedence).
pub open spec fn given_field(title: Option<&str>, status: Option<&str>, priority: Option<i32>) -> (
    Seq<char>,
    ValueView,
) {
    match title {
        Some(t) => ("title"@, ValueView::Text(t@)),
        None => match status {
            Some(s) => ("status"@, ValueView::Text(s@)),
            None => ("priority"@, ValueView::Integer(priority->0 as int)),
        },
    }
}

/// What a single-field update writes: the UPDATE statement with its bound
/// values, and the event it records (a status change only).
#[derive(Debug)]
pub struct SingleFieldPlan {
    pub update: (String, Vec<SqlValue>),
    pub event: Option<EventRecord>,
}

/// The single-field update of bead `id` at time `now`, where
/// `current_status` is the stored status (none when the bead does not
/// exist). Exactly one field must be given, then the bead must exist; the
/// statement sets that field and the update time and nothing else. A status
/// update is recorded as a status change by "system", from the stored status
/// to the new one.
pub fn single_field_plan(
    title: Option<&str>,
    status: Option<&str>,
    priority: Option<i32>,
    id: &str,
    current_status: Option<&str>,
    now: &str,
) -> (r: Result<SingleFieldPlan, UpdateRefusal>)
    ensures
        given_count(title, status, priority) == 0 ==> (r matches Err(UpdateRefusal::Validation(m))
            && m@ == no_field_message()),
        given_count(title, status, priority) > 1 ==> (r matches Err(UpdateRefusal::Validation(m))
            && m@ == several_fields_message()),
        given_count(title, status, priority) == 1 && current_status is None ==> r == Err::<
            SingleFieldPlan,
            UpdateRefusal,
        >(UpdateRefusal::NotFound),
        given_count(title, status, priority) == 1 && current_status is Some ==> (r matches Ok(p) && {
            let f = given_field(title, status, priority);
            let l = single_field_list(f.0, f.1, now@);
            &&& p.update.0@ == update_sql(l)
            &&& value_views(p.update.1@) == assignment_values(l).push(ValueView::Text(id@))
            &&& match status {
                Some(s) => p.event matches Some(e) && event_view(e) == (
                    "status_changed"@,
                    "system"@,
                    Some(current_status->0@),
                    Some(s@),
                ),
                None => p.event is None,
            }
        }),
{
    match check_update(title, status, priority, current_status.is_some()) {
        Err(e) => Err(e),
        Ok(f) => {
            let t: Option<String> = match title {
                Some(x) => Some(to_owned_string(x)),
                None => None,
            };
            let s: Option<String> = match status {
                Some(x) => Some(to_owned_string(x)),
                None => None,
            };
            let ghost g = given_field(title, status, priority);
            proof {
                reveal_strlit(" = ?");
                assert(simple_set_list(t, s, priority, now@) =~= single_field_list(g.0, g.1, now@));
            }
            let update = match simple_update_statement(&t, &s, priority, id, now) {
                Some(u) => u,
                None => {
                    proof {
                        assert(false);
                    }
                    return Err(UpdateRefusal::NotFound);
                },
            };
            let event = match status {
                Some(x) => Some(
                    EventRecord {
                        event_type: to_owned_string("status_changed"),
                        actor: to_owned_string("system"),
                        old_value: match current_status {
                            Some(c) => Some(to_owned_string(c)),
                            None => None,
                        },
                        new_value: Some(to_owned_string(x)),
                    },
                ),
                None => None,
            };
            Ok(SingleFieldPlan { update, event })
        },
    }
}

/// A single-field update changes only that field and the update time: every
/// other column of the row keeps its value.
pub proof fn lemma_single_field_update_changes_only_that_field(
    row: Row,
    column: Seq<char>,
    value: ValueView,
    now: Seq<char>,
)
    ensures
        apply_set(row, single_field_list(column, value, now)) == row.insert(column, value).insert(
            "updated_at"@,
            ValueView::Text(now),
        ),
{
    reveal_strlit(" = ?");
    let l = single_field_list(column, value, now);
    assert(l.drop_last().drop_last() =~= Seq::<Assignment>::empty());
    assert((column + " = ?"@).take(column.len() as int) =~= column);
    assert(("updated_at"@ + " = ?"@).take("updated_at"@.len() as int) =~= "updated_at"@);
    assert(assignment_target(l[0]) == column);
    assert(assignment_target(l[1]) == "updated_at"@);
    assert(assigned_value(l[0]) == value);
    assert((column + " = ?"@).len() - 4 == column.len());
    assert(("updated_at"@ + " = ?"@).len() - 4 == "updated_at"@.len());
    assert(l.drop_last().last() == l[0]);
    assert(l.last() == l[1]);
    assert(apply_set(row, l.drop_last().drop_last()) == row);
    assert(apply_set(row, l.drop_last()) == row.insert(column, value));
}

} // verus!
