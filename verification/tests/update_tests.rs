//! Single-field updates.

use bead_forge::changes::{EventRecord, SqlValue};
use bead_forge::update::{check_update, single_field_plan, single_field_update, FieldUpdate, UpdateRefusal};

const NONE_MSG: &str = "At least one field must be provided for update (title, status, or priority)";
const MANY_MSG: &str = "Only one field can be updated at a time (title, status, or priority)";

#[test]
fn an_update_needs_exactly_one_field() {
    assert_eq!(single_field_update::<String, i32>(None, None, None), Err(NONE_MSG.to_string()));
    assert_eq!(single_field_update(Some("t"), Some("open".to_string()), None::<i32>), Err(MANY_MSG.to_string()));
    assert_eq!(single_field_update(Some("t"), None::<String>, Some(1)), Err(MANY_MSG.to_string()));
    assert_eq!(single_field_update(None, Some("open".to_string()), Some(1)), Err(MANY_MSG.to_string()));
    assert_eq!(single_field_update(Some("t"), Some("open".to_string()), Some(1)), Err(MANY_MSG.to_string()));
}

#[test]
fn the_one_field_is_named() {
    assert_eq!(single_field_update(Some("New title"), None::<String>, None::<i32>), Ok(FieldUpdate::Title("New title".to_string())));
    assert_eq!(single_field_update(None, Some("closed".to_string()), None::<i32>), Ok(FieldUpdate::Status("closed".to_string())));
    assert_eq!(single_field_update(None, None::<String>, Some(3)), Ok(FieldUpdate::Priority(3)));
}

#[test]
fn a_missing_bead_is_refused_after_the_fields_are_checked() {
    assert_eq!(
        check_update(None::<&str>, None::<String>, None::<i32>, false),
        Err(UpdateRefusal::Validation(NONE_MSG.to_string()))
    );
    assert_eq!(
        check_update(Some("t"), None::<String>, Some(1), false),
        Err(UpdateRefusal::Validation(MANY_MSG.to_string()))
    );
    assert_eq!(check_update(Some("t"), None::<String>, None::<i32>, false), Err(UpdateRefusal::NotFound));
    assert_eq!(
        check_update(Some("t"), None::<String>, None::<i32>, true),
        Ok(FieldUpdate::Title("t".to_string()))
    );
}

fn text(s: &str) -> SqlValue {
    SqlValue::Text(s.to_string())
}

#[test]
fn a_title_update_sets_only_the_title_and_the_update_time() {
    let p = single_field_plan(Some("New"), None, None, "bf-1", Some("blocked"), "NOW").unwrap();
    assert_eq!(p.update.0, "UPDATE issues SET title = ?, updated_at = ? WHERE id = ?");
    assert_eq!(p.update.1, vec![text("New"), text("NOW"), text("bf-1")]);
    assert!(p.event.is_none());
}

#[test]
fn a_priority_update_sets_only_the_priority() {
    let p = single_field_plan(None, None, Some(0), "bf-1", Some("open"), "NOW").unwrap();
    assert_eq!(p.update.0, "UPDATE issues SET priority = ?, updated_at = ? WHERE id = ?");
    assert_eq!(p.update.1, vec![SqlValue::Integer(0), text("NOW"), text("bf-1")]);
    assert!(p.event.is_none());
}

#[test]
fn a_status_update_records_a_status_change() {
    let p = single_field_plan(None, Some("in_progress"), None, "bf-1", Some("open"), "NOW").unwrap();
    assert_eq!(p.update.0, "UPDATE issues SET status = ?, updated_at = ? WHERE id = ?");
    assert_eq!(p.update.1, vec![text("in_progress"), text("NOW"), text("bf-1")]);
    assert_eq!(
        p.event,
        Some(EventRecord {
            event_type: "status_changed".to_string(),
            actor: "system".to_string(),
            old_value: Some("open".to_string()),
            new_value: Some("in_progress".to_string()),
        })
    );
}

#[test]
fn a_single_field_update_of_a_missing_bead_is_refused() {
    let r = single_field_plan(Some("New"), None, None, "bf-missing", None, "NOW");
    assert!(matches!(r, Err(UpdateRefusal::NotFound)));
    let r = single_field_plan(None, None, None, "bf-missing", None, "NOW");
    assert!(matches!(r, Err(UpdateRefusal::Validation(m)) if m == NONE_MSG));
    let r = single_field_plan(Some("a"), None, Some(1), "bf-1", Some("open"), "NOW");
    assert!(matches!(r, Err(UpdateRefusal::Validation(m)) if m == MANY_MSG));
}
