//! Dependency, label and close rules.

use bead_forge::rules::{
    blocking_type, blocks_dependent, check_close, check_dependency, label_to_store,
    terminal_status, unblocked_on_close, unblocked_on_terminal_update, CloseDecision,
};

#[test]
fn test_dependency_prevents_self_blocking() {
    let result = check_dependency("bf-self-block", "bf-self-block", "blocks");
    assert!(result.is_err());
    let err_msg = result.unwrap_err();
    assert!(err_msg.contains("Cannot add self-blocking dependency"));
    assert_eq!(err_msg, "Cannot add self-blocking dependency: bead 'bf-self-block' cannot block itself");
}

#[test]
fn non_blocking_self_links_and_other_beads_are_allowed() {
    assert_eq!(check_dependency("bf-1", "bf-1", "related"), Ok(()));
    assert_eq!(check_dependency("bf-1", "bf-2", "blocks"), Ok(()));
    for t in ["parent-child", "conditional-blocks", "waits-for"] {
        assert!(check_dependency("bf-1", "bf-1", t).is_err());
    }
}

#[test]
fn blocking_types_and_terminal_statuses() {
    for t in ["blocks", "parent-child", "conditional-blocks", "waits-for"] {
        assert!(blocking_type(t));
    }
    for t in ["related", "Blocks", "", "discovered-from"] {
        assert!(!blocking_type(t));
    }
    for s in ["closed", "tombstone", "done", "completed"] {
        assert!(terminal_status(s));
    }
    for s in ["open", "blocked", "in_progress", "Closed"] {
        assert!(!terminal_status(s));
    }
}

#[test]
fn a_new_blocker_that_is_still_open_blocks_its_dependent() {
    assert!(blocks_dependent("blocks", Some("open")));
    assert!(blocks_dependent("waits-for", Some("in_progress")));
    assert!(!blocks_dependent("blocks", Some("closed")));
    assert!(!blocks_dependent("blocks", Some("done")));
    assert!(!blocks_dependent("related", Some("open")));
    assert!(!blocks_dependent("blocks", None));
}

#[test]
fn test_empty_label_validation() {
    let msg = "Label cannot be empty or whitespace only".to_string();
    assert_eq!(label_to_store(""), Err(msg.clone()));
    assert_eq!(label_to_store("   "), Err(msg.clone()));
    assert_eq!(label_to_store("\t\n"), Err(msg));
    assert_eq!(label_to_store("  urgent "), Ok("urgent".to_string()));
    assert_eq!(label_to_store("a b"), Ok("a b".to_string()));
}

#[test]
fn closing_is_idempotent() {
    assert_eq!(check_close(None), CloseDecision::NotFound);
    assert_eq!(check_close(Some("closed")), CloseDecision::AlreadyClosed);
    assert_eq!(check_close(Some("open")), CloseDecision::Close);
    assert_eq!(check_close(Some("tombstone")), CloseDecision::Close);
}

#[test]
fn closing_reopens_only_blocked_dependents_without_other_blockers() {
    assert!(unblocked_on_close("blocked", 0));
    assert!(!unblocked_on_close("blocked", 1));
    assert!(!unblocked_on_close("open", 0));
    assert!(!unblocked_on_close("in_progress", 0));
}

#[test]
fn a_terminal_update_reopens_dependents_without_open_blockers() {
    assert!(unblocked_on_terminal_update("closed", false));
    assert!(unblocked_on_terminal_update("done", false));
    assert!(!unblocked_on_terminal_update("closed", true));
    assert!(!unblocked_on_terminal_update("in_progress", false));
}
