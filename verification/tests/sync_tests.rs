//! Import reconciliation, tallies and auto-flush decisions.

use bead_forge::sync::{
    auto_flush_enabled, auto_flush_outcome, auto_flush_skipped, find_workspace,
    flush_after_delete_needed, get_db_path, get_jsonl_path, sync_totals, tally_import,
    unflushed_list, upsert_action, BeadVersion, SyncResult, UpsertAction,
};

fn v(hash: &str, secs: i64, nanos: u32) -> BeadVersion {
    BeadVersion { content_hash: hash.to_string(), updated_secs: secs, updated_nanos: nanos }
}

#[test]
fn new_beads_are_inserted() {
    assert_eq!(upsert_action(None, &v("h", 1, 0)), UpsertAction::Insert);
}

#[test]
fn unchanged_content_is_skipped_whatever_the_time() {
    assert_eq!(upsert_action(Some(&v("h", 1, 0)), &v("h", 9, 0)), UpsertAction::Skip);
    assert_eq!(upsert_action(Some(&v("h", 9, 0)), &v("h", 1, 0)), UpsertAction::Skip);
}

#[test]
fn the_later_update_wins() {
    assert_eq!(upsert_action(Some(&v("a", 1, 0)), &v("b", 2, 0)), UpsertAction::Update);
    assert_eq!(upsert_action(Some(&v("a", 1, 5)), &v("b", 1, 6)), UpsertAction::Update);
    assert_eq!(upsert_action(Some(&v("a", 2, 0)), &v("b", 1, 999)), UpsertAction::Skip);
    assert_eq!(upsert_action(Some(&v("a", 1, 6)), &v("b", 1, 6)), UpsertAction::Skip);
}

#[test]
fn importing_the_same_version_twice_skips_it() {
    let incoming = v("b", 5, 0);
    let first = upsert_action(Some(&v("a", 1, 0)), &incoming);
    assert_eq!(first, UpsertAction::Update);
    assert_eq!(upsert_action(Some(&incoming), &incoming), UpsertAction::Skip);
}

#[test]
fn tally_counts_each_decision_once() {
    let actions = vec![
        UpsertAction::Insert,
        UpsertAction::Skip,
        UpsertAction::Update,
        UpsertAction::Insert,
        UpsertAction::Skip,
        UpsertAction::Skip,
    ];
    let r = tally_import(&actions);
    assert_eq!(r, SyncResult { imported: 2, exported: 0, updated: 1, skipped: 3 });
    assert_eq!(r.imported + r.updated + r.skipped, actions.len());
    assert_eq!(tally_import(&vec![]), SyncResult::default());
}

#[test]
fn sync_totals_add_the_export_count() {
    let import = SyncResult { imported: 2, exported: 0, updated: 1, skipped: 3 };
    assert_eq!(sync_totals(import, 7), SyncResult { imported: 2, exported: 7, updated: 1, skipped: 3 });
}

#[test]
fn unflushed_list_shows_at_most_five() {
    let ids: Vec<String> = (1..=7).map(|i| format!("bf-{}", i)).collect();
    assert_eq!(unflushed_list(&ids[..3].to_vec()), "bf-1, bf-2, bf-3");
    assert_eq!(unflushed_list(&ids[..5].to_vec()), "bf-1, bf-2, bf-3, bf-4, bf-5");
    assert_eq!(unflushed_list(&ids), "bf-1, bf-2, bf-3, bf-4, bf-5, ... and 2 more");
    assert_eq!(unflushed_list(&vec![]), "");
}

#[test]
fn auto_flush_runs_only_when_enabled_and_not_disabled() {
    assert!(auto_flush_enabled(true, false));
    assert!(!auto_flush_enabled(true, true));
    assert!(!auto_flush_enabled(false, false));
    assert!(!auto_flush_enabled(false, true));
    let skipped = auto_flush_skipped();
    assert!(!skipped.flushed);
    assert_eq!(skipped.count, None);
    assert_eq!(skipped.warning, None);
}

#[test]
fn auto_flush_outcomes() {
    let ok = auto_flush_outcome(Ok(4));
    assert!(ok.flushed);
    assert_eq!(ok.count, Some(4));
    assert_eq!(ok.warning, None);
    let failed = auto_flush_outcome(Err("disk full".to_string()));
    assert!(!failed.flushed);
    assert_eq!(failed.count, None);
    assert_eq!(
        failed.warning.as_deref(),
        Some("Auto-flush failed: disk full. Beads remain in SQLite; run 'bf sync --flush-only' to manually flush.")
    );
}

#[test]
fn flush_after_delete_skips_only_when_nothing_to_do() {
    assert!(!flush_after_delete_needed(0, false));
    assert!(flush_after_delete_needed(0, true));
    assert!(flush_after_delete_needed(2, false));
}

#[test]
fn find_workspace_returns_the_found_directory() {
    assert_eq!(find_workspace(Some("/w/.beads".to_string()), "/w"), Ok("/w/.beads".to_string()));
}

#[test]
fn find_workspace_names_the_start_directory() {
    assert_eq!(
        find_workspace(None, "/tmp/empty"),
        Err("No .beads directory found in /tmp/empty".to_string())
    );
}

#[test]
fn workspace_files_are_inside_the_beads_directory() {
    assert_eq!(get_jsonl_path("/w/.beads", "issues.jsonl"), "/w/.beads/issues.jsonl");
    assert_eq!(get_db_path("/w/.beads/", "beads.db"), "/w/.beads/beads.db");
}
