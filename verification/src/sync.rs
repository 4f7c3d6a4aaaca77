//! Sync protocol decisions: how an imported bead is reconciled with the one
//! already in SQLite, how results are tallied, and when auto-flush runs.
//!
//! The JSONL and SQLite reads and writes are left to the caller; this module
//! holds the decisions between them.

use vstd::prelude::*;
use crate::subprocess::{join_spec, join_strings, views};
use crate::paths::{join_path, path_join};
use crate::text::{nat_to_decimal, push_str_chars, push_u64_decimal, string_from_chars};

verus! {

/// Sync operation results.
#[derive(Debug, Clone, Copy, PartialEq, Eq)]
pub struct SyncResult {
    pub imported: usize,
    pub exported: usize,
    pub updated: usize,
    pub skipped: usize,
}

impl Default for SyncResult {
    fn default() -> (r: Self)
        ensures
            r.imported == 0 && r.exported == 0 && r.updated == 0 && r.skipped == 0,
    {
        SyncResult { imported: 0, exported: 0, updated: 0, skipped: 0 }
    }
}

/// The version of a bead that a side holds: its content hash and when it
/// was last updated (seconds since the Unix epoch, then nanoseconds).
#[derive(Debug, Clone)]
pub struct BeadVersion {
    pub content_hash: String,
    pub updated_secs: i64,
    pub updated_nanos: u32,
}

/// What an import does with one incoming bead.
#[derive(Debug, Clone, Copy, PartialEq, Eq)]
pub enum UpsertAction {
    /// Not in SQLite yet: insert it.
    Insert,
    /// In SQLite with other content and older: replace it.
    Update,
    /// Same content, or SQLite's version is at least as recent: leave it.
    Skip,
}

/// Whether instant `a` is strictly later than instant `b`.
pub open spec fn later(a: (i64, u32), b: (i64, u32)) -> bool {
    a.0 > b.0 || (a.0 == b.0 && a.1 > b.1)
}

/// The reconciliation rule: a new bead is inserted; a bead whose content
/// hash is unchanged is skipped; otherwise the version with the later
/// `updated_at` wins, so SQLite's version is kept unless the incoming one
/// is strictly newer.
pub open spec fn upsert_action_spec(existing: Option<(Seq<char>, (i64, u32))>, incoming: (Seq<char>, (i64, u32))) -> UpsertAction {
    match existing {
        None => UpsertAction::Insert,
        Some(e) => if incoming.0 == e.0 {
            UpsertAction::Skip
        } else if later(incoming.1, e.1) {
            UpsertAction::Update
        } else {
            UpsertAction::Skip
        },
    }
}

/// The version as plain values.
pub open spec fn version_view(v: BeadVersion) -> (Seq<char>, (i64, u32)) {
    (v.content_hash@, (v.updated_secs, v.updated_nanos))
}

/// The version as plain values, when there is one.
pub open spec fn opt_version_view(v: Option<&BeadVersion>) -> Option<(Seq<char>, (i64, u32))> {
    match v {
        Some(x) => Some(version_view(*x)),
        None => None,
    }
}

/// Decide what an import does with an incoming bead, given the version
/// SQLite holds (if any).
pub fn upsert_action(existing: Option<&BeadVersion>, incoming: &BeadVersion) -> (a: UpsertAction)
    ensures
        a == upsert_action_spec(opt_version_view(existing), version_view(*incoming)),
{
    match existing {
        None => UpsertAction::Insert,
        Some(e) => {
            if incoming.content_hash == e.content_hash {
                UpsertAction::Skip
            } else if incoming.updated_secs > e.updated_secs || (incoming.updated_secs
                == e.updated_secs && incoming.updated_nanos > e.updated_nanos) {
                UpsertAction::Update
            } else {
                UpsertAction::Skip
            }
        },
    }
}

/// An import never replaces a version in SQLite with an older or equally
/// recent one, and never touches a bead whose content is unchanged.
pub proof fn lemma_import_keeps_newer_sqlite_version(existing: (Seq<char>, (i64, u32)), incoming: (Seq<char>, (i64, u32)))
    ensures
        upsert_action_spec(Some(existing), incoming) == UpsertAction::Update ==> later(incoming.1, existing.1) && incoming.0 != existing.0,
        !later(incoming.1, existing.1) ==> upsert_action_spec(Some(existing), incoming) == UpsertAction::Skip,
        incoming.0 == existing.0 ==> upsert_action_spec(Some(existing), incoming) == UpsertAction::Skip,
{
}

/// Importing is idempotent: once a bead has been inserted or updated from
/// an incoming version, importing that same version again skips it.
pub proof fn lemma_import_idempotent(existing: Option<(Seq<char>, (i64, u32))>, incoming: (Seq<char>, (i64, u32)))
    ensures
        upsert_action_spec(existing, incoming) != UpsertAction::Skip ==> upsert_action_spec(Some(incoming), incoming) == UpsertAction::Skip,
{
}

/// How many of each action a sequence of decisions holds.
pub open spec fn count_action(actions: Seq<UpsertAction>, a: UpsertAction) -> nat
    decreases actions.len(),
{
    if actions.len() == 0 {
        0
    } else {
        count_action(actions.drop_last(), a) + if actions.last() == a {
            1nat
        } else {
            0nat
        }
    }
}

/// Every decision is counted once.
pub proof fn lemma_counts_cover_all(actions: Seq<UpsertAction>)
    ensures
        count_action(actions, UpsertAction::Insert) + count_action(actions, UpsertAction::Update)
            + count_action(actions, UpsertAction::Skip) == actions.len(),
    decreases actions.len(),
{
    if actions.len() > 0 {
        lemma_counts_cover_all(actions.drop_last());
    }
}

/// The import statistics of a sequence of decisions: inserted beads count as
/// imported, replaced ones as updated, the others as skipped.
pub fn tally_import(actions: &Vec<UpsertAction>) -> (r: SyncResult)
    ensures
        r.imported == count_action(actions@, UpsertAction::Insert),
        r.updated == count_action(actions@, UpsertAction::Update),
        r.skipped == count_action(actions@, UpsertAction::Skip),
        r.exported == 0,
{
    let mut r = SyncResult { imported: 0, exported: 0, updated: 0, skipped: 0 };
    let mut i: usize = 0;
    while i < actions.len()
        invariant
            0 <= i <= actions@.len(),
            r.imported == count_action(actions@.take(i as int), UpsertAction::Insert),
            r.updated == count_action(actions@.take(i as int), UpsertAction::Update),
            r.skipped == count_action(actions@.take(i as int), UpsertAction::Skip),
            r.exported == 0,
            r.imported + r.updated + r.skipped == i,
        decreases actions@.len() - i,
    {
        proof {
            assert(actions@.take(i + 1).drop_last() =~= actions@.take(i as int));
            lemma_counts_cover_all(actions@.take(i as int));
        }
        match actions[i] {
            UpsertAction::Insert => r.imported = r.imported + 1,
            UpsertAction::Update => r.updated = r.updated + 1,
            UpsertAction::Skip => r.skipped = r.skipped + 1,
        }
        i = i + 1;
    }
    assert(actions@.take(actions@.len() as int) =~= actions@);
    r
}

/// Full sync: the import statistics, with the number of beads the flush
/// that followed exported.
pub fn sync_totals(import_result: SyncResult, exported: usize) -> (r: SyncResult)
    ensures
        r.imported == import_result.imported,
        r.updated == import_result.updated,
        r.skipped == import_result.skipped,
        r.exported == exported,
{
    SyncResult {
        imported: import_result.imported,
        exported,
        updated: import_result.updated,
        skipped: import_result.skipped,
    }
}

/// The list of unflushed bead ids shown in the import warning: all of them
/// when there are at most five, else the first five and how many more.
pub open spec fn unflushed_list_spec(ids: Seq<Seq<char>>) -> Seq<char> {
    if ids.len() <= 5 {
        join_spec(ids, ", "@)
    } else {
        join_spec(ids.take(5), ", "@) + ", ... and "@ + nat_to_decimal((ids.len() - 5) as nat)
            + " more"@
    }
}

/// The list of unflushed bead ids for the import warning (see
/// [`unflushed_list_spec`]).
pub fn unflushed_list(ids: &Vec<String>) -> (s: String)
    ensures
        s@ == unflushed_list_spec(views(ids@)),
{
    if ids.len() <= 5 {
        join_strings(ids, ", ")
    } else {
        let mut first: Vec<String> = Vec::new();
        let mut i: usize = 0;
        while i < 5
            invariant
                ids@.len() > 5,
                0 <= i <= 5,
                first@ == ids@.take(i as int),
            decreases 5 - i,
        {
            first.push(ids[i].clone());
            i = i + 1;
            assert(first@ =~= ids@.take(i as int));
        }
        let head = join_strings(&first, ", ");
        let mut v: Vec<char> = Vec::new();
        push_str_chars(&mut v, head.as_str());
        push_str_chars(&mut v, ", ... and ");
        push_u64_decimal(&mut v, (ids.len() - 5) as u64);
        push_str_chars(&mut v, " more");
        assert(views(ids@).take(5) =~= views(ids@.take(5)));
        string_from_chars(v.as_slice())
    }
}

/// Auto-flush result with warning information for JSON output.
#[derive(Debug, Clone, PartialEq, Eq)]
pub struct AutoFlushResult {
    pub flushed: bool,
    pub count: Option<usize>,
    pub warning: Option<String>,
}

/// Whether an auto-flush is attempted: only when the configuration enables
/// it and the command line does not disable it.
pub fn auto_flush_enabled(config_enabled: bool, cli_disabled: bool) -> (b: bool)
    ensures
        b == (config_enabled && !cli_disabled),
{
    !cli_disabled && config_enabled
}

/// The result of an auto-flush that was not attempted.
pub fn auto_flush_skipped() -> (r: AutoFlushResult)
    ensures
        !r.flushed,
        r.count is None,
        r.warning is None,
{
    AutoFlushResult { flushed: false, count: None, warning: None }
}

/// The warning of a failed auto-flush.
pub open spec fn auto_flush_warning_spec(error: Seq<char>) -> Seq<char> {
    "Auto-flush failed: "@ + error
        + ". Beads remain in SQLite; run 'bf sync --flush-only' to manually flush."@
}

/// The result of an attempted auto-flush: the count when the flush
/// succeeded; otherwise a warning, and nothing flushed.
pub fn auto_flush_outcome(outcome: Result<usize, String>) -> (r: AutoFlushResult)
    ensures
        match outcome {
            Ok(n) => r.flushed && r.count == Some(n) && r.warning is None,
            Err(e) => !r.flushed && r.count is None && (r.warning matches Some(w) && w@
                == auto_flush_warning_spec(e@)),
        },
{
    match outcome {
        Ok(count) => AutoFlushResult { flushed: true, count: Some(count), warning: None },
        Err(e) => {
            let mut v: Vec<char> = Vec::new();
            push_str_chars(&mut v, "Auto-flush failed: ");
            push_str_chars(&mut v, e.as_str());
            push_str_chars(
                &mut v,
                ". Beads remain in SQLite; run 'bf sync --flush-only' to manually flush.",
            );
            AutoFlushResult { flushed: false, count: None, warning: Some(string_from_chars(v.as_slice())) }
        },
    }
}

/// Whether a flush after a hard delete has anything to do: there are dirty
/// beads to write, or a JSONL file to prune.
pub fn flush_after_delete_needed(dirty_count: usize, jsonl_exists: bool) -> (b: bool)
    ensures
        b == (dirty_count > 0 || jsonl_exists),
{
    dirty_count > 0 || jsonl_exists
}


/// The refusal when no .beads directory is found from `start_dir`.
pub open spec fn no_workspace_message(start_dir: Seq<char>) -> Seq<char> {
    "No .beads directory found in "@ + start_dir
}

/// The .beads directory of the workspace at `start_dir`, given what the
/// search for it found: an error naming `start_dir` when it found none.
pub fn find_workspace(found: Option<String>, start_dir: &str) -> (r: Result<String, String>)
    ensures
        match found {
            Some(d) => r matches Ok(p) && p@ == d@,
            None => r matches Err(m) && m@ == no_workspace_message(start_dir@),
        },
{
    match found {
        Some(d) => Ok(d),
        None => {
            let mut v: Vec<char> = Vec::new();
            push_str_chars(&mut v, "No .beads directory found in ");
            push_str_chars(&mut v, start_dir);
            Err(string_from_chars(v.as_slice()))
        },
    }
}

/// The JSONL export file of the workspace: the file named in its metadata,
/// inside its .beads directory.
pub fn get_jsonl_path(beads_dir: &str, jsonl_export: &str) -> (p: String)
    ensures
        p@ == path_join(beads_dir@, jsonl_export@),
{
    join_path(beads_dir, jsonl_export)
}

/// The database file of the workspace: the file named in its metadata,
/// inside its .beads directory.
pub fn get_db_path(beads_dir: &str, database: &str) -> (p: String)
    ensures
        p@ == path_join(beads_dir@, database@),
{
    join_path(beads_dir, database)
}

} // verus!
