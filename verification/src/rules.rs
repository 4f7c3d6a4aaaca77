//! The rules the store applies around dependencies, labels and closing:
//! which dependency types block, when a new dependency blocks its bead, which
//! labels are accepted, and what closing a bead does to its dependents.
//!
//! Statuses and dependency types are held as the text under which the
//! database stores them.

use vstd::prelude::*;
use crate::changes::is_terminal;
use crate::text::{
    is_white_space, lemma_trim_idempotent, lemma_trim_shape, push_str_chars, string_from_chars,
    to_owned_string, trim_chars, trim_spec,
};

verus! {

/// The dependency types that block: a bead waits for the beads it depends
/// on through them.
pub open spec fn is_blocking_type(t: Seq<char>) -> bool {
    t == "blocks"@ || t == "parent-child"@ || t == "conditional-blocks"@ || t == "waits-for"@
}

/// Whether a dependency type blocks.
pub fn blocking_type(t: &str) -> (b: bool)
    ensures
        b == is_blocking_type(t@),
{
    let s = to_owned_string(t);
    s == to_owned_string("blocks") || s == to_owned_string("parent-child") || s == to_owned_string(
        "conditional-blocks",
    ) || s == to_owned_string("waits-for")
}

/// Whether a status is terminal (closed, tombstone, done or completed).
pub fn terminal_status(s: &str) -> (b: bool)
    ensures
        b == is_terminal(s@),
{
    let t = to_owned_string(s);
    t == to_owned_string("closed") || t == to_owned_string("tombstone") || t == to_owned_string(
        "done",
    ) || t == to_owned_string("completed")
}

/// The refusal of a bead that would block itself.
pub open spec fn self_blocking_message(issue_id: Seq<char>) -> Seq<char> {
    "Cannot add self-blocking dependency: bead '"@ + issue_id + "' cannot block itself"@
}

/// Whether the dependency of `issue_id` on `depends_on_id` may be added: a
/// bead may not block itself.
pub fn check_dependency(issue_id: &str, depends_on_id: &str, dep_type: &str) -> (r: Result<(), String>)
    ensures
        (issue_id@ == depends_on_id@ && is_blocking_type(dep_type@)) ==> (r matches Err(m) && m@
            == self_blocking_message(issue_id@)),
        !(issue_id@ == depends_on_id@ && is_blocking_type(dep_type@)) ==> r is Ok,
{
    if to_owned_string(issue_id) == to_owned_string(depends_on_id) && blocking_type(dep_type) {
        let mut v: Vec<char> = Vec::new();
        push_str_chars(&mut v, "Cannot add self-blocking dependency: bead '");
        push_str_chars(&mut v, issue_id);
        push_str_chars(&mut v, "' cannot block itself");
        Err(string_from_chars(v.as_slice()))
    } else {
        Ok(())
    }
}

/// Whether adding a dependency of type `dep_type` on a bead whose status is
/// `blocker_status` (none when there is no such bead) marks the dependent
/// bead blocked: it does when the type blocks and the blocker is not
/// terminal.
pub fn blocks_dependent(dep_type: &str, blocker_status: Option<&str>) -> (b: bool)
    ensures
        b == (is_blocking_type(dep_type@) && match blocker_status {
            Some(s) => !is_terminal(s@),
            None => false,
        }),
{
    match blocker_status {
        Some(s) => blocking_type(dep_type) && !terminal_status(s),
        None => false,
    }
}

/// The refusal of a blank label.
pub open spec fn empty_label_message() -> Seq<char> {
    "Label cannot be empty or whitespace only"@
}

/// The label as stored: trimmed; a blank label is refused.
pub fn label_to_store(label: &str) -> (r: Result<String, String>)
    ensures
        trim_spec(label@).len() == 0 ==> (r matches Err(m) && m@ == empty_label_message()),
        trim_spec(label@).len() > 0 ==> (r matches Ok(t) && t@ == trim_spec(label@)),
{
    let t = trim_chars(label);
    if t.len() == 0 {
        Err(to_owned_string("Label cannot be empty or whitespace only"))
    } else {
        Ok(string_from_chars(t.as_slice()))
    }
}

/// A stored label is never blank, carries no surrounding whitespace, and
/// storing it again leaves it as it is.
pub proof fn lemma_stored_label_is_clean(label: Seq<char>)
    requires
        trim_spec(label).len() > 0,
    ensures
        ({
            let t = trim_spec(label);
            &&& !is_white_space(t[0])
            &&& !is_white_space(t.last())
            &&& trim_spec(t) == t
        }),
{
    lemma_trim_shape(label);
    lemma_trim_idempotent(label);
}

/// What closing a bead does, given its status (none when there is no such
/// bead).
#[derive(Debug, Clone, Copy, PartialEq, Eq)]
pub enum CloseDecision {
    /// No bead has the id.
    NotFound,
    /// The bead is closed already; closing it again changes nothing.
    AlreadyClosed,
    /// The bead is closed now.
    Close,
}

/// Decide what closing a bead does: nothing for a bead that is closed
/// already, so that closing is idempotent.
pub fn check_close(current_status: Option<&str>) -> (d: CloseDecision)
    ensures
        match current_status {
            None => d == CloseDecision::NotFound,
            Some(s) => if s@ == "closed"@ {
                d == CloseDecision::AlreadyClosed
            } else {
                d == CloseDecision::Close
            },
        },
{
    match current_status {
        None => CloseDecision::NotFound,
        Some(s) => {
            if to_owned_string(s) == to_owned_string("closed") {
                CloseDecision::AlreadyClosed
            } else {
                CloseDecision::Close
            }
        },
    }
}

/// Whether closing a bead reopens one of its dependents: one that is
/// blocked and has no other blocker left that is not terminal.
pub fn unblocked_on_close(dependent_status: &str, remaining_blockers: i64) -> (b: bool)
    ensures
        b == (dependent_status@ == "blocked"@ && remaining_blockers == 0),
{
    to_owned_string(dependent_status) == to_owned_string("blocked") && remaining_blockers == 0
}


/// Whether an update that moves a bead to `new_status` reopens one of its
/// dependents: when the new status is terminal and the dependent has no
/// blocker left that is not terminal.
pub fn unblocked_on_terminal_update(new_status: &str, has_open_blockers: bool) -> (b: bool)
    ensures
        b == (is_terminal(new_status@) && !has_open_blockers),
{
    terminal_status(new_status) && !has_open_blockers
}

} // verus!
