//! Normalization helpers for bead fields
//!
//! This module provides normalization functions for various bead fields
//! so that empty/whitespace-only input is collapsed to `None` rather than
//! persisted as a literal empty string.

use vstd::prelude::*;
use crate::text::{
    int_to_decimal, opt_str_view, opt_string_view, push_i64_decimal, push_str_chars, string_from_chars, trim_chars, trim_spec,
    is_white_space, lemma_trim_idempotent, lemma_trim_shape,
};

verus! {

/// Whether `priority` is one of the five priority levels
/// (0 = Critical, 1 = High, 2 = Medium, 3 = Low, 4 = Backlog).
pub open spec fn valid_priority(priority: int) -> bool {
    0 <= priority <= 4
}

/// The message with which an out-of-range priority is refused.
pub open spec fn invalid_priority_message(priority: int) -> Seq<char> {
    "Invalid priority: "@ + int_to_decimal(priority)
        + ". Must be 0-4 (0=Critical, 1=High, 2=Medium, 3=Low, 4=Backlog)"@
}

/// Validate a priority field value.
///
/// Returns `Ok(())` if the priority is in the valid range (0-4), otherwise
/// returns an error with a descriptive message. Priority values correspond to:
/// 0 = Critical, 1 = High, 2 = Medium, 3 = Low, 4 = Backlog.
///
/// `bf create` and `bf update` call this to validate the priority field before
/// creating or updating a bead.
pub fn validate_priority(priority: i32) -> (r: Result<(), String>)
    ensures
        r is Ok <==> valid_priority(priority as int),
        r matches Err(msg) ==> msg@ == invalid_priority_message(priority as int),
{
    if 0 <= priority && priority <= 4 {
        Ok(())
    } else {
        let mut v: Vec<char> = Vec::new();
        push_str_chars(&mut v, "Invalid priority: ");
        push_i64_decimal(&mut v, priority as i64);
        push_str_chars(&mut v, ". Must be 0-4 (0=Critical, 1=High, 2=Medium, 3=Low, 4=Backlog)");
        Err(string_from_chars(v.as_slice()))
    }
}

/// The normalized assignee: `None` stays `None`; a value is trimmed, and
/// collapses to `None` when nothing but whitespace was given.
pub open spec fn normalized_assignee(assignee: Option<Seq<char>>) -> Option<Seq<char>> {
    match assignee {
        None => None,
        Some(a) => if trim_spec(a).len() == 0 {
            None
        } else {
            Some(trim_spec(a))
        },
    }
}

/// Normalize an assignee field value.
///
/// Trims surrounding whitespace and collapses empty/whitespace-only input to
/// `None`. This lets `bf create --assignee ''` create a bead with no assignee
/// instead of persisting a literal empty string, which would read back as
/// "assigned" and hide the bead from claiming.
pub fn normalize_assignee(assignee: Option<&str>) -> (r: Option<String>)
    ensures
        opt_string_view(r) == normalized_assignee(opt_str_view(assignee)),
{
    match assignee {
        None => None,
        Some(a) => {
            let t = trim_chars(a);
            if t.len() == 0 {
                None
            } else {
                Some(string_from_chars(t.as_slice()))
            }
        },
    }
}


/// A normalized assignee is never blank and carries no surrounding
/// whitespace, and normalizing it again changes nothing.
pub proof fn lemma_normalized_assignee_is_clean(assignee: Option<Seq<char>>)
    ensures
        normalized_assignee(assignee) matches Some(v) ==> v.len() > 0 && trim_spec(v) == v
            && !is_white_space(v[0]) && !is_white_space(v.last()),
        normalized_assignee(normalized_assignee(assignee)) == normalized_assignee(assignee),
{
    if let Some(a) = assignee {
        lemma_trim_shape(a);
        lemma_trim_idempotent(a);
    }
}

} // verus!
