//! Filesystem paths as plain strings, joined the way std's `PathBuf::push`
//! joins them on Unix.

use vstd::prelude::*;
use crate::text::{chars_of, push_str_chars, string_from_chars};

verus! {

/// `base` joined with `part`: an absolute `part` replaces `base`; otherwise
/// `part` is appended, after a '/' unless `base` is empty or already ends
/// with one.
pub open spec fn path_join(base: Seq<char>, part: Seq<char>) -> Seq<char> {
    if part.len() > 0 && part[0] == '/' {
        part
    } else if base.len() == 0 || base.last() == '/' {
        base + part
    } else {
        base + seq!['/'] + part
    }
}

/// `base` joined with `part` (see [`path_join`]).
pub fn join_path(base: &str, part: &str) -> (p: String)
    ensures
        p@ == path_join(base@, part@),
{
    let b = chars_of(base);
    let q = chars_of(part);
    let mut v: Vec<char> = Vec::new();
    if q.len() > 0 && q[0] == '/' {
        push_str_chars(&mut v, part);
    } else if b.len() == 0 || b[b.len() - 1] == '/' {
        push_str_chars(&mut v, base);
        push_str_chars(&mut v, part);
    } else {
        push_str_chars(&mut v, base);
        v.push('/');
        push_str_chars(&mut v, part);
    }
    assert(v@ =~= path_join(base@, part@));
    string_from_chars(v.as_slice())
}

} // verus!
