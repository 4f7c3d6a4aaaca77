//! Reading stored issues back: the column values of an issue row become an
//! issue record, the labels that the listing concatenates are split again,
//! and the rows stored beside issues are grouped by issue.

use vstd::prelude::*;
use crate::subprocess::views;
use crate::text::{chars_of, string_from_chars, to_owned_string};
use crate::changes::opt_view;
use crate::dates::{
    optional_instant, parse_optional_datetime, parse_required_datetime, required_instant,
    MalformedDate,
};
use crate::rows::IssueRecord;

verus! {

/// The pieces of `s` between occurrences of `sep`, as `str::split` gives
/// them: one piece more than there are separators, empty pieces included.
pub open spec fn split_spec(s: Seq<char>, sep: char) -> Seq<Seq<char>>
    decreases s.len(),
{
    if s.len() == 0 {
        seq![Seq::<char>::empty()]
    } else {
        let rest = split_spec(s.drop_last(), sep);
        if s.last() == sep {
            rest.push(Seq::<char>::empty())
        } else {
            rest.update(rest.len() - 1, rest.last().push(s.last()))
        }
    }
}

proof fn lemma_split_nonempty(s: Seq<char>, sep: char)
    ensures
        split_spec(s, sep).len() >= 1,
    decreases s.len(),
{
    if s.len() > 0 {
        lemma_split_nonempty(s.drop_last(), sep);
    }
}

/// The labels of a listing row: the concatenated label text split at each
/// comma; none when the issue has no label.
pub open spec fn labels_spec(s: Option<Seq<char>>) -> Seq<Seq<char>> {
    match s {
        None => Seq::empty(),
        Some(t) => split_spec(t, ','),
    }
}

/// Split `s` at each occurrence of `sep` (see [`split_spec`]).
pub fn split_at_char(s: &str, sep: char) -> (v: Vec<String>)
    ensures
        views(v@) == split_spec(s@, sep),
{
    let cs = chars_of(s);
    let mut out: Vec<String> = Vec::new();
    let mut cur: Vec<char> = Vec::new();
    let mut i: usize = 0;
    while i < cs.len()
        invariant
            0 <= i <= cs@.len(),
            cs@ == s@,
            views(out@).push(cur@) == split_spec(cs@.take(i as int), sep),
        decreases cs@.len() - i,
    {
        let c = cs[i];
        proof {
            assert(cs@.take(i + 1).drop_last() =~= cs@.take(i as int));
            assert(cs@.take(i + 1).last() == c);
            lemma_split_nonempty(cs@.take(i as int), sep);
        }
        if c == sep {
            let piece = string_from_chars(cur.as_slice());
            let ghost before = out@;
            out.push(piece);
            cur = Vec::new();
            assert(views(out@) =~= views(before).push(piece@));
            assert(views(out@).push(cur@) =~= split_spec(cs@.take(i + 1), sep));
        } else {
            let ghost old_cur = cur@;
            cur.push(c);
            assert(views(out@).push(cur@) =~= views(out@).push(old_cur).update(
                views(out@).len() as int,
                old_cur.push(c),
            ));
        }
        i = i + 1;
    }
    let last = string_from_chars(cur.as_slice());
    let ghost before = out@;
    out.push(last);
    assert(views(out@) =~= views(before).push(last@));
    assert(cs@.take(cs@.len() as int) =~= cs@);
    out
}

/// The labels of a listing row (see [`labels_spec`]).
pub fn labels_of_concat(s: Option<&str>) -> (v: Vec<String>)
    ensures
        views(v@) == labels_spec(match s {
            Some(t) => Some(t@),
            None => None,
        }),
{
    match s {
        None => {
            let v: Vec<String> = Vec::new();
            assert(views(v@) =~= Seq::<Seq<char>>::empty());
            v
        },
        Some(t) => split_at_char(t, ','),
    }
}

/// The column values of an issue row as the listing reads them, in column
/// order, with the labels concatenated by commas (none when it has none).
#[derive(Debug, Clone)]
pub struct StoredIssueRow {
    pub id: String,
    pub content_hash: Option<String>,
    pub title: String,
    pub description: Option<String>,
    pub design: Option<String>,
    pub acceptance_criteria: Option<String>,
    pub notes: Option<String>,
    pub status: String,
    pub priority: i32,
    pub issue_type: String,
    pub assignee: Option<String>,
    pub owner: Option<String>,
    pub estimated_minutes: Option<i32>,
    pub created_at: Option<String>,
    pub created_by: Option<String>,
    pub updated_at: Option<String>,
    pub closed_at: Option<String>,
    pub close_reason: Option<String>,
    pub closed_by_session: Option<String>,
    pub due_at: Option<String>,
    pub defer_until: Option<String>,
    pub external_ref: Option<String>,
    pub source_system: Option<String>,
    pub source_repo: Option<String>,
    pub deleted_at: Option<String>,
    pub deleted_by: Option<String>,
    pub delete_reason: Option<String>,
    pub original_type: Option<String>,
    pub compaction_level: Option<i32>,
    pub compacted_at: Option<String>,
    pub compacted_at_commit: Option<String>,
    pub original_size: Option<i64>,
    pub sender: Option<String>,
    pub ephemeral: i32,
    pub pinned: i32,
    pub is_template: i32,
    pub labels: Option<String>,
}

/// An issue read back: the record, and the instants its date columns denote
/// (seconds since the Unix epoch and nanoseconds).
#[derive(Debug)]
pub struct ReadIssue {
    pub record: IssueRecord,
    pub created: (i64, u32),
    pub updated: (i64, u32),
    pub closed: Option<(i64, u32)>,
    pub due: Option<(i64, u32)>,
    pub defer_until: Option<(i64, u32)>,
    pub deleted: Option<(i64, u32)>,
    pub compacted: Option<(i64, u32)>,
}

/// Whether every date column of the row can be read: the two required ones
/// (NULL or blank reads as the Unix epoch) and the optional ones (NULL or
/// empty reads as no date).
pub open spec fn row_dates_readable(row: StoredIssueRow) -> bool {
    &&& required_instant(row.created_at) is Some
    &&& required_instant(row.updated_at) is Some
    &&& optional_instant(row.closed_at) is Some
    &&& optional_instant(row.due_at) is Some
    &&& optional_instant(row.defer_until) is Some
    &&& optional_instant(row.deleted_at) is Some
    &&& optional_instant(row.compacted_at) is Some
}

/// A text column that may be NULL, read as text: NULL reads as empty.
pub open spec fn text_of(o: Option<String>) -> Seq<char> {
    match o {
        Some(s) => s@,
        None => Seq::empty(),
    }
}

/// The record a row gives: every column as it is stored (status and type
/// texts kept as they are, custom ones included), each flag set when its
/// column is not 0, the labels split at commas, and nothing stored beside
/// it yet.
pub open spec fn record_of_row(r: IssueRecord, row: StoredIssueRow) -> bool {
    &&& r.id == row.id
    &&& r.content_hash == row.content_hash
    &&& r.title == row.title
    &&& r.description == row.description
    &&& r.design == row.design
    &&& r.acceptance_criteria == row.acceptance_criteria
    &&& r.notes == row.notes
    &&& r.status == row.status
    &&& r.priority == row.priority
    &&& r.issue_type == row.issue_type
    &&& r.assignee == row.assignee
    &&& r.owner == row.owner
    &&& r.estimated_minutes == row.estimated_minutes
    &&& r.created_at@ == text_of(row.created_at)
    &&& r.created_by == row.created_by
    &&& r.updated_at@ == text_of(row.updated_at)
    &&& r.closed_at == row.closed_at
    &&& r.close_reason == row.close_reason
    &&& r.closed_by_session == row.closed_by_session
    &&& r.due_at == row.due_at
    &&& r.defer_until == row.defer_until
    &&& r.external_ref == row.external_ref
    &&& r.source_system == row.source_system
    &&& r.source_repo == row.source_repo
    &&& r.deleted_at == row.deleted_at
    &&& r.deleted_by == row.deleted_by
    &&& r.delete_reason == row.delete_reason
    &&& r.original_type == row.original_type
    &&& r.compaction_level == row.compaction_level
    &&& r.compacted_at == row.compacted_at
    &&& r.compacted_at_commit == row.compacted_at_commit
    &&& r.original_size == row.original_size
    &&& r.sender == row.sender
    &&& r.ephemeral == (row.ephemeral != 0)
    &&& r.pinned == (row.pinned != 0)
    &&& r.is_template == (row.is_template != 0)
    &&& views(r.labels@) == labels_spec(opt_view(row.labels))
    &&& r.dependencies@.len() == 0
    &&& r.comments@.len() == 0
    &&& r.annotations@.len() == 0
    &&& r.events@.len() == 0
}

fn copy_opt(o: &Option<String>) -> (r: Option<String>)
    ensures
        r == *o,
{
    match o {
        Some(s) => Some(s.clone()),
        None => None,
    }
}

fn text_or_empty(o: &Option<String>) -> (r: String)
    ensures
        r@ == text_of(*o),
{
    match o {
        Some(s) => s.clone(),
        None => {
            proof {
                reveal_strlit("");
            }
            to_owned_string("")
        },
    }
}

/// Turn the column values of an issue row into an issue: refused exactly
/// when a date column cannot be read; otherwise the record holds the columns
/// as stored (see [`record_of_row`]) and the instants are those the date
/// columns denote.
pub fn issue_from_row(row: &StoredIssueRow) -> (r: Result<ReadIssue, MalformedDate>)
    ensures
        r is Ok <==> row_dates_readable(*row),
        r matches Ok(i) ==> {
            &&& record_of_row(i.record, *row)
            &&& Some(i.created) == required_instant(row.created_at)
            &&& Some(i.updated) == required_instant(row.updated_at)
            &&& Some(i.closed) == optional_instant(row.closed_at)
            &&& Some(i.due) == optional_instant(row.due_at)
            &&& Some(i.defer_until) == optional_instant(row.defer_until)
            &&& Some(i.deleted) == optional_instant(row.deleted_at)
            &&& Some(i.compacted) == optional_instant(row.compacted_at)
        },
{
    let created = match parse_required_datetime(copy_opt(&row.created_at)) {
        Ok(d) => d,
        Err(e) => return Err(e),
    };
    let updated = match parse_required_datetime(copy_opt(&row.updated_at)) {
        Ok(d) => d,
        Err(e) => return Err(e),
    };
    let closed = match parse_optional_datetime(copy_opt(&row.closed_at)) {
        Ok(d) => d,
        Err(e) => return Err(e),
    };
    let due = match parse_optional_datetime(copy_opt(&row.due_at)) {
        Ok(d) => d,
        Err(e) => return Err(e),
    };
    let defer_until = match parse_optional_datetime(copy_opt(&row.defer_until)) {
        Ok(d) => d,
        Err(e) => return Err(e),
    };
    let deleted = match parse_optional_datetime(copy_opt(&row.deleted_at)) {
        Ok(d) => d,
        Err(e) => return Err(e),
    };
    let compacted = match parse_optional_datetime(copy_opt(&row.compacted_at)) {
        Ok(d) => d,
        Err(e) => return Err(e),
    };
    let labels = labels_of_concat(
        match &row.labels {
            Some(t) => Some(t.as_str()),
            None => None,
        },
    );
    let record = IssueRecord {
        id: row.id.clone(),
        content_hash: copy_opt(&row.content_hash),
        title: row.title.clone(),
        description: copy_opt(&row.description),
        design: copy_opt(&row.design),
        acceptance_criteria: copy_opt(&row.acceptance_criteria),
        notes: copy_opt(&row.notes),
        status: row.status.clone(),
        priority: row.priority,
        issue_type: row.issue_type.clone(),
        assignee: copy_opt(&row.assignee),
        owner: copy_opt(&row.owner),
        estimated_minutes: row.estimated_minutes,
        created_at: text_or_empty(&row.created_at),
        created_by: copy_opt(&row.created_by),
        updated_at: text_or_empty(&row.updated_at),
        closed_at: copy_opt(&row.closed_at),
        close_reason: copy_opt(&row.close_reason),
        closed_by_session: copy_opt(&row.closed_by_session),
        due_at: copy_opt(&row.due_at),
        defer_until: copy_opt(&row.defer_until),
        external_ref: copy_opt(&row.external_ref),
        source_system: copy_opt(&row.source_system),
        source_repo: copy_opt(&row.source_repo),
        deleted_at: copy_opt(&row.deleted_at),
        deleted_by: copy_opt(&row.deleted_by),
        delete_reason: copy_opt(&row.delete_reason),
        original_type: copy_opt(&row.original_type),
        compaction_level: row.compaction_level,
        compacted_at: copy_opt(&row.compacted_at),
        compacted_at_commit: copy_opt(&row.compacted_at_commit),
        original_size: row.original_size,
        sender: copy_opt(&row.sender),
        ephemeral: row.ephemeral != 0,
        pinned: row.pinned != 0,
        is_template: row.is_template != 0,
        labels,
        dependencies: Vec::new(),
        comments: Vec::new(),
        annotations: Vec::new(),
        events: Vec::new(),
    };
    Ok(ReadIssue { record, created, updated, closed, due, defer_until, deleted, compacted })
}

/// The values of the rows whose key is `id`, in their order.
pub open spec fn rows_with_key<T>(id: Seq<char>, rows: Seq<(String, T)>) -> Seq<T>
    decreases rows.len(),
{
    if rows.len() == 0 {
        Seq::empty()
    } else {
        let r = rows_with_key(id, rows.drop_last());
        if rows.last().0@ == id {
            r.push(rows.last().1)
        } else {
            r
        }
    }
}

/// Whether no slot before `k` holds the same id as slot `k`.
pub open spec fn first_slot(ids: Seq<Seq<char>>, k: int) -> bool {
    forall|j: int| 0 <= j < k ==> ids[j] != ids[k]
}

/// What slot `k` of the grouping holds: the rows keyed by its id, unless an
/// earlier slot holds the same id (which then takes them).
pub open spec fn grouped<T>(ids: Seq<Seq<char>>, rows: Seq<(String, T)>, k: int) -> Seq<T> {
    if first_slot(ids, k) {
        rows_with_key(ids[k], rows)
    } else {
        Seq::empty()
    }
}

fn find_slot(ids: &Vec<String>, key: &String) -> (r: Option<usize>)
    ensures
        match r {
            Some(k) => k < ids@.len() && ids@[k as int]@ == key@ && forall|j: int|
                0 <= j < k ==> ids@[j]@ != key@,
            None => forall|j: int| 0 <= j < ids@.len() ==> ids@[j]@ != key@,
        },
{
    let mut k: usize = 0;
    while k < ids.len()
        invariant
            0 <= k <= ids@.len(),
            forall|j: int| 0 <= j < k ==> ids@[j]@ != key@,
        decreases ids@.len() - k,
    {
        if ids[k] == *key {
            return Some(k);
        }
        k = k + 1;
    }
    None
}

/// Group the rows stored beside issues by issue: slot `k` holds, in their
/// order, the values of the rows keyed by `ids[k]` (see [`grouped`]); rows
/// keyed by no id are dropped.
pub fn group_children<T>(ids: &Vec<String>, rows: Vec<(String, T)>) -> (m: Vec<Vec<T>>)
    ensures
        m@.len() == ids@.len(),
        forall|k: int| 0 <= k < ids@.len() ==> (#[trigger] m@[k])@ == grouped(views(ids@), rows@, k),
{
    let ghost orig = rows@;
    let ghost idv = views(ids@);
    let mut m: Vec<Vec<T>> = Vec::new();
    let mut k: usize = 0;
    while k < ids.len()
        invariant
            0 <= k <= ids@.len(),
            m@.len() == k,
            forall|j: int| 0 <= j < k ==> (#[trigger] m@[j])@.len() == 0,
        decreases ids@.len() - k,
    {
        m.push(Vec::new());
        k = k + 1;
    }
    assert forall|j: int| 0 <= j < ids@.len() implies (#[trigger] m@[j])@ == grouped(
        idv,
        orig.take(0),
        j,
    ) by {
        assert(orig.take(0).len() == 0);
        assert(m@[j]@ =~= grouped(idv, orig.take(0), j));
    }
    let mut rows = rows;
    let mut done: usize = 0;
    assert(orig.len() == rows.len());
    while rows.len() > 0
        invariant
            0 <= done <= orig.len(),
            orig.len() <= usize::MAX,
            rows@ == orig.skip(done as int),
            idv == views(ids@),
            m@.len() == ids@.len(),
            forall|j: int| 0 <= j < ids@.len() ==> (#[trigger] m@[j])@ == grouped(
                idv,
                orig.take(done as int),
                j,
            ),
        decreases rows@.len(),
    {
        let ghost before = m@;
        let (key, x) = rows.remove(0);
        proof {
            assert(orig.take(done + 1).drop_last() =~= orig.take(done as int));
            assert(orig[done as int] == (key, x));
            assert(orig.take(done + 1).last() == (key, x));
        }
        match find_slot(ids, &key) {
            Some(s) => {
                let mut g = m.remove(s);
                g.push(x);
                m.insert(s, g);
                assert forall|j: int| 0 <= j < ids@.len() implies (#[trigger] m@[j])@ == grouped(
                    idv,
                    orig.take(done + 1),
                    j,
                ) by {
                    assert(idv[j] == ids@[j]@);
                    if j == s {
                        assert(first_slot(idv, j));
                    } else if idv[j] == key@ && first_slot(idv, j) {
                        if j < s {
                        } else {
                            assert(idv[s as int] == idv[j]);
                        }
                    }
                }
            },
            None => {
                assert forall|j: int| 0 <= j < ids@.len() implies (#[trigger] m@[j])@ == grouped(
                    idv,
                    orig.take(done + 1),
                    j,
                ) by {
                    assert(idv[j] == ids@[j]@);
                }
            },
        }
        done = done + 1;
        proof {
            assert(rows@ =~= orig.skip(done as int));
        }
    }
    assert(orig.take(done as int) =~= orig);
    m
}

/// The creation time of a row stored beside an issue (a dependency, a
/// comment or an event), read as a required date-time column: refused
/// exactly when its text is malformed; otherwise the text as stored (empty
/// for NULL).
pub fn child_time(v: &Option<String>) -> (r: Result<String, MalformedDate>)
    ensures
        r is Ok <==> required_instant(*v) is Some,
        r matches Ok(t) ==> t@ == text_of(*v),
{
    match parse_required_datetime(copy_opt(v)) {
        Ok(_) => Ok(text_or_empty(v)),
        Err(e) => Err(e),
    }
}

} // verus!
