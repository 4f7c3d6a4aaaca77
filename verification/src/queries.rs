//! The SQL text and the bound values of the issue listing and search
//! queries.
//!
//! A query is described as a sequence of pieces: fixed text, or a value bound
//! to the next numbered placeholder. Rendering numbers the placeholders `?1`,
//! `?2`, ... in the order of the pieces, and the bound values come out in the
//! same order, so the n-th placeholder always binds the n-th value.

use vstd::prelude::*;
use crate::subprocess::{join_spec, join_strings, views};
use crate::text::{
    int_to_decimal, nat_to_decimal, push_i64_decimal, push_str_chars, push_u64_decimal,
    string_from_chars,
};

verus! {

/// The columns every issue listing reads, and the join that gathers each
/// issue's labels.
pub const ISSUE_SELECT: &'static str = "SELECT i.id, i.content_hash, i.title, i.description, i.design, i.acceptance_criteria, i.notes,
                    i.status, i.priority, i.issue_type, i.assignee, i.owner, i.estimated_minutes,
                    i.created_at, i.created_by, i.updated_at, i.closed_at, i.close_reason,
                    i.closed_by_session, i.due_at, i.defer_until, i.external_ref, i.source_system,
                    i.source_repo, i.deleted_at, i.deleted_by, i.delete_reason, i.original_type,
                    i.compaction_level, i.compacted_at, i.compacted_at_commit, i.original_size,
                    i.sender, i.ephemeral, i.pinned, i.is_template,
                    GROUP_CONCAT(bl.label) AS labels
             FROM issues i
             LEFT JOIN bead_labels bl ON i.id = bl.bead_id";

/// The condition of the search that leaves deleted issues out.
pub const SEARCH_NOT_DELETED: &'static str = "\n             WHERE i.deleted_at IS NULL";

/// One piece of a query.
pub ghost enum Piece {
    /// Fixed SQL text.
    Text(Seq<char>),
    /// A value bound to the next numbered placeholder.
    Param(Seq<char>),
}

/// The number of bound values among the pieces.
pub open spec fn param_count(pieces: Seq<Piece>) -> nat
    decreases pieces.len(),
{
    if pieces.len() == 0 {
        0
    } else {
        param_count(pieces.drop_last()) + if pieces.last() is Param {
            1nat
        } else {
            0nat
        }
    }
}

/// The SQL text of the pieces, each bound value written as `?` and its
/// 1-based position among the bound values.
pub open spec fn render(pieces: Seq<Piece>) -> Seq<char>
    decreases pieces.len(),
{
    if pieces.len() == 0 {
        Seq::empty()
    } else {
        render(pieces.drop_last()) + match pieces.last() {
            Piece::Text(t) => t,
            Piece::Param(_) => "?"@ + nat_to_decimal(param_count(pieces)),
        }
    }
}

/// The bound values, in placeholder order.
pub open spec fn bound_values(pieces: Seq<Piece>) -> Seq<Seq<char>>
    decreases pieces.len(),
{
    if pieces.len() == 0 {
        Seq::empty()
    } else {
        bound_values(pieces.drop_last()) + match pieces.last() {
            Piece::Text(_) => Seq::empty(),
            Piece::Param(v) => seq![v],
        }
    }
}

/// There are exactly as many bound values as placeholders.
pub proof fn lemma_one_value_per_placeholder(pieces: Seq<Piece>)
    ensures
        bound_values(pieces).len() == param_count(pieces),
    decreases pieces.len(),
{
    if pieces.len() > 0 {
        lemma_one_value_per_placeholder(pieces.drop_last());
    }
}

/// A query under construction: its text and bound values so far.
struct QueryText {
    text: Vec<char>,
    params: Vec<String>,
    pieces: Ghost<Seq<Piece>>,
}

impl QueryText {
    spec fn wf(&self) -> bool {
        &&& self.text@ == render(self.pieces@)
        &&& views(self.params@) == bound_values(self.pieces@)
        &&& self.params@.len() == param_count(self.pieces@)
    }

    fn new() -> (q: Self)
        ensures
            q.wf(),
            q.pieces@ == Seq::<Piece>::empty(),
    {
        let q = QueryText { text: Vec::new(), params: Vec::new(), pieces: Ghost(Seq::empty()) };
        assert(views(q.params@) =~= bound_values(q.pieces@));
        assert(q.text@ =~= render(q.pieces@));
        q
    }

    fn text(&mut self, s: &str)
        requires
            old(self).wf(),
        ensures
            final(self).wf(),
            final(self).pieces@ == old(self).pieces@.push(Piece::Text(s@)),
    {
        let ghost p = self.pieces@.push(Piece::Text(s@));
        push_str_chars(&mut self.text, s);
        self.pieces = Ghost(p);
        assert(p.drop_last() =~= old(self).pieces@);
        assert(views(self.params@) =~= bound_values(p));
    }

    fn param(&mut self, value: String)
        requires
            old(self).wf(),
        ensures
            final(self).wf(),
            final(self).pieces@ == old(self).pieces@.push(Piece::Param(value@)),
    {
        let ghost p = self.pieces@.push(Piece::Param(value@));
        let ghost before = self.params@;
        self.params.push(value);
        let n = self.params.len();
        push_str_chars(&mut self.text, "?");
        push_u64_decimal(&mut self.text, n as u64);
        self.pieces = Ghost(p);
        assert(p.drop_last() =~= old(self).pieces@);
        assert(views(self.params@) =~= views(before).push(value@));
        assert(views(self.params@) =~= bound_values(p));
        assert(param_count(p) == n);
        assert(self.text@ =~= render(p));
    }

    fn finish(self) -> (r: (String, Vec<String>))
        requires
            self.wf(),
        ensures
            r.0@ == render(self.pieces@),
            views(r.1@) == bound_values(self.pieces@),
    {
        (string_from_chars(self.text.as_slice()), self.params)
    }
}

/// The filters of an issue listing. Status, issue type and priority are held
/// as the text under which the issues table stores them, the two dates as
/// RFC 3339 text; an empty assignee selects the unassigned issues.
#[derive(Debug, Clone, Default)]
pub struct IssueFilter {
    pub status: Option<String>,
    pub issue_type: Option<String>,
    pub assignee: Option<String>,
    pub priority: Option<String>,
    pub annotation: Option<(String, String)>,
    pub labels: Option<Vec<String>>,
    pub updated_since: Option<String>,
    pub updated_before: Option<String>,
    pub limit: Option<usize>,
    pub offset: Option<usize>,
}

/// The largest number of rows a listing returns.
pub const MAX_LIMIT: usize = 10000;

/// The largest number of rows a listing skips.
pub const MAX_OFFSET: usize = 1000000;

/// `prefix` and a placeholder bound to `v`, when there is a `v`.
pub open spec fn opt_condition(prefix: Seq<char>, v: Option<String>) -> Seq<Piece> {
    match v {
        Some(x) => seq![Piece::Text(prefix), Piece::Param(x@)],
        None => Seq::empty(),
    }
}

/// The condition that issue `i` carries the label of the `j`-th subquery.
pub open spec fn label_condition(j: nat, label: Seq<char>) -> Seq<Piece> {
    let d = nat_to_decimal(j);
    seq![
        Piece::Text("EXISTS (SELECT 1 FROM bead_labels bl"@),
        Piece::Text(d),
        Piece::Text(" WHERE bl"@),
        Piece::Text(d),
        Piece::Text(".bead_id = i.id AND bl"@),
        Piece::Text(d),
        Piece::Text(".label = "@),
        Piece::Param(label),
        Piece::Text(")"@),
    ]
}

/// The conditions that the issue carries every one of the labels, joined
/// with AND.
pub open spec fn all_labels_condition(labels: Seq<Seq<char>>) -> Seq<Piece>
    decreases labels.len(),
{
    if labels.len() == 0 {
        Seq::empty()
    } else {
        all_labels_condition(labels.drop_last()) + (if labels.len() > 1 {
            seq![Piece::Text(" AND "@)]
        } else {
            Seq::empty()
        }) + label_condition((labels.len() - 1) as nat, labels.last())
    }
}

/// The clause that the issue carries all the labels, when there are any.
pub open spec fn labels_clause(labels: Seq<Seq<char>>) -> Seq<Piece> {
    if labels.len() == 0 {
        Seq::empty()
    } else {
        seq![Piece::Text(" AND ("@)] + all_labels_condition(labels) + seq![Piece::Text(") "@)]
    }
}

/// The assignee condition of a listing.
pub open spec fn assignee_condition(assignee: Option<String>) -> Seq<Piece> {
    match assignee {
        Some(a) => if a@.len() == 0 {
            seq![Piece::Text(" AND (i.assignee IS NULL OR i.assignee = '')"@)]
        } else {
            seq![Piece::Text(" AND i.assignee = "@), Piece::Param(a@)]
        },
        None => Seq::empty(),
    }
}

/// The annotation conditions of a listing.
pub open spec fn annotation_condition(annotation: Option<(String, String)>) -> Seq<Piece> {
    match annotation {
        Some(kv) => seq![
            Piece::Text(" AND a.key = "@),
            Piece::Param(kv.0@),
            Piece::Text(" AND a.value = "@),
            Piece::Param(kv.1@),
        ],
        None => Seq::empty(),
    }
}

/// `prefix` and a placeholder bound to the decimal text of `n` capped at
/// `cap`, when there is an `n`.
pub open spec fn capped_condition(prefix: Seq<char>, n: Option<usize>, cap: usize) -> Seq<Piece> {
    match n {
        Some(k) => seq![
            Piece::Text(prefix),
            Piece::Param(nat_to_decimal(if k < cap { k as nat } else { cap as nat })),
        ],
        None => Seq::empty(),
    }
}

/// The label view of an optional list of labels (none when absent).
pub open spec fn opt_labels(labels: Option<Vec<String>>) -> Seq<Seq<char>> {
    match labels {
        Some(ls) => views(ls@),
        None => Seq::empty(),
    }
}

/// The pieces of the listing query for `f`: issues not deleted that meet
/// every filter that is set, newest update first (ties by id), at most
/// `MAX_LIMIT` rows from at most `MAX_OFFSET` on.
pub open spec fn list_issues_pieces(f: IssueFilter) -> Seq<Piece> {
    seq![Piece::Text(ISSUE_SELECT@)]
        + (if f.annotation is Some {
        seq![Piece::Text(" LEFT JOIN bead_annotations a ON i.id = a.bead_id"@)]
    } else {
        Seq::empty()
    })
        + seq![Piece::Text(" WHERE i.deleted_at IS NULL"@)]
        + opt_condition(" AND i.status = "@, f.status)
        + opt_condition(" AND i.issue_type = "@, f.issue_type)
        + assignee_condition(f.assignee)
        + opt_condition(" AND i.priority = "@, f.priority)
        + annotation_condition(f.annotation)
        + labels_clause(opt_labels(f.labels))
        + opt_condition(" AND i.updated_at >= "@, f.updated_since)
        + opt_condition(" AND i.updated_at < "@, f.updated_before)
        + seq![
        Piece::Text(" GROUP BY i.id"@),
        Piece::Text(" ORDER BY i.updated_at DESC, i.id ASC"@),
    ]
        + capped_condition(" LIMIT "@, f.limit, MAX_LIMIT)
        + capped_condition(" OFFSET "@, f.offset, MAX_OFFSET)
}

fn push_opt_condition(q: &mut QueryText, prefix: &str, v: &Option<String>)
    requires
        old(q).wf(),
    ensures
        final(q).wf(),
        final(q).pieces@ == old(q).pieces@ + opt_condition(prefix@, *v),
{
    match v {
        Some(x) => {
            q.text(prefix);
            q.param(x.clone());
        },
        None => {},
    }
    assert(q.pieces@ =~= old(q).pieces@ + opt_condition(prefix@, *v));
}

fn push_label_conditions(q: &mut QueryText, labels: &Vec<String>)
    requires
        old(q).wf(),
    ensures
        final(q).wf(),
        final(q).pieces@ == old(q).pieces@ + all_labels_condition(views(labels@)),
{
    let mut j: usize = 0;
    while j < labels.len()
        invariant
            0 <= j <= labels@.len(),
            q.wf(),
            q.pieces@ == old(q).pieces@ + all_labels_condition(views(labels@.take(j as int))),
        decreases labels@.len() - j,
    {
        let ghost before = q.pieces@;
        if j > 0 {
            q.text(" AND ");
        }
        let d = decimal_text(j as u64);
        q.text("EXISTS (SELECT 1 FROM bead_labels bl");
        q.text(d.as_str());
        q.text(" WHERE bl");
        q.text(d.as_str());
        q.text(".bead_id = i.id AND bl");
        q.text(d.as_str());
        q.text(".label = ");
        q.param(labels[j].clone());
        q.text(")");
        proof {
            let t = views(labels@.take(j + 1));
            assert(t.drop_last() =~= views(labels@.take(j as int)));
            assert(t.last() == labels@[j as int]@);
        }
        j = j + 1;
        assert(q.pieces@ =~= old(q).pieces@ + all_labels_condition(views(labels@.take(j as int))));
    }
    assert(labels@.take(labels@.len() as int) =~= labels@);
}

fn push_capped_condition(q: &mut QueryText, prefix: &str, n: Option<usize>, cap: usize)
    requires
        old(q).wf(),
    ensures
        final(q).wf(),
        final(q).pieces@ == old(q).pieces@ + capped_condition(prefix@, n, cap),
{
    match n {
        Some(k) => {
            let c = if k < cap {
                k
            } else {
                cap
            };
            q.text(prefix);
            q.param(decimal_text(c as u64));
        },
        None => {},
    }
    assert(q.pieces@ =~= old(q).pieces@ + capped_condition(prefix@, n, cap));
}

fn push_assignee_condition(q: &mut QueryText, assignee: &Option<String>)
    requires
        old(q).wf(),
    ensures
        final(q).wf(),
        final(q).pieces@ == old(q).pieces@ + assignee_condition(*assignee),
{
    match assignee {
        Some(a) => {
            if a.as_str().is_empty() {
                q.text(" AND (i.assignee IS NULL OR i.assignee = '')");
            } else {
                q.text(" AND i.assignee = ");
                q.param(a.clone());
            }
        },
        None => {},
    }
    assert(q.pieces@ =~= old(q).pieces@ + assignee_condition(*assignee));
}

fn push_annotation_condition(q: &mut QueryText, annotation: &Option<(String, String)>)
    requires
        old(q).wf(),
    ensures
        final(q).wf(),
        final(q).pieces@ == old(q).pieces@ + annotation_condition(*annotation),
{
    match annotation {
        Some(kv) => {
            q.text(" AND a.key = ");
            q.param(kv.0.clone());
            q.text(" AND a.value = ");
            q.param(kv.1.clone());
        },
        None => {},
    }
    assert(q.pieces@ =~= old(q).pieces@ + annotation_condition(*annotation));
}

fn push_labels_clause(q: &mut QueryText, labels: &Vec<String>)
    requires
        old(q).wf(),
    ensures
        final(q).wf(),
        final(q).pieces@ == old(q).pieces@ + labels_clause(views(labels@)),
{
    if labels.len() > 0 {
        q.text(" AND (");
        push_label_conditions(q, labels);
        q.text(") ");
    }
    assert(q.pieces@ =~= old(q).pieces@ + labels_clause(views(labels@)));
}

/// The SQL text and bound values with which `list_issues` reads the issues
/// that meet `filter` (see [`list_issues_pieces`]).
pub fn list_issues_query(filter: &IssueFilter) -> (r: (String, Vec<String>))
    ensures
        r.0@ == render(list_issues_pieces(*filter)),
        views(r.1@) == bound_values(list_issues_pieces(*filter)),
{
    let mut q = QueryText::new();
    q.text(ISSUE_SELECT);
    if filter.annotation.is_some() {
        q.text(" LEFT JOIN bead_annotations a ON i.id = a.bead_id");
    }
    q.text(" WHERE i.deleted_at IS NULL");
    push_opt_condition(&mut q, " AND i.status = ", &filter.status);
    push_opt_condition(&mut q, " AND i.issue_type = ", &filter.issue_type);
    push_assignee_condition(&mut q, &filter.assignee);
    push_opt_condition(&mut q, " AND i.priority = ", &filter.priority);
    push_annotation_condition(&mut q, &filter.annotation);
    let ghost p4 = q.pieces@;
    match &filter.labels {
        Some(ls) => push_labels_clause(&mut q, ls),
        None => {},
    }
    assert(q.pieces@ =~= p4 + labels_clause(opt_labels(filter.labels)));
    push_opt_condition(&mut q, " AND i.updated_at >= ", &filter.updated_since);
    push_opt_condition(&mut q, " AND i.updated_at < ", &filter.updated_before);
    q.text(" GROUP BY i.id");
    q.text(" ORDER BY i.updated_at DESC, i.id ASC");
    push_capped_condition(&mut q, " LIMIT ", filter.limit, MAX_LIMIT);
    push_capped_condition(&mut q, " OFFSET ", filter.offset, MAX_OFFSET);
    assert(q.pieces@ =~= list_issues_pieces(*filter));
    q.finish()
}

/// The conditions that `column` equals one of the values, joined with OR.
pub open spec fn any_of_conditions(column: Seq<char>, values: Seq<Seq<char>>) -> Seq<Piece>
    decreases values.len(),
{
    if values.len() == 0 {
        Seq::empty()
    } else {
        any_of_conditions(column, values.drop_last()) + (if values.len() > 1 {
            seq![Piece::Text(" OR "@)]
        } else {
            Seq::empty()
        }) + seq![Piece::Text(column), Piece::Param(values.last())]
    }
}

/// The clause that `column` equals one of the values, when there are any.
pub open spec fn any_of_clause(column: Seq<char>, values: Seq<Seq<char>>) -> Seq<Piece> {
    if values.len() == 0 {
        Seq::empty()
    } else {
        seq![Piece::Text(" AND ("@)] + any_of_conditions(column, values) + seq![Piece::Text(") "@)]
    }
}

/// The text-search condition: the title or the description contains `q`.
pub open spec fn text_search_condition(q: Option<&str>) -> Seq<Piece> {
    match q {
        Some(t) => seq![
            Piece::Text(" AND (i.title LIKE "@),
            Piece::Param("%"@ + t@ + "%"@),
            Piece::Text(" OR i.description LIKE "@),
            Piece::Param("%"@ + t@ + "%"@),
            Piece::Text(")"@),
        ],
        None => Seq::empty(),
    }
}

/// `prefix` and a placeholder bound to the decimal text of `n`, when there
/// is an `n`.
pub open spec fn priority_condition(prefix: Seq<char>, n: Option<i32>) -> Seq<Piece> {
    match n {
        Some(k) => seq![Piece::Text(prefix), Piece::Param(int_to_decimal(k as int))],
        None => Seq::empty(),
    }
}

/// The pieces of the search query: issues not deleted whose title or
/// description contains `query`, whose status is one of `statuses` and type
/// one of `issue_types` (when these are not empty), with the assignee, all the
/// labels and a priority in the bounds that are given; most urgent first,
/// then oldest first, at most `limit` rows when `limit` is not 0.
pub open spec fn search_issues_pieces(
    query: Option<&str>,
    statuses: Seq<Seq<char>>,
    issue_types: Seq<Seq<char>>,
    assignee: Option<&str>,
    labels: Seq<Seq<char>>,
    priority_min: Option<i32>,
    priority_max: Option<i32>,
    limit: usize,
) -> Seq<Piece> {
    seq![Piece::Text(ISSUE_SELECT@), Piece::Text(SEARCH_NOT_DELETED@)]
        + text_search_condition(query)
        + any_of_clause("i.status = "@, statuses)
        + any_of_clause("i.issue_type = "@, issue_types)
        + opt_str_condition(" AND i.assignee = "@, assignee)
        + labels_clause(labels)
        + priority_condition(" AND i.priority >= "@, priority_min)
        + priority_condition(" AND i.priority <= "@, priority_max)
        + seq![
        Piece::Text(" GROUP BY i.id"@),
        Piece::Text(" ORDER BY i.priority ASC, i.created_at ASC"@),
    ]
        + (if limit > 0 {
        seq![Piece::Text(" LIMIT "@), Piece::Text(nat_to_decimal(limit as nat))]
    } else {
        Seq::empty()
    })
}

fn push_any_of_clause(q: &mut QueryText, column: &str, values: &Vec<String>)
    requires
        old(q).wf(),
    ensures
        final(q).wf(),
        final(q).pieces@ == old(q).pieces@ + any_of_clause(column@, views(values@)),
{
    if values.len() > 0 {
        q.text(" AND (");
        let ghost start = q.pieces@;
        let mut j: usize = 0;
        while j < values.len()
            invariant
                0 <= j <= values@.len(),
                q.wf(),
                q.pieces@ == start + any_of_conditions(column@, views(values@.take(j as int))),
            decreases values@.len() - j,
        {
            if j > 0 {
                q.text(" OR ");
            }
            q.text(column);
            q.param(values[j].clone());
            proof {
                let t = views(values@.take(j + 1));
                assert(t.drop_last() =~= views(values@.take(j as int)));
                assert(t.last() == values@[j as int]@);
            }
            j = j + 1;
            assert(q.pieces@ =~= start + any_of_conditions(column@, views(values@.take(j as int))));
        }
        assert(values@.take(values@.len() as int) =~= values@);
        q.text(") ");
    }
    assert(q.pieces@ =~= old(q).pieces@ + any_of_clause(column@, views(values@)));
}

fn push_text_search(q: &mut QueryText, query: Option<&str>)
    requires
        old(q).wf(),
    ensures
        final(q).wf(),
        final(q).pieces@ == old(q).pieces@ + text_search_condition(query),
{
    match query {
        Some(t) => {
            let mut v: Vec<char> = Vec::new();
            push_str_chars(&mut v, "%");
            push_str_chars(&mut v, t);
            push_str_chars(&mut v, "%");
            let pattern = string_from_chars(v.as_slice());
            q.text(" AND (i.title LIKE ");
            q.param(pattern.clone());
            q.text(" OR i.description LIKE ");
            q.param(pattern);
            q.text(")");
        },
        None => {},
    }
    assert(q.pieces@ =~= old(q).pieces@ + text_search_condition(query));
}

fn push_priority_condition(q: &mut QueryText, prefix: &str, n: Option<i32>)
    requires
        old(q).wf(),
    ensures
        final(q).wf(),
        final(q).pieces@ == old(q).pieces@ + priority_condition(prefix@, n),
{
    match n {
        Some(k) => {
            q.text(prefix);
            q.param(signed_decimal_text(k as i64));
        },
        None => {},
    }
    assert(q.pieces@ =~= old(q).pieces@ + priority_condition(prefix@, n));
}

/// The SQL text and bound values with which `search_issues` finds issues
/// (see [`search_issues_pieces`]). Statuses and issue types are given as the
/// text under which the issues table stores them.
pub fn search_issues_query(
    query: Option<&str>,
    statuses: &Vec<String>,
    issue_types: &Vec<String>,
    assignee: Option<&str>,
    labels: &Vec<String>,
    priority_min: Option<i32>,
    priority_max: Option<i32>,
    limit: usize,
) -> (r: (String, Vec<String>))
    ensures
        r.0@ == render(
            search_issues_pieces(
                query,
                views(statuses@),
                views(issue_types@),
                assignee,
                views(labels@),
                priority_min,
                priority_max,
                limit,
            ),
        ),
        views(r.1@) == bound_values(
            search_issues_pieces(
                query,
                views(statuses@),
                views(issue_types@),
                assignee,
                views(labels@),
                priority_min,
                priority_max,
                limit,
            ),
        ),
{
    let mut q = QueryText::new();
    q.text(ISSUE_SELECT);
    q.text(SEARCH_NOT_DELETED);
    push_text_search(&mut q, query);
    push_any_of_clause(&mut q, "i.status = ", statuses);
    push_any_of_clause(&mut q, "i.issue_type = ", issue_types);
    push_opt_str_condition(&mut q, " AND i.assignee = ", assignee);
    push_labels_clause(&mut q, labels);
    push_priority_condition(&mut q, " AND i.priority >= ", priority_min);
    push_priority_condition(&mut q, " AND i.priority <= ", priority_max);
    q.text(" GROUP BY i.id");
    q.text(" ORDER BY i.priority ASC, i.created_at ASC");
    if limit > 0 {
        q.text(" LIMIT ");
        let d = decimal_text(limit as u64);
        q.text(d.as_str());
    }
    assert(q.pieces@ =~= search_issues_pieces(
        query,
        views(statuses@),
        views(issue_types@),
        assignee,
        views(labels@),
        priority_min,
        priority_max,
        limit,
    ));
    q.finish()
}

/// The listing of the beads that are ready to be claimed: open beads that
/// are not ephemeral, pinned, templates or deleted, with no dependency of a
/// blocking type on a bead that is not terminal, with their labels, most
/// urgent priority first, then oldest first.
pub const READY_CANDIDATES_SQL: &'static str = r#"
            SELECT i.id, i.content_hash, i.title, i.description, i.design, i.acceptance_criteria, i.notes,
                   i.status, i.priority, i.issue_type, i.assignee, i.owner, i.estimated_minutes,
                   i.created_at, i.created_by, i.updated_at, i.closed_at, i.close_reason,
                   i.closed_by_session, i.due_at, i.defer_until, i.external_ref, i.source_system,
                   i.source_repo, i.deleted_at, i.deleted_by, i.delete_reason, i.original_type,
                   i.compaction_level, i.compacted_at, i.compacted_at_commit, i.original_size,
                   i.sender, i.ephemeral, i.pinned, i.is_template,
                   GROUP_CONCAT(bl.label) AS labels
            FROM issues i
            LEFT JOIN bead_labels bl ON i.id = bl.bead_id
            WHERE i.status = 'open'
              AND i.ephemeral = 0
              AND i.pinned = 0
              AND i.is_template = 0
              AND i.deleted_at IS NULL
              AND NOT EXISTS (
                  -- Exclude beads with unclosed blocking dependencies
                  SELECT 1
                  FROM dependencies d
                  INNER JOIN issues blocker ON blocker.id = d.depends_on_id
                  WHERE d.issue_id = i.id
                    AND d.type IN ('blocks', 'parent-child', 'conditional-blocks', 'waits-for')
                    AND blocker.status NOT IN ('closed', 'tombstone', 'done', 'completed')
              )
            GROUP BY i.id
            ORDER BY i.priority ASC, i.created_at ASC
        "#;

/// The SQL text with which the ready beads are listed
/// ([`READY_CANDIDATES_SQL`]); it binds no values.
pub fn ready_candidates_query() -> (s: &'static str)
    ensures
        s@ == READY_CANDIDATES_SQL@,
{
    READY_CANDIDATES_SQL
}

/// The top candidate for claiming, scored with the velocity statistics of a
/// model and harness (bound in that order): among the ready beads, the one
/// with the best combined score per expected second, then the most
/// downstream impact, the least critical-path float, the most urgent
/// priority and the oldest.
pub const VELOCITY_SCORE_SQL: &'static str = r#"SELECT COALESCE(COUNT(d.issue_id), 0) as downstream_impact,
                        COALESCE(c.float, 999) as critical_float,
                        i.priority,
                        CAST(strftime('%s', i.created_at) AS INTEGER) as created_ts,
                        vs.p50_seconds as expected_seconds,
                        (COALESCE(COUNT(d.issue_id), 0) * 3.0
                         + (4 - i.priority) * 2.0
                         + 1000.0 / (COALESCE(c.float, 999) + 1)) as combined_score
                 FROM issues i
                 LEFT JOIN dependencies d ON d.depends_on_id = i.id AND d.type IN ('blocks', 'parent-child', 'conditional-blocks', 'waits-for')
                 LEFT JOIN critical_path_cache c ON c.bead_id = i.id
                 LEFT JOIN velocity_stats vs ON vs.issue_type = i.issue_type
                     AND vs.model = ?1
                     AND vs.harness = ?2
                 WHERE i.status = 'open'
                   AND i.ephemeral = 0
                   AND i.pinned = 0
                   AND i.is_template = 0
                   AND i.deleted_at IS NULL
                   AND i.id NOT IN (SELECT issue_id FROM blocked_issues_cache)
                 GROUP BY i.id
                 ORDER BY
                     combined_score / COALESCE(vs.p50_seconds, 1800) DESC,
                     downstream_impact DESC,
                     critical_float ASC,
                     i.priority ASC,
                     i.created_at ASC
                 LIMIT 1"#;

/// The top candidate for claiming without velocity statistics: among the
/// ready beads, the one with the most downstream impact, then the least
/// critical-path float, the most urgent priority and the oldest.
pub const SCORE_SQL: &'static str = r#"SELECT COALESCE(COUNT(d.issue_id), 0) as downstream_impact,
                        COALESCE(c.float, 999) as critical_float,
                        i.priority,
                        CAST(strftime('%s', i.created_at) AS INTEGER) as created_ts
                 FROM issues i
                 LEFT JOIN dependencies d ON d.depends_on_id = i.id AND d.type IN ('blocks', 'parent-child', 'conditional-blocks', 'waits-for')
                 LEFT JOIN critical_path_cache c ON c.bead_id = i.id
                 WHERE i.status = 'open'
                   AND i.ephemeral = 0
                   AND i.pinned = 0
                   AND i.is_template = 0
                   AND i.deleted_at IS NULL
                   AND i.id NOT IN (SELECT issue_id FROM blocked_issues_cache)
                 GROUP BY i.id
                 ORDER BY
                     downstream_impact DESC,
                     critical_float ASC,
                     i.priority ASC,
                     i.created_at ASC
                 LIMIT 1"#;

/// The SQL text and bound values with which the top claim candidate is
/// scored: with both a model and a harness, the velocity-aware query bound
/// to them; otherwise the plain query, which binds nothing.
pub fn top_candidate_query(model: Option<&str>, harness: Option<&str>) -> (r: (
    &'static str,
    Vec<String>,
))
    ensures
        (model is Some && harness is Some) ==> (r.0@ == VELOCITY_SCORE_SQL@ && views(r.1@) == seq![
            model->0@,
            harness->0@,
        ]),
        !(model is Some && harness is Some) ==> (r.0@ == SCORE_SQL@ && r.1@.len() == 0),
{
    match (model, harness) {
        (Some(m), Some(h)) => {
            let mut v: Vec<String> = Vec::new();
            v.push(m.to_string());
            v.push(h.to_string());
            assert(views(v@) =~= seq![m@, h@]);
            (VELOCITY_SCORE_SQL, v)
        },
        _ => (SCORE_SQL, Vec::new()),
    }
}

/// Reads one issue, with its labels, by id.
pub const GET_ISSUE_SQL: &'static str = "SELECT i.id, i.content_hash, i.title, i.description, i.design, i.acceptance_criteria, i.notes,
                    i.status, i.priority, i.issue_type, i.assignee, i.owner, i.estimated_minutes,
                    i.created_at, i.created_by, i.updated_at, i.closed_at, i.close_reason,
                    i.closed_by_session, i.due_at, i.defer_until, i.external_ref, i.source_system,
                    i.source_repo, i.deleted_at, i.deleted_by, i.delete_reason, i.original_type,
                    i.compaction_level, i.compacted_at, i.compacted_at_commit, i.original_size,
                    i.sender, i.ephemeral, i.pinned, i.is_template,
                    GROUP_CONCAT(bl.label) AS labels
             FROM issues i
             LEFT JOIN bead_labels bl ON i.id = bl.bead_id
             WHERE i.id = ?1
             GROUP BY i.id";

/// Reads the dependencies of one issue.
pub const DEPENDENCIES_OF_SQL: &'static str = "SELECT issue_id, depends_on_id, type, metadata, thread_id, created_at, created_by FROM dependencies WHERE issue_id = ?1";

/// Reads the comments of one issue.
pub const COMMENTS_OF_SQL: &'static str = "SELECT id, issue_id, author, text, created_at FROM comments WHERE issue_id = ?1";

/// Reads the events of one issue.
pub const EVENTS_OF_SQL: &'static str = "SELECT id, issue_id, event_type, actor, old_value, new_value, comment, created_at
             FROM events WHERE issue_id = ?1";

/// Reads the annotations of one bead.
pub const ANNOTATIONS_OF_SQL: &'static str = "SELECT key, value FROM bead_annotations WHERE bead_id = ?1";

/// The head of the query that reads the dependencies of several issues.
pub const BATCH_DEPENDENCIES_HEAD: &'static str = "SELECT issue_id, depends_on_id, type, metadata, thread_id, created_at, created_by
             FROM dependencies
             WHERE issue_id IN (";

/// The head of the query that reads the comments of several issues.
pub const BATCH_COMMENTS_HEAD: &'static str = "SELECT id, issue_id, author, text, created_at
             FROM comments
             WHERE issue_id IN (";

/// The head of the query that reads the annotations of several beads.
pub const BATCH_ANNOTATIONS_HEAD: &'static str = "SELECT bead_id, key, value
             FROM bead_annotations
             WHERE bead_id IN (";

/// The placeholders `?1,?2,...,?n`.
pub open spec fn placeholders_spec(n: nat) -> Seq<char> {
    join_spec(Seq::new(n, |i: int| "?"@ + nat_to_decimal((i + 1) as nat)), ","@)
}

/// A query that reads rows for `n` issues at once: `head`, the placeholders
/// `?1` to `?n`, and the closing parenthesis, to be bound to the ids in
/// order.
pub fn batch_query(head: &str, n: usize) -> (s: String)
    requires
        n < u64::MAX,
    ensures
        s@ == head@ + placeholders_spec(n as nat) + ")"@,
{
    let mut parts: Vec<String> = Vec::new();
    let mut i: usize = 0;
    while i < n
        invariant
            0 <= i <= n,
            n < u64::MAX,
            views(parts@) =~= Seq::new(i as nat, |k: int| "?"@ + nat_to_decimal((k + 1) as nat)),
        decreases n - i,
    {
        let mut p: Vec<char> = Vec::new();
        push_str_chars(&mut p, "?");
        push_u64_decimal(&mut p, (i as u64) + 1);
        let part = string_from_chars(p.as_slice());
        let ghost before = parts@;
        parts.push(part);
        assert(views(parts@) =~= views(before).push(part@));
        i = i + 1;
    }
    let joined = join_strings(&parts, ",");
    let mut text: Vec<char> = Vec::new();
    push_str_chars(&mut text, head);
    push_str_chars(&mut text, joined.as_str());
    push_str_chars(&mut text, ")");
    string_from_chars(text.as_slice())
}

/// The columns of an event listing.
pub const EVENT_SELECT: &'static str = "SELECT id, issue_id, event_type, actor, old_value, new_value, comment, created_at
             FROM events WHERE 1=1";

/// `prefix` and a placeholder bound to `v`, when there is a `v`.
pub open spec fn opt_str_condition(prefix: Seq<char>, v: Option<&str>) -> Seq<Piece> {
    match v {
        Some(x) => seq![Piece::Text(prefix), Piece::Param(x@)],
        None => Seq::empty(),
    }
}

/// The pieces of the filtered event listing: the events of the bead, since
/// the time, by the actor and of the type that are given, oldest first, at
/// most `limit` of them when a limit is given. The time is RFC 3339 text
/// and the type the text under which events are stored.
pub open spec fn list_events_pieces(
    issue_id: Option<&str>,
    since: Option<&str>,
    actor: Option<&str>,
    event_type: Option<&str>,
    limit: Option<usize>,
) -> Seq<Piece> {
    seq![Piece::Text(EVENT_SELECT@)]
        + opt_str_condition(" AND issue_id = "@, issue_id)
        + opt_str_condition(" AND created_at >= "@, since)
        + opt_str_condition(" AND actor = "@, actor)
        + opt_str_condition(" AND event_type = "@, event_type)
        + seq![Piece::Text(" ORDER BY created_at ASC"@)]
        + match limit {
        Some(l) => seq![Piece::Text(" LIMIT "@), Piece::Text(nat_to_decimal(l as nat))],
        None => Seq::empty(),
    }
}

fn push_opt_str_condition(q: &mut QueryText, prefix: &str, v: Option<&str>)
    requires
        old(q).wf(),
    ensures
        final(q).wf(),
        final(q).pieces@ == old(q).pieces@ + opt_str_condition(prefix@, v),
{
    match v {
        Some(x) => {
            q.text(prefix);
            q.param(x.to_string());
        },
        None => {},
    }
    assert(q.pieces@ =~= old(q).pieces@ + opt_str_condition(prefix@, v));
}

/// The SQL text and bound values with which `list_events_filtered` reads
/// events (see [`list_events_pieces`]).
pub fn list_events_query(
    issue_id: Option<&str>,
    since: Option<&str>,
    actor: Option<&str>,
    event_type: Option<&str>,
    limit: Option<usize>,
) -> (r: (String, Vec<String>))
    ensures
        r.0@ == render(list_events_pieces(issue_id, since, actor, event_type, limit)),
        views(r.1@) == bound_values(list_events_pieces(issue_id, since, actor, event_type, limit)),
{
    let mut q = QueryText::new();
    q.text(EVENT_SELECT);
    push_opt_str_condition(&mut q, " AND issue_id = ", issue_id);
    push_opt_str_condition(&mut q, " AND created_at >= ", since);
    push_opt_str_condition(&mut q, " AND actor = ", actor);
    push_opt_str_condition(&mut q, " AND event_type = ", event_type);
    q.text(" ORDER BY created_at ASC");
    match limit {
        Some(l) => {
            q.text(" LIMIT ");
            let d = decimal_text(l as u64);
            q.text(d.as_str());
        },
        None => {},
    }
    assert(q.pieces@ =~= list_events_pieces(issue_id, since, actor, event_type, limit));
    q.finish()
}

/// The decimal text of `n`.
fn decimal_text(n: u64) -> (s: String)
    ensures
        s@ == nat_to_decimal(n as nat),
{
    let mut v: Vec<char> = Vec::new();
    push_u64_decimal(&mut v, n);
    string_from_chars(v.as_slice())
}

/// The decimal text of `i`, with a leading `-` when negative.
fn signed_decimal_text(i: i64) -> (s: String)
    ensures
        s@ == int_to_decimal(i as int),
{
    let mut v: Vec<char> = Vec::new();
    push_i64_decimal(&mut v, i);
    string_from_chars(v.as_slice())
}


/// Counts of the issues that are not deleted: all of them, and those open,
/// in progress and closed.
#[derive(Debug, Clone)]
pub struct Stats {
    pub total: usize,
    pub open: usize,
    pub in_progress: usize,
    pub closed: usize,
}

} // verus!
