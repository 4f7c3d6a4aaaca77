//! What the listing, search and event queries select, stated over their
//! pieces: every filter that is given restricts the rows by a condition
//! bound to its own value, whatever the other filters are, and the bound
//! values are exactly the filters given, in order.

use vstd::prelude::*;
use crate::queries::{
    all_labels_condition, annotation_condition, any_of_clause, any_of_conditions, assignee_condition,
    bound_values, capped_condition, label_condition, labels_clause, list_events_pieces,
    list_issues_pieces, opt_condition, opt_labels, opt_str_condition, priority_condition,
    search_issues_pieces, text_search_condition, IssueFilter, Piece, EVENT_SELECT, ISSUE_SELECT,
    MAX_LIMIT, MAX_OFFSET, SEARCH_NOT_DELETED,
};
use crate::text::{int_to_decimal, nat_to_decimal};

verus! {

/// Whether the query restricts by `text` compared with a placeholder bound
/// to `value`: the text is followed directly by that bound value.
pub open spec fn has_condition(pieces: Seq<Piece>, text: Seq<char>, value: Seq<char>) -> bool {
    exists|i: int|
        0 <= i && i + 1 < pieces.len() && #[trigger] pieces[i] == Piece::Text(text) && pieces[i + 1]
            == Piece::Param(value)
}

proof fn lemma_condition_between(a: Seq<Piece>, text: Seq<char>, value: Seq<char>, b: Seq<Piece>)
    ensures
        has_condition(a + seq![Piece::Text(text), Piece::Param(value)] + b, text, value),
{
    let s = a + seq![Piece::Text(text), Piece::Param(value)] + b;
    assert(s[a.len() as int] == Piece::Text(text));
    assert(s[a.len() as int + 1] == Piece::Param(value));
}

/// The smaller of `n` and `cap`.
pub open spec fn capped(n: usize, cap: usize) -> nat {
    if n < cap {
        n as nat
    } else {
        cap as nat
    }
}

/// Filtering events: every filter that is given restricts the events, each
/// by a condition bound to its own value and whatever the other filters
/// are: the bead, the earliest time (`created_at >=`), the actor and the
/// type.
pub proof fn lemma_event_filters_restrict(
    issue_id: Option<&str>,
    since: Option<&str>,
    actor: Option<&str>,
    event_type: Option<&str>,
    limit: Option<usize>,
)
    ensures
        ({
            let p = list_events_pieces(issue_id, since, actor, event_type, limit);
            &&& issue_id matches Some(x) ==> has_condition(p, " AND issue_id = "@, x@)
            &&& since matches Some(t) ==> has_condition(p, " AND created_at >= "@, t@)
            &&& actor matches Some(x) ==> has_condition(p, " AND actor = "@, x@)
            &&& event_type matches Some(x) ==> has_condition(p, " AND event_type = "@, x@)
        }),
{
    let p0 = seq![Piece::Text(EVENT_SELECT@)];
    let c1 = opt_str_condition(" AND issue_id = "@, issue_id);
    let c2 = opt_str_condition(" AND created_at >= "@, since);
    let c3 = opt_str_condition(" AND actor = "@, actor);
    let c4 = opt_str_condition(" AND event_type = "@, event_type);
    let tail = seq![Piece::Text(" ORDER BY created_at ASC"@)] + match limit {
        Some(l) => seq![Piece::Text(" LIMIT "@), Piece::Text(nat_to_decimal(l as nat))],
        None => Seq::empty(),
    };
    let p = list_events_pieces(issue_id, since, actor, event_type, limit);
    assert(p =~= p0 + c1 + c2 + c3 + c4 + tail);
    if let Some(x) = issue_id {
        assert(p =~= p0 + seq![Piece::Text(" AND issue_id = "@), Piece::Param(x@)] + (c2 + c3 + c4 + tail));
        lemma_condition_between(p0, " AND issue_id = "@, x@, c2 + c3 + c4 + tail);
    }
    if let Some(t) = since {
        assert(p =~= (p0 + c1) + seq![Piece::Text(" AND created_at >= "@), Piece::Param(t@)] + (c3 + c4
            + tail));
        lemma_condition_between(p0 + c1, " AND created_at >= "@, t@, c3 + c4 + tail);
    }
    if let Some(x) = actor {
        assert(p =~= (p0 + c1 + c2) + seq![Piece::Text(" AND actor = "@), Piece::Param(x@)] + (c4
            + tail));
        lemma_condition_between(p0 + c1 + c2, " AND actor = "@, x@, c4 + tail);
    }
    if let Some(x) = event_type {
        assert(p =~= (p0 + c1 + c2 + c3) + seq![Piece::Text(" AND event_type = "@), Piece::Param(x@)]
            + tail);
        lemma_condition_between(p0 + c1 + c2 + c3, " AND event_type = "@, x@, tail);
    }
}

/// Searching: a given assignee restricts the results to that assignee, and
/// given priority bounds restrict them to priorities within the bounds,
/// each by a condition bound to its own value, whatever the text, status,
/// type and label filters are.
pub proof fn lemma_search_filters_restrict(
    query: Option<&str>,
    statuses: Seq<Seq<char>>,
    issue_types: Seq<Seq<char>>,
    assignee: Option<&str>,
    labels: Seq<Seq<char>>,
    priority_min: Option<i32>,
    priority_max: Option<i32>,
    limit: usize,
)
    ensures
        ({
            let p = search_issues_pieces(
                query,
                statuses,
                issue_types,
                assignee,
                labels,
                priority_min,
                priority_max,
                limit,
            );
            &&& assignee matches Some(a) ==> has_condition(p, " AND i.assignee = "@, a@)
            &&& priority_min matches Some(k) ==> has_condition(
                p,
                " AND i.priority >= "@,
                int_to_decimal(k as int),
            )
            &&& priority_max matches Some(k) ==> has_condition(
                p,
                " AND i.priority <= "@,
                int_to_decimal(k as int),
            )
        }),
{
    let a0 = seq![Piece::Text(ISSUE_SELECT@), Piece::Text(SEARCH_NOT_DELETED@)] + text_search_condition(
        query,
    ) + any_of_clause("i.status = "@, statuses) + any_of_clause("i.issue_type = "@, issue_types);
    let ca = opt_str_condition(" AND i.assignee = "@, assignee);
    let lc = labels_clause(labels);
    let c1 = priority_condition(" AND i.priority >= "@, priority_min);
    let c2 = priority_condition(" AND i.priority <= "@, priority_max);
    let tail = seq![
        Piece::Text(" GROUP BY i.id"@),
        Piece::Text(" ORDER BY i.priority ASC, i.created_at ASC"@),
    ] + (if limit > 0 {
        seq![Piece::Text(" LIMIT "@), Piece::Text(nat_to_decimal(limit as nat))]
    } else {
        Seq::empty()
    });
    let p = search_issues_pieces(
        query,
        statuses,
        issue_types,
        assignee,
        labels,
        priority_min,
        priority_max,
        limit,
    );
    assert(p =~= a0 + ca + lc + c1 + c2 + tail);
    if let Some(a) = assignee {
        assert(p =~= a0 + seq![Piece::Text(" AND i.assignee = "@), Piece::Param(a@)] + (lc + c1 + c2
            + tail));
        lemma_condition_between(a0, " AND i.assignee = "@, a@, lc + c1 + c2 + tail);
    }
    if let Some(k) = priority_min {
        assert(p =~= (a0 + ca + lc) + seq![
            Piece::Text(" AND i.priority >= "@),
            Piece::Param(int_to_decimal(k as int)),
        ] + (c2 + tail));
        lemma_condition_between(a0 + ca + lc, " AND i.priority >= "@, int_to_decimal(k as int), c2 + tail);
    }
    if let Some(k) = priority_max {
        assert(p =~= (a0 + ca + lc + c1) + seq![
            Piece::Text(" AND i.priority <= "@),
            Piece::Param(int_to_decimal(k as int)),
        ] + tail);
        lemma_condition_between(a0 + ca + lc + c1, " AND i.priority <= "@, int_to_decimal(k as int), tail);
    }
}

/// The listing's pieces before its limit: the select, the filters and the
/// order.
pub open spec fn listing_head(f: IssueFilter) -> Seq<Piece> {
    seq![Piece::Text(ISSUE_SELECT@)] + (if f.annotation is Some {
        seq![Piece::Text(" LEFT JOIN bead_annotations a ON i.id = a.bead_id"@)]
    } else {
        Seq::empty()
    }) + seq![Piece::Text(" WHERE i.deleted_at IS NULL"@)] + opt_condition(" AND i.status = "@, f.status)
        + opt_condition(" AND i.issue_type = "@, f.issue_type) + assignee_condition(f.assignee)
        + opt_condition(" AND i.priority = "@, f.priority) + annotation_condition(f.annotation)
        + labels_clause(opt_labels(f.labels)) + opt_condition(" AND i.updated_at >= "@, f.updated_since)
        + opt_condition(" AND i.updated_at < "@, f.updated_before) + seq![
        Piece::Text(" GROUP BY i.id"@),
        Piece::Text(" ORDER BY i.updated_at DESC, i.id ASC"@),
    ]
}

proof fn lemma_listing_shape(f: IssueFilter)
    ensures
        list_issues_pieces(f) == listing_head(f) + capped_condition(" LIMIT "@, f.limit, MAX_LIMIT)
            + capped_condition(" OFFSET "@, f.offset, MAX_OFFSET),
{
}

proof fn lemma_listing_limit(f: IssueFilter)
    ensures
        f.limit matches Some(l) ==> has_condition(
            list_issues_pieces(f),
            " LIMIT "@,
            nat_to_decimal(capped(l, MAX_LIMIT)),
        ),
        f.offset matches Some(o) ==> has_condition(
            list_issues_pieces(f),
            " OFFSET "@,
            nat_to_decimal(capped(o, MAX_OFFSET)),
        ),
{
    lemma_listing_shape(f);
    let h = listing_head(f);
    let cl = capped_condition(" LIMIT "@, f.limit, MAX_LIMIT);
    let p = list_issues_pieces(f);
    if let Some(l) = f.limit {
        let i = h.len() as int;
        assert(p[i] == Piece::Text(" LIMIT "@));
        assert(p[i + 1] == Piece::Param(nat_to_decimal(capped(l, MAX_LIMIT))));
    }
    if let Some(o) = f.offset {
        let i = (h + cl).len() as int;
        assert(p[i] == Piece::Text(" OFFSET "@));
        assert(p[i + 1] == Piece::Param(nat_to_decimal(capped(o, MAX_OFFSET))));
    }
}

proof fn lemma_listing_equalities(f: IssueFilter)
    ensures
        f.status matches Some(x) ==> has_condition(list_issues_pieces(f), " AND i.status = "@, x@),
        f.issue_type matches Some(x) ==> has_condition(list_issues_pieces(f), " AND i.issue_type = "@, x@),
        f.priority matches Some(x) ==> has_condition(list_issues_pieces(f), " AND i.priority = "@, x@),
{
    let a0 = seq![Piece::Text(ISSUE_SELECT@)] + (if f.annotation is Some {
        seq![Piece::Text(" LEFT JOIN bead_annotations a ON i.id = a.bead_id"@)]
    } else {
        Seq::empty()
    }) + seq![Piece::Text(" WHERE i.deleted_at IS NULL"@)];
    let cs = opt_condition(" AND i.status = "@, f.status);
    let ct = opt_condition(" AND i.issue_type = "@, f.issue_type);
    let ca = assignee_condition(f.assignee);
    let p = list_issues_pieces(f);
    if let Some(x) = f.status {
        let i = a0.len() as int;
        assert(p[i] == Piece::Text(" AND i.status = "@));
        assert(p[i + 1] == Piece::Param(x@));
    }
    if let Some(x) = f.issue_type {
        let i = (a0 + cs).len() as int;
        assert(p[i] == Piece::Text(" AND i.issue_type = "@));
        assert(p[i + 1] == Piece::Param(x@));
    }
    if let Some(x) = f.priority {
        let i = (a0 + cs + ct + ca).len() as int;
        assert(p[i] == Piece::Text(" AND i.priority = "@));
        assert(p[i + 1] == Piece::Param(x@));
    }
}

/// Listing issues: a given limit caps the rows at the limit or `MAX_LIMIT`,
/// whichever is smaller, and a given offset skips the rows up to the offset
/// or `MAX_OFFSET`, each bound to its own value whatever the other is; a
/// given status, type or priority restricts the rows to it.
pub proof fn lemma_listing_filters_restrict(f: IssueFilter)
    ensures
        ({
            let p = list_issues_pieces(f);
            &&& f.limit matches Some(l) ==> has_condition(
                p,
                " LIMIT "@,
                nat_to_decimal(capped(l, MAX_LIMIT)),
            )
            &&& f.offset matches Some(o) ==> has_condition(
                p,
                " OFFSET "@,
                nat_to_decimal(capped(o, MAX_OFFSET)),
            )
            &&& f.status matches Some(x) ==> has_condition(p, " AND i.status = "@, x@)
            &&& f.issue_type matches Some(x) ==> has_condition(p, " AND i.issue_type = "@, x@)
            &&& f.priority matches Some(x) ==> has_condition(p, " AND i.priority = "@, x@)
        }),
{
    lemma_listing_limit(f);
    lemma_listing_equalities(f);
}

/// The bound values of two runs of pieces, one after the other.
pub proof fn lemma_bound_values_concat(a: Seq<Piece>, b: Seq<Piece>)
    ensures
        bound_values(a + b) == bound_values(a) + bound_values(b),
    decreases b.len(),
{
    if b.len() == 0 {
        assert(a + b =~= a);
        assert(bound_values(b) =~= Seq::<Seq<char>>::empty());
        assert(bound_values(a) + bound_values(b) =~= bound_values(a));
    } else {
        lemma_bound_values_concat(a, b.drop_last());
        assert((a + b).drop_last() =~= a + b.drop_last());
        assert((a + b).last() == b.last());
        assert(bound_values(a + b) =~= bound_values(a) + bound_values(b));
    }
}

/// The value a filter binds, when it is given.
pub open spec fn opt_value(v: Option<Seq<char>>) -> Seq<Seq<char>> {
    match v {
        Some(x) => seq![x],
        None => Seq::empty(),
    }
}

proof fn lemma_pair_values(text: Seq<char>, value: Seq<char>)
    ensures
        bound_values(seq![Piece::Text(text), Piece::Param(value)]) == seq![value],
{
    let s = seq![Piece::Text(text), Piece::Param(value)];
    let t = seq![Piece::Text(text)];
    assert(s.drop_last() =~= t);
    assert(t.drop_last() =~= Seq::<Piece>::empty());
    assert(bound_values(Seq::<Piece>::empty()) =~= Seq::<Seq<char>>::empty());
    assert(bound_values(t) =~= Seq::<Seq<char>>::empty());
    assert(s.last() == Piece::Param(value));
    assert(bound_values(s) =~= seq![value]);
}

proof fn lemma_text_values(t: Seq<Piece>)
    requires
        forall|i: int| 0 <= i < t.len() ==> (#[trigger] t[i]) is Text,
    ensures
        bound_values(t) == Seq::<Seq<char>>::empty(),
    decreases t.len(),
{
    if t.len() > 0 {
        let d = t.drop_last();
        assert forall|i: int| 0 <= i < d.len() implies (#[trigger] d[i]) is Text by {
            assert(d[i] == t[i]);
        }
        lemma_text_values(d);
        assert(t[t.len() - 1] is Text);
        assert(bound_values(t) =~= Seq::<Seq<char>>::empty());
    }
}

proof fn lemma_opt_str_values(prefix: Seq<char>, v: Option<&str>)
    ensures
        bound_values(opt_str_condition(prefix, v)) == opt_value(
            match v {
                Some(x) => Some(x@),
                None => None,
            },
        ),
{
    match v {
        Some(x) => lemma_pair_values(prefix, x@),
        None => {
            assert(bound_values(Seq::<Piece>::empty()) =~= Seq::<Seq<char>>::empty());
        },
    }
}

/// The bound values of an event listing are exactly the filters given, in
/// the order bead, earliest time, actor, type.
pub proof fn lemma_event_values_are_the_filters(
    issue_id: Option<&str>,
    since: Option<&str>,
    actor: Option<&str>,
    event_type: Option<&str>,
    limit: Option<usize>,
)
    ensures
        bound_values(list_events_pieces(issue_id, since, actor, event_type, limit)) == opt_value(
            match issue_id {
                Some(x) => Some(x@),
                None => None,
            },
        ) + opt_value(
            match since {
                Some(x) => Some(x@),
                None => None,
            },
        ) + opt_value(
            match actor {
                Some(x) => Some(x@),
                None => None,
            },
        ) + opt_value(
            match event_type {
                Some(x) => Some(x@),
                None => None,
            },
        ),
{
    let p0 = seq![Piece::Text(EVENT_SELECT@)];
    let c1 = opt_str_condition(" AND issue_id = "@, issue_id);
    let c2 = opt_str_condition(" AND created_at >= "@, since);
    let c3 = opt_str_condition(" AND actor = "@, actor);
    let c4 = opt_str_condition(" AND event_type = "@, event_type);
    let tail = seq![Piece::Text(" ORDER BY created_at ASC"@)] + match limit {
        Some(l) => seq![Piece::Text(" LIMIT "@), Piece::Text(nat_to_decimal(l as nat))],
        None => Seq::empty(),
    };
    assert(list_events_pieces(issue_id, since, actor, event_type, limit) == p0 + c1 + c2 + c3 + c4
        + tail);
    lemma_text_values(p0);
    lemma_text_values(tail);
    lemma_opt_str_values(" AND issue_id = "@, issue_id);
    lemma_opt_str_values(" AND created_at >= "@, since);
    lemma_opt_str_values(" AND actor = "@, actor);
    lemma_opt_str_values(" AND event_type = "@, event_type);
    lemma_bound_values_concat(p0, c1);
    lemma_bound_values_concat(p0 + c1, c2);
    lemma_bound_values_concat(p0 + c1 + c2, c3);
    lemma_bound_values_concat(p0 + c1 + c2 + c3, c4);
    lemma_bound_values_concat(p0 + c1 + c2 + c3 + c4, tail);
    assert(bound_values(list_events_pieces(issue_id, since, actor, event_type, limit)) =~= opt_value(
        match issue_id {
            Some(x) => Some(x@),
            None => None,
        },
    ) + opt_value(
        match since {
            Some(x) => Some(x@),
            None => None,
        },
    ) + opt_value(
        match actor {
            Some(x) => Some(x@),
            None => None,
        },
    ) + opt_value(
        match event_type {
            Some(x) => Some(x@),
            None => None,
        },
    ));
}

proof fn lemma_any_of_values(column: Seq<char>, values: Seq<Seq<char>>)
    ensures
        bound_values(any_of_conditions(column, values)) == values,
        bound_values(any_of_clause(column, values)) == values,
    decreases values.len(),
{
    if values.len() == 0 {
        assert(bound_values(Seq::<Piece>::empty()) =~= values);
    } else {
        lemma_any_of_values(column, values.drop_last());
        let prev = any_of_conditions(column, values.drop_last());
        let sep = if values.len() > 1 {
            seq![Piece::Text(" OR "@)]
        } else {
            Seq::<Piece>::empty()
        };
        lemma_text_values(sep);
        lemma_pair_values(column, values.last());
        lemma_bound_values_concat(prev, sep);
        lemma_bound_values_concat(prev + sep, seq![Piece::Text(column), Piece::Param(values.last())]);
        assert(values.drop_last().push(values.last()) =~= values);
        assert(bound_values(any_of_conditions(column, values)) =~= values);
        let open = seq![Piece::Text(" AND ("@)];
        let close = seq![Piece::Text(") "@)];
        lemma_text_values(open);
        lemma_text_values(close);
        lemma_bound_values_concat(open, any_of_conditions(column, values));
        lemma_bound_values_concat(open + any_of_conditions(column, values), close);
        assert(bound_values(any_of_clause(column, values)) =~= values);
    }
}

proof fn lemma_label_values(labels: Seq<Seq<char>>)
    ensures
        bound_values(all_labels_condition(labels)) == labels,
        bound_values(labels_clause(labels)) == labels,
    decreases labels.len(),
{
    if labels.len() == 0 {
        assert(bound_values(Seq::<Piece>::empty()) =~= labels);
    } else {
        lemma_label_values(labels.drop_last());
        let prev = all_labels_condition(labels.drop_last());
        let sep = if labels.len() > 1 {
            seq![Piece::Text(" AND "@)]
        } else {
            Seq::<Piece>::empty()
        };
        let j = (labels.len() - 1) as nat;
        let d = nat_to_decimal(j);
        let pre = seq![
            Piece::Text("EXISTS (SELECT 1 FROM bead_labels bl"@),
            Piece::Text(d),
            Piece::Text(" WHERE bl"@),
            Piece::Text(d),
            Piece::Text(".bead_id = i.id AND bl"@),
            Piece::Text(d),
        ];
        let post = seq![Piece::Text(")"@)];
        assert(label_condition(j, labels.last()) =~= pre + seq![
            Piece::Text(".label = "@),
            Piece::Param(labels.last()),
        ] + post);
        lemma_text_values(sep);
        lemma_text_values(pre);
        lemma_text_values(post);
        lemma_pair_values(".label = "@, labels.last());
        lemma_bound_values_concat(pre, seq![Piece::Text(".label = "@), Piece::Param(labels.last())]);
        lemma_bound_values_concat(pre + seq![Piece::Text(".label = "@), Piece::Param(labels.last())], post);
        lemma_bound_values_concat(prev, sep);
        lemma_bound_values_concat(prev + sep, label_condition(j, labels.last()));
        assert(labels.drop_last().push(labels.last()) =~= labels);
        assert(bound_values(all_labels_condition(labels)) =~= labels);
        let open = seq![Piece::Text(" AND ("@)];
        let close = seq![Piece::Text(") "@)];
        lemma_text_values(open);
        lemma_text_values(close);
        lemma_bound_values_concat(open, all_labels_condition(labels));
        lemma_bound_values_concat(open + all_labels_condition(labels), close);
        assert(bound_values(labels_clause(labels)) =~= labels);
    }
}

/// The values the text search binds: the pattern, once for the title and
/// once for the description.
pub open spec fn search_text_values(q: Option<&str>) -> Seq<Seq<char>> {
    match q {
        Some(t) => seq!["%"@ + t@ + "%"@, "%"@ + t@ + "%"@],
        None => Seq::empty(),
    }
}

proof fn lemma_search_text_values(q: Option<&str>)
    ensures
        bound_values(text_search_condition(q)) == search_text_values(q),
{
    if let Some(t) = q {
        let v = "%"@ + t@ + "%"@;
        let a = seq![Piece::Text(" AND (i.title LIKE "@), Piece::Param(v)];
        let b = seq![Piece::Text(" OR i.description LIKE "@), Piece::Param(v)];
        let c = seq![Piece::Text(")"@)];
        assert(text_search_condition(q) =~= a + b + c);
        lemma_pair_values(" AND (i.title LIKE "@, v);
        lemma_pair_values(" OR i.description LIKE "@, v);
        lemma_text_values(c);
        lemma_bound_values_concat(a, b);
        lemma_bound_values_concat(a + b, c);
        assert(bound_values(text_search_condition(q)) =~= search_text_values(q));
    } else {
        assert(bound_values(Seq::<Piece>::empty()) =~= Seq::<Seq<char>>::empty());
    }
}

proof fn lemma_priority_values(prefix: Seq<char>, n: Option<i32>)
    ensures
        bound_values(priority_condition(prefix, n)) == opt_value(
            match n {
                Some(k) => Some(int_to_decimal(k as int)),
                None => None,
            },
        ),
{
    match n {
        Some(k) => lemma_pair_values(prefix, int_to_decimal(k as int)),
        None => {
            assert(bound_values(Seq::<Piece>::empty()) =~= Seq::<Seq<char>>::empty());
        },
    }
}

/// The bound values of a search are exactly its filters, in the order text
/// (twice), statuses, types, assignee, labels, lowest and highest priority;
/// the limit is written into the text.
pub proof fn lemma_search_values_are_the_filters(
    query: Option<&str>,
    statuses: Seq<Seq<char>>,
    issue_types: Seq<Seq<char>>,
    assignee: Option<&str>,
    labels: Seq<Seq<char>>,
    priority_min: Option<i32>,
    priority_max: Option<i32>,
    limit: usize,
)
    ensures
        bound_values(
            search_issues_pieces(
                query,
                statuses,
                issue_types,
                assignee,
                labels,
                priority_min,
                priority_max,
                limit,
            ),
        ) == search_text_values(query) + statuses + issue_types + opt_value(
            match assignee {
                Some(a) => Some(a@),
                None => None,
            },
        ) + labels + opt_value(
            match priority_min {
                Some(k) => Some(int_to_decimal(k as int)),
                None => None,
            },
        ) + opt_value(
            match priority_max {
                Some(k) => Some(int_to_decimal(k as int)),
                None => None,
            },
        ),
{
    let h = seq![Piece::Text(ISSUE_SELECT@), Piece::Text(SEARCH_NOT_DELETED@)];
    let c0 = text_search_condition(query);
    let c1 = any_of_clause("i.status = "@, statuses);
    let c2 = any_of_clause("i.issue_type = "@, issue_types);
    let c3 = opt_str_condition(" AND i.assignee = "@, assignee);
    let c4 = labels_clause(labels);
    let c5 = priority_condition(" AND i.priority >= "@, priority_min);
    let c6 = priority_condition(" AND i.priority <= "@, priority_max);
    let tail = seq![
        Piece::Text(" GROUP BY i.id"@),
        Piece::Text(" ORDER BY i.priority ASC, i.created_at ASC"@),
    ] + (if limit > 0 {
        seq![Piece::Text(" LIMIT "@), Piece::Text(nat_to_decimal(limit as nat))]
    } else {
        Seq::empty()
    });
    let p = search_issues_pieces(
        query,
        statuses,
        issue_types,
        assignee,
        labels,
        priority_min,
        priority_max,
        limit,
    );
    assert(p == h + c0 + c1 + c2 + c3 + c4 + c5 + c6 + tail);
    lemma_text_values(h);
    assert forall|i: int| 0 <= i < tail.len() implies (#[trigger] tail[i]) is Text by {
    }
    lemma_text_values(tail);
    lemma_search_text_values(query);
    lemma_any_of_values("i.status = "@, statuses);
    lemma_any_of_values("i.issue_type = "@, issue_types);
    lemma_opt_str_values(" AND i.assignee = "@, assignee);
    lemma_label_values(labels);
    lemma_priority_values(" AND i.priority >= "@, priority_min);
    lemma_priority_values(" AND i.priority <= "@, priority_max);
    lemma_bound_values_concat(h, c0);
    lemma_bound_values_concat(h + c0, c1);
    lemma_bound_values_concat(h + c0 + c1, c2);
    lemma_bound_values_concat(h + c0 + c1 + c2, c3);
    lemma_bound_values_concat(h + c0 + c1 + c2 + c3, c4);
    lemma_bound_values_concat(h + c0 + c1 + c2 + c3 + c4, c5);
    lemma_bound_values_concat(h + c0 + c1 + c2 + c3 + c4 + c5, c6);
    lemma_bound_values_concat(h + c0 + c1 + c2 + c3 + c4 + c5 + c6, tail);
    assert(bound_values(h) =~= Seq::<Seq<char>>::empty());
    assert(bound_values(p) =~= search_text_values(query) + statuses + issue_types + opt_value(
        match assignee {
            Some(a) => Some(a@),
            None => None,
        },
    ) + labels + opt_value(
        match priority_min {
            Some(k) => Some(int_to_decimal(k as int)),
            None => None,
        },
    ) + opt_value(
        match priority_max {
            Some(k) => Some(int_to_decimal(k as int)),
            None => None,
        },
    ));
}

/// The value a given text filter binds.
pub open spec fn opt_text_value(v: Option<String>) -> Seq<Seq<char>> {
    match v {
        Some(x) => seq![x@],
        None => Seq::empty(),
    }
}

/// The value the assignee filter binds: the assignee, unless it is empty
/// (which selects the unassigned issues and binds nothing).
pub open spec fn assignee_value(a: Option<String>) -> Seq<Seq<char>> {
    match a {
        Some(x) => if x@.len() == 0 {
            Seq::empty()
        } else {
            seq![x@]
        },
        None => Seq::empty(),
    }
}

/// The values the annotation filter binds: its key, then its value.
pub open spec fn annotation_values(kv: Option<(String, String)>) -> Seq<Seq<char>> {
    match kv {
        Some(p) => seq![p.0@, p.1@],
        None => Seq::empty(),
    }
}

/// The value a limit or an offset binds: the decimal text of the number
/// capped at `cap`.
pub open spec fn capped_value(n: Option<usize>, cap: usize) -> Seq<Seq<char>> {
    match n {
        Some(k) => seq![nat_to_decimal(capped(k, cap))],
        None => Seq::empty(),
    }
}

proof fn lemma_listing_condition_values(f: IssueFilter)
    ensures
        bound_values(opt_condition(" AND i.status = "@, f.status)) == opt_text_value(f.status),
        bound_values(opt_condition(" AND i.issue_type = "@, f.issue_type)) == opt_text_value(
            f.issue_type,
        ),
        bound_values(opt_condition(" AND i.priority = "@, f.priority)) == opt_text_value(f.priority),
        bound_values(opt_condition(" AND i.updated_at >= "@, f.updated_since)) == opt_text_value(
            f.updated_since,
        ),
        bound_values(opt_condition(" AND i.updated_at < "@, f.updated_before)) == opt_text_value(
            f.updated_before,
        ),
        bound_values(assignee_condition(f.assignee)) == assignee_value(f.assignee),
        bound_values(annotation_condition(f.annotation)) == annotation_values(f.annotation),
        bound_values(capped_condition(" LIMIT "@, f.limit, MAX_LIMIT)) == capped_value(
            f.limit,
            MAX_LIMIT,
        ),
        bound_values(capped_condition(" OFFSET "@, f.offset, MAX_OFFSET)) == capped_value(
            f.offset,
            MAX_OFFSET,
        ),
{
    assert(bound_values(Seq::<Piece>::empty()) =~= Seq::<Seq<char>>::empty());
    if let Some(x) = f.status {
        lemma_pair_values(" AND i.status = "@, x@);
    }
    if let Some(x) = f.issue_type {
        lemma_pair_values(" AND i.issue_type = "@, x@);
    }
    if let Some(x) = f.priority {
        lemma_pair_values(" AND i.priority = "@, x@);
    }
    if let Some(x) = f.updated_since {
        lemma_pair_values(" AND i.updated_at >= "@, x@);
    }
    if let Some(x) = f.updated_before {
        lemma_pair_values(" AND i.updated_at < "@, x@);
    }
    if let Some(a) = f.assignee {
        if a@.len() == 0 {
            lemma_text_values(seq![Piece::Text(" AND (i.assignee IS NULL OR i.assignee = '')"@)]);
        } else {
            lemma_pair_values(" AND i.assignee = "@, a@);
        }
    }
    if let Some(kv) = f.annotation {
        let a = seq![Piece::Text(" AND a.key = "@), Piece::Param(kv.0@)];
        let b = seq![Piece::Text(" AND a.value = "@), Piece::Param(kv.1@)];
        assert(annotation_condition(f.annotation) =~= a + b);
        lemma_pair_values(" AND a.key = "@, kv.0@);
        lemma_pair_values(" AND a.value = "@, kv.1@);
        lemma_bound_values_concat(a, b);
        assert(bound_values(a + b) =~= annotation_values(f.annotation));
    }
    if let Some(l) = f.limit {
        lemma_pair_values(" LIMIT "@, nat_to_decimal(capped(l, MAX_LIMIT)));
    }
    if let Some(o) = f.offset {
        lemma_pair_values(" OFFSET "@, nat_to_decimal(capped(o, MAX_OFFSET)));
    }
}

/// The bound values of a listing are exactly its filters, in the order
/// status, type, assignee (unless empty), priority, annotation key and
/// value, labels, updated since, updated before, limit, offset; the limit
/// and offset capped at `MAX_LIMIT` and `MAX_OFFSET`.
pub proof fn lemma_listing_values_are_the_filters(f: IssueFilter)
    ensures
        bound_values(list_issues_pieces(f)) == opt_text_value(f.status) + opt_text_value(f.issue_type)
            + assignee_value(f.assignee) + opt_text_value(f.priority) + annotation_values(f.annotation)
            + opt_labels(f.labels) + opt_text_value(f.updated_since) + opt_text_value(f.updated_before)
            + capped_value(f.limit, MAX_LIMIT) + capped_value(f.offset, MAX_OFFSET),
{
    let j = if f.annotation is Some {
        seq![Piece::Text(" LEFT JOIN bead_annotations a ON i.id = a.bead_id"@)]
    } else {
        Seq::<Piece>::empty()
    };
    let h = seq![Piece::Text(ISSUE_SELECT@)] + j + seq![Piece::Text(" WHERE i.deleted_at IS NULL"@)];
    let c1 = opt_condition(" AND i.status = "@, f.status);
    let c2 = opt_condition(" AND i.issue_type = "@, f.issue_type);
    let c3 = assignee_condition(f.assignee);
    let c4 = opt_condition(" AND i.priority = "@, f.priority);
    let c5 = annotation_condition(f.annotation);
    let c6 = labels_clause(opt_labels(f.labels));
    let c7 = opt_condition(" AND i.updated_at >= "@, f.updated_since);
    let c8 = opt_condition(" AND i.updated_at < "@, f.updated_before);
    let g = seq![Piece::Text(" GROUP BY i.id"@), Piece::Text(" ORDER BY i.updated_at DESC, i.id ASC"@)];
    let c9 = capped_condition(" LIMIT "@, f.limit, MAX_LIMIT);
    let c10 = capped_condition(" OFFSET "@, f.offset, MAX_OFFSET);
    let p = list_issues_pieces(f);
    assert(p == h + c1 + c2 + c3 + c4 + c5 + c6 + c7 + c8 + g + c9 + c10);
    assert forall|i: int| 0 <= i < h.len() implies (#[trigger] h[i]) is Text by {
    }
    lemma_text_values(h);
    lemma_text_values(g);
    lemma_listing_condition_values(f);
    lemma_label_values(opt_labels(f.labels));
    lemma_bound_values_concat(h, c1);
    lemma_bound_values_concat(h + c1, c2);
    lemma_bound_values_concat(h + c1 + c2, c3);
    lemma_bound_values_concat(h + c1 + c2 + c3, c4);
    lemma_bound_values_concat(h + c1 + c2 + c3 + c4, c5);
    lemma_bound_values_concat(h + c1 + c2 + c3 + c4 + c5, c6);
    lemma_bound_values_concat(h + c1 + c2 + c3 + c4 + c5 + c6, c7);
    lemma_bound_values_concat(h + c1 + c2 + c3 + c4 + c5 + c6 + c7, c8);
    lemma_bound_values_concat(h + c1 + c2 + c3 + c4 + c5 + c6 + c7 + c8, g);
    lemma_bound_values_concat(h + c1 + c2 + c3 + c4 + c5 + c6 + c7 + c8 + g, c9);
    lemma_bound_values_concat(h + c1 + c2 + c3 + c4 + c5 + c6 + c7 + c8 + g + c9, c10);
    assert(bound_values(p) =~= opt_text_value(f.status) + opt_text_value(f.issue_type)
        + assignee_value(f.assignee) + opt_text_value(f.priority) + annotation_values(f.annotation)
        + opt_labels(f.labels) + opt_text_value(f.updated_since) + opt_text_value(f.updated_before)
        + capped_value(f.limit, MAX_LIMIT) + capped_value(f.offset, MAX_OFFSET));
}

/// Whether the text `text` is followed directly by the text `value` (a
/// number written into the query).
pub open spec fn has_text_pair(pieces: Seq<Piece>, text: Seq<char>, value: Seq<char>) -> bool {
    exists|i: int|
        0 <= i && i + 1 < pieces.len() && #[trigger] pieces[i] == Piece::Text(text) && pieces[i + 1]
            == Piece::Text(value)
}

proof fn lemma_condition_within(a: Seq<Piece>, b: Seq<Piece>, c: Seq<Piece>, text: Seq<char>, value: Seq<char>)
    requires
        has_condition(b, text, value),
    ensures
        has_condition(a + b + c, text, value),
{
    let i = choose|i: int|
        0 <= i && i + 1 < b.len() && #[trigger] b[i] == Piece::Text(text) && b[i + 1] == Piece::Param(
            value,
        );
    let s = a + b + c;
    assert(s[a.len() as int + i] == Piece::Text(text));
    assert(s[a.len() as int + i + 1] == Piece::Param(value));
}

proof fn lemma_any_of_conditions_each(column: Seq<char>, values: Seq<Seq<char>>, k: int)
    requires
        0 <= k < values.len(),
    ensures
        has_condition(any_of_conditions(column, values), column, values[k]),
        has_condition(any_of_clause(column, values), column, values[k]),
    decreases values.len(),
{
    let prev = any_of_conditions(column, values.drop_last());
    let sep = if values.len() > 1 {
        seq![Piece::Text(" OR "@)]
    } else {
        Seq::<Piece>::empty()
    };
    let last = seq![Piece::Text(column), Piece::Param(values.last())];
    assert(any_of_conditions(column, values) == prev + sep + last);
    if k == values.len() - 1 {
        lemma_condition_between(prev + sep, column, values.last(), Seq::<Piece>::empty());
        assert(prev + sep + last + Seq::<Piece>::empty() =~= prev + sep + last);
    } else {
        lemma_any_of_conditions_each(column, values.drop_last(), k);
        lemma_condition_within(Seq::<Piece>::empty(), prev, sep + last, column, values[k]);
        assert(Seq::<Piece>::empty() + prev + (sep + last) =~= prev + sep + last);
    }
    let open = seq![Piece::Text(" AND ("@)];
    let close = seq![Piece::Text(") "@)];
    lemma_condition_within(open, any_of_conditions(column, values), close, column, values[k]);
}

proof fn lemma_labels_each(labels: Seq<Seq<char>>, k: int)
    requires
        0 <= k < labels.len(),
    ensures
        has_condition(all_labels_condition(labels), ".label = "@, labels[k]),
        has_condition(labels_clause(labels), ".label = "@, labels[k]),
    decreases labels.len(),
{
    let prev = all_labels_condition(labels.drop_last());
    let sep = if labels.len() > 1 {
        seq![Piece::Text(" AND "@)]
    } else {
        Seq::<Piece>::empty()
    };
    let j = (labels.len() - 1) as nat;
    let last = label_condition(j, labels.last());
    assert(all_labels_condition(labels) == prev + sep + last);
    if k == labels.len() - 1 {
        let d = nat_to_decimal(j);
        let pre = seq![
            Piece::Text("EXISTS (SELECT 1 FROM bead_labels bl"@),
            Piece::Text(d),
            Piece::Text(" WHERE bl"@),
            Piece::Text(d),
            Piece::Text(".bead_id = i.id AND bl"@),
            Piece::Text(d),
        ];
        let post = seq![Piece::Text(")"@)];
        assert(last =~= pre + seq![Piece::Text(".label = "@), Piece::Param(labels.last())] + post);
        lemma_condition_between(pre, ".label = "@, labels.last(), post);
        lemma_condition_within(prev + sep, last, Seq::<Piece>::empty(), ".label = "@, labels[k]);
        assert(prev + sep + last + Seq::<Piece>::empty() =~= prev + sep + last);
    } else {
        lemma_labels_each(labels.drop_last(), k);
        lemma_condition_within(Seq::<Piece>::empty(), prev, sep + last, ".label = "@, labels[k]);
        assert(Seq::<Piece>::empty() + prev + (sep + last) =~= prev + sep + last);
    }
    let open = seq![Piece::Text(" AND ("@)];
    let close = seq![Piece::Text(") "@)];
    lemma_condition_within(open, all_labels_condition(labels), close, ".label = "@, labels[k]);
}

/// The search's pieces before its text condition.
pub open spec fn search_head() -> Seq<Piece> {
    seq![Piece::Text(ISSUE_SELECT@), Piece::Text(SEARCH_NOT_DELETED@)]
}

/// The search's closing pieces: its order and its limit.
pub open spec fn search_tail(limit: usize) -> Seq<Piece> {
    seq![
        Piece::Text(" GROUP BY i.id"@),
        Piece::Text(" ORDER BY i.priority ASC, i.created_at ASC"@),
    ] + (if limit > 0 {
        seq![Piece::Text(" LIMIT "@), Piece::Text(nat_to_decimal(limit as nat))]
    } else {
        Seq::empty()
    })
}

proof fn lemma_search_shape(
    query: Option<&str>,
    statuses: Seq<Seq<char>>,
    issue_types: Seq<Seq<char>>,
    assignee: Option<&str>,
    labels: Seq<Seq<char>>,
    priority_min: Option<i32>,
    priority_max: Option<i32>,
    limit: usize,
)
    ensures
        search_issues_pieces(query, statuses, issue_types, assignee, labels, priority_min, priority_max, limit) == search_head() + text_search_condition(query) + any_of_clause("i.status = "@, statuses)
            + any_of_clause("i.issue_type = "@, issue_types) + opt_str_condition(" AND i.assignee = "@, assignee)
            + labels_clause(labels) + priority_condition(" AND i.priority >= "@, priority_min)
            + priority_condition(" AND i.priority <= "@, priority_max) + search_tail(limit),
{
    assert(search_issues_pieces(query, statuses, issue_types, assignee, labels, priority_min, priority_max, limit) =~= search_head() + text_search_condition(query) + any_of_clause("i.status = "@, statuses)
            + any_of_clause("i.issue_type = "@, issue_types) + opt_str_condition(" AND i.assignee = "@, assignee)
            + labels_clause(labels) + priority_condition(" AND i.priority >= "@, priority_min)
            + priority_condition(" AND i.priority <= "@, priority_max) + search_tail(limit));
}

proof fn lemma_search_text(
    query: Option<&str>,
    statuses: Seq<Seq<char>>,
    issue_types: Seq<Seq<char>>,
    assignee: Option<&str>,
    labels: Seq<Seq<char>>,
    priority_min: Option<i32>,
    priority_max: Option<i32>,
    limit: usize,
)
    ensures
        query matches Some(t) ==> has_condition(search_issues_pieces(query, statuses, issue_types, assignee, labels, priority_min, priority_max, limit), " AND (i.title LIKE "@, "%"@ + t@ + "%"@)
            && has_condition(search_issues_pieces(query, statuses, issue_types, assignee, labels, priority_min, priority_max, limit), " OR i.description LIKE "@, "%"@ + t@ + "%"@),
{
    if let Some(t) = query {
        lemma_search_shape(query, statuses, issue_types, assignee, labels, priority_min, priority_max, limit);
        let v = "%"@ + t@ + "%"@;
        let h = search_head();
        let c0 = text_search_condition(query);
        let rest = any_of_clause("i.status = "@, statuses)
            + any_of_clause("i.issue_type = "@, issue_types) + opt_str_condition(" AND i.assignee = "@, assignee)
            + labels_clause(labels) + priority_condition(" AND i.priority >= "@, priority_min)
            + priority_condition(" AND i.priority <= "@, priority_max) + search_tail(limit);
        let p = search_issues_pieces(query, statuses, issue_types, assignee, labels, priority_min, priority_max, limit);
        assert(p =~= h + c0 + rest);
        assert(p[h.len() as int] == Piece::Text(" AND (i.title LIKE "@));
        assert(p[h.len() as int + 1] == Piece::Param(v));
        assert(p[h.len() as int + 2] == Piece::Text(" OR i.description LIKE "@));
        assert(p[h.len() as int + 3] == Piece::Param(v));
    }
}

proof fn lemma_search_statuses(
    query: Option<&str>,
    statuses: Seq<Seq<char>>,
    issue_types: Seq<Seq<char>>,
    assignee: Option<&str>,
    labels: Seq<Seq<char>>,
    priority_min: Option<i32>,
    priority_max: Option<i32>,
    limit: usize,
    k: int,
)
    requires
        0 <= k < statuses.len(),
    ensures
        has_condition(search_issues_pieces(query, statuses, issue_types, assignee, labels, priority_min, priority_max, limit), "i.status = "@, statuses[k]),
{
    lemma_search_shape(query, statuses, issue_types, assignee, labels, priority_min, priority_max, limit);
    let a = search_head() + text_search_condition(query);
    let b = any_of_clause("i.status = "@, statuses);
    let c = any_of_clause("i.issue_type = "@, issue_types) + opt_str_condition(" AND i.assignee = "@, assignee)
        + labels_clause(labels) + priority_condition(" AND i.priority >= "@, priority_min)
        + priority_condition(" AND i.priority <= "@, priority_max) + search_tail(limit);
    assert(search_issues_pieces(query, statuses, issue_types, assignee, labels, priority_min, priority_max, limit) =~= a + b + c);
    lemma_any_of_conditions_each("i.status = "@, statuses, k);
    lemma_condition_within(a, b, c, "i.status = "@, statuses[k]);
}

proof fn lemma_search_types(
    query: Option<&str>,
    statuses: Seq<Seq<char>>,
    issue_types: Seq<Seq<char>>,
    assignee: Option<&str>,
    labels: Seq<Seq<char>>,
    priority_min: Option<i32>,
    priority_max: Option<i32>,
    limit: usize,
    k: int,
)
    requires
        0 <= k < issue_types.len(),
    ensures
        has_condition(search_issues_pieces(query, statuses, issue_types, assignee, labels, priority_min, priority_max, limit), "i.issue_type = "@, issue_types[k]),
{
    lemma_search_shape(query, statuses, issue_types, assignee, labels, priority_min, priority_max, limit);
    let a = search_head() + text_search_condition(query) + any_of_clause("i.status = "@, statuses);
    let b = any_of_clause("i.issue_type = "@, issue_types);
    let c = opt_str_condition(" AND i.assignee = "@, assignee)
        + labels_clause(labels) + priority_condition(" AND i.priority >= "@, priority_min)
        + priority_condition(" AND i.priority <= "@, priority_max) + search_tail(limit);
    assert(search_issues_pieces(query, statuses, issue_types, assignee, labels, priority_min, priority_max, limit) =~= a + b + c);
    lemma_any_of_conditions_each("i.issue_type = "@, issue_types, k);
    lemma_condition_within(a, b, c, "i.issue_type = "@, issue_types[k]);
}

proof fn lemma_search_labels(
    query: Option<&str>,
    statuses: Seq<Seq<char>>,
    issue_types: Seq<Seq<char>>,
    assignee: Option<&str>,
    labels: Seq<Seq<char>>,
    priority_min: Option<i32>,
    priority_max: Option<i32>,
    limit: usize,
    k: int,
)
    requires
        0 <= k < labels.len(),
    ensures
        has_condition(search_issues_pieces(query, statuses, issue_types, assignee, labels, priority_min, priority_max, limit), ".label = "@, labels[k]),
{
    lemma_search_shape(query, statuses, issue_types, assignee, labels, priority_min, priority_max, limit);
    let a = search_head() + text_search_condition(query) + any_of_clause("i.status = "@, statuses)
        + any_of_clause("i.issue_type = "@, issue_types) + opt_str_condition(" AND i.assignee = "@, assignee);
    let b = labels_clause(labels);
    let c = priority_condition(" AND i.priority >= "@, priority_min)
        + priority_condition(" AND i.priority <= "@, priority_max) + search_tail(limit);
    assert(search_issues_pieces(query, statuses, issue_types, assignee, labels, priority_min, priority_max, limit) =~= a + b + c);
    lemma_labels_each(labels, k);
    lemma_condition_within(a, b, c, ".label = "@, labels[k]);
}

proof fn lemma_search_limit(
    query: Option<&str>,
    statuses: Seq<Seq<char>>,
    issue_types: Seq<Seq<char>>,
    assignee: Option<&str>,
    labels: Seq<Seq<char>>,
    priority_min: Option<i32>,
    priority_max: Option<i32>,
    limit: usize,
)
    ensures
        limit > 0 ==> has_text_pair(search_issues_pieces(query, statuses, issue_types, assignee, labels, priority_min, priority_max, limit), " LIMIT "@, nat_to_decimal(limit as nat)),
{
    if limit > 0 {
        lemma_search_shape(query, statuses, issue_types, assignee, labels, priority_min, priority_max, limit);
        let a = search_head() + text_search_condition(query) + any_of_clause("i.status = "@, statuses)
            + any_of_clause("i.issue_type = "@, issue_types) + opt_str_condition(" AND i.assignee = "@, assignee)
            + labels_clause(labels) + priority_condition(" AND i.priority >= "@, priority_min)
            + priority_condition(" AND i.priority <= "@, priority_max) + seq![
            Piece::Text(" GROUP BY i.id"@),
            Piece::Text(" ORDER BY i.priority ASC, i.created_at ASC"@),
        ];
        let p = search_issues_pieces(query, statuses, issue_types, assignee, labels, priority_min, priority_max, limit);
        assert(p =~= a + seq![Piece::Text(" LIMIT "@), Piece::Text(nat_to_decimal(limit as nat))]);
        assert(p[a.len() as int] == Piece::Text(" LIMIT "@));
        assert(p[a.len() as int + 1] == Piece::Text(nat_to_decimal(limit as nat)));
    }
}

/// Searching: a given text is looked for in the title and in the
/// description; every status and type given is one the results may have;
/// every label given is one the results must carry; a limit other than 0
/// caps the rows at it.
pub proof fn lemma_search_matches_its_filters(
    query: Option<&str>,
    statuses: Seq<Seq<char>>,
    issue_types: Seq<Seq<char>>,
    assignee: Option<&str>,
    labels: Seq<Seq<char>>,
    priority_min: Option<i32>,
    priority_max: Option<i32>,
    limit: usize,
)
    ensures
        ({
            let p = search_issues_pieces(query, statuses, issue_types, assignee, labels, priority_min, priority_max, limit);
            &&& query matches Some(t) ==> has_condition(p, " AND (i.title LIKE "@, "%"@ + t@ + "%"@)
                && has_condition(p, " OR i.description LIKE "@, "%"@ + t@ + "%"@)
            &&& forall|k: int| 0 <= k < statuses.len() ==> has_condition(p, "i.status = "@, #[trigger] statuses[k])
            &&& forall|k: int| 0 <= k < issue_types.len() ==> has_condition(p, "i.issue_type = "@, #[trigger] issue_types[k])
            &&& forall|k: int| 0 <= k < labels.len() ==> has_condition(p, ".label = "@, #[trigger] labels[k])
            &&& limit > 0 ==> has_text_pair(p, " LIMIT "@, nat_to_decimal(limit as nat))
        }),
{
    lemma_search_text(query, statuses, issue_types, assignee, labels, priority_min, priority_max, limit);
    lemma_search_limit(query, statuses, issue_types, assignee, labels, priority_min, priority_max, limit);
    assert forall|k: int| 0 <= k < statuses.len() implies has_condition(search_issues_pieces(query, statuses, issue_types, assignee, labels, priority_min, priority_max, limit), "i.status = "@, #[trigger] statuses[k]) by {
        lemma_search_statuses(query, statuses, issue_types, assignee, labels, priority_min, priority_max, limit, k);
    }
    assert forall|k: int| 0 <= k < issue_types.len() implies has_condition(search_issues_pieces(query, statuses, issue_types, assignee, labels, priority_min, priority_max, limit), "i.issue_type = "@, #[trigger] issue_types[k]) by {
        lemma_search_types(query, statuses, issue_types, assignee, labels, priority_min, priority_max, limit, k);
    }
    assert forall|k: int| 0 <= k < labels.len() implies has_condition(search_issues_pieces(query, statuses, issue_types, assignee, labels, priority_min, priority_max, limit), ".label = "@, #[trigger] labels[k]) by {
        lemma_search_labels(query, statuses, issue_types, assignee, labels, priority_min, priority_max, limit, k);
    }
}

/// An event listing given a limit is capped at it.
pub proof fn lemma_event_limit(
    issue_id: Option<&str>,
    since: Option<&str>,
    actor: Option<&str>,
    event_type: Option<&str>,
    limit: Option<usize>,
)
    ensures
        limit matches Some(l) ==> has_text_pair(
            list_events_pieces(issue_id, since, actor, event_type, limit),
            " LIMIT "@,
            nat_to_decimal(l as nat),
        ),
{
    if let Some(l) = limit {
        let h = seq![Piece::Text(EVENT_SELECT@)] + opt_str_condition(" AND issue_id = "@, issue_id)
            + opt_str_condition(" AND created_at >= "@, since) + opt_str_condition(" AND actor = "@, actor)
            + opt_str_condition(" AND event_type = "@, event_type) + seq![Piece::Text(" ORDER BY created_at ASC"@)];
        let p = list_events_pieces(issue_id, since, actor, event_type, limit);
        assert(p =~= h + seq![Piece::Text(" LIMIT "@), Piece::Text(nat_to_decimal(l as nat))]);
        assert(p[h.len() as int] == Piece::Text(" LIMIT "@));
        assert(p[h.len() as int + 1] == Piece::Text(nat_to_decimal(l as nat)));
    }
}

} // verus!
