//! The dependency tree of a bead: the recursive query that walks it, and
//! how a path that runs into a cycle is marked.

use vstd::prelude::*;
use crate::text::{nat_to_decimal, push_str_chars, push_u64_decimal, string_from_chars, to_owned_string};

verus! {

// The fixed text of the tree query, between the parts that depend on the
// direction and the depth limit.
pub const TREE_SQL_0: &'static str = "WITH RECURSIVE dep_tree AS (\n                -- Anchor: direct dependencies/dependents of root\n                SELECT\n                    ";
pub const TREE_SQL_1: &'static str = " as id,\n                    i.title,\n                    i.status,\n                    i.priority,\n                    0 as depth,\n                    d.type as dep_type,\n                    ?2 || ',' || ";
pub const TREE_SQL_2: &'static str = " as path\n                FROM dependencies d\n                INNER JOIN issues i ON i.id = ";
pub const TREE_SQL_3: &'static str = "\n                WHERE ";
pub const TREE_SQL_4: &'static str = "\n\n                UNION ALL\n\n                -- Recursive: dependencies of dependencies\n                SELECT\n                    ";
pub const TREE_SQL_5: &'static str = " as id,\n                    i.title,\n                    i.status,\n                    i.priority,\n                    rec.depth + 1 as depth,\n                    d.type as dep_type,\n                    rec.path || ',' || ";
pub const TREE_SQL_6: &'static str = " as path\n                FROM dependencies d\n                INNER JOIN issues i ON i.id = ";
pub const TREE_SQL_7: &'static str = "\n                INNER JOIN dep_tree rec ON ";
pub const TREE_SQL_8: &'static str = "\n                WHERE rec.path NOT LIKE '%' || ";
pub const TREE_SQL_9: &'static str = " || '%'\n                ";
pub const TREE_SQL_10: &'static str = "\n            )\n            SELECT id, title, status, priority, depth, dep_type, path\n            FROM dep_tree\n            ORDER BY depth, id";

/// The tree query with the given column of the related bead, the joins of
/// the first level and of the deeper ones, and the depth limit.
pub open spec fn tree_sql(
    id_col: Seq<char>,
    anchor_join: Seq<char>,
    recursive_join: Seq<char>,
    depth_limit: Seq<char>,
) -> Seq<char> {
    TREE_SQL_0@
        + id_col
        + TREE_SQL_1@
        + id_col
        + TREE_SQL_2@
        + id_col
        + TREE_SQL_3@
        + anchor_join
        + TREE_SQL_4@
        + id_col
        + TREE_SQL_5@
        + id_col
        + TREE_SQL_6@
        + id_col
        + TREE_SQL_7@
        + recursive_join
        + TREE_SQL_8@
        + id_col
        + TREE_SQL_9@
        + depth_limit
        + TREE_SQL_10@
}

/// The depth limit: none for 0, else the condition that the walk stops
/// before `max_depth` levels.
pub open spec fn depth_limit_spec(max_depth: nat) -> Seq<char> {
    if max_depth == 0 {
        Seq::empty()
    } else {
        "AND rec.depth < "@ + nat_to_decimal(max_depth)
    }
}

/// The query of the dependency tree of the bead bound to `?1` (and to `?2`,
/// which starts each path). Direction "up" walks the beads that depend on
/// it; any other direction walks the beads it depends on. A `max_depth` of 0
/// puts no limit on the depth. Rows come by depth, then id.
pub open spec fn dep_tree_sql_spec(direction: Seq<char>, max_depth: nat) -> Seq<char> {
    if direction == "up"@ {
        tree_sql(
            "d.issue_id"@,
            "d.depends_on_id = ?1"@,
            "d.depends_on_id = rec.id"@,
            depth_limit_spec(max_depth),
        )
    } else {
        tree_sql(
            "d.depends_on_id"@,
            "d.issue_id = ?1"@,
            "d.issue_id = rec.id"@,
            depth_limit_spec(max_depth),
        )
    }
}

fn depth_limit(max_depth: usize) -> (s: String)
    ensures
        s@ == depth_limit_spec(max_depth as nat),
{
    let mut v: Vec<char> = Vec::new();
    if max_depth != 0 {
        push_str_chars(&mut v, "AND rec.depth < ");
        push_u64_decimal(&mut v, max_depth as u64);
    }
    assert(v@ =~= depth_limit_spec(max_depth as nat));
    string_from_chars(v.as_slice())
}

/// The query with which `get_dep_tree` walks the dependency tree (see
/// [`dep_tree_sql_spec`]).
pub fn dep_tree_sql(direction: &str, max_depth: usize) -> (s: String)
    ensures
        s@ == dep_tree_sql_spec(direction@, max_depth as nat),
{
    let up = to_owned_string(direction) == to_owned_string("up");
    let (id_col, anchor_join, recursive_join) = if up {
        ("d.issue_id", "d.depends_on_id = ?1", "d.depends_on_id = rec.id")
    } else {
        ("d.depends_on_id", "d.issue_id = ?1", "d.issue_id = rec.id")
    };
    let depth_limit = depth_limit(max_depth);
    let mut v: Vec<char> = Vec::new();
    push_str_chars(&mut v, TREE_SQL_0);
    push_str_chars(&mut v, id_col);
    push_str_chars(&mut v, TREE_SQL_1);
    push_str_chars(&mut v, id_col);
    push_str_chars(&mut v, TREE_SQL_2);
    push_str_chars(&mut v, id_col);
    push_str_chars(&mut v, TREE_SQL_3);
    push_str_chars(&mut v, anchor_join);
    push_str_chars(&mut v, TREE_SQL_4);
    push_str_chars(&mut v, id_col);
    push_str_chars(&mut v, TREE_SQL_5);
    push_str_chars(&mut v, id_col);
    push_str_chars(&mut v, TREE_SQL_6);
    push_str_chars(&mut v, id_col);
    push_str_chars(&mut v, TREE_SQL_7);
    push_str_chars(&mut v, recursive_join);
    push_str_chars(&mut v, TREE_SQL_8);
    push_str_chars(&mut v, id_col);
    push_str_chars(&mut v, TREE_SQL_9);
    push_str_chars(&mut v, depth_limit.as_str());
    push_str_chars(&mut v, TREE_SQL_10);
    assert(v@ =~= tree_sql(id_col@, anchor_join@, recursive_join@, depth_limit@));
    string_from_chars(v.as_slice())
}


/// The number of non-overlapping occurrences of `p` in `s`, found from the
/// left; the empty pattern occurs before each character and at the end.
pub open spec fn match_count(s: Seq<char>, p: Seq<char>) -> nat
    decreases s.len(),
{
    if p.len() == 0 {
        s.len() + 1
    } else if s.len() < p.len() {
        0
    } else if s.take(p.len() as int) == p {
        1 + match_count(s.skip(p.len() as int), p)
    } else {
        match_count(s.skip(1), p)
    }
}

/// The path of a tree row as shown: marked with " [CYCLE]" when the row's
/// id occurs in it more than once.
pub open spec fn shown_path(path: Seq<char>, id: Seq<char>) -> Seq<char> {
    if match_count(path, id) > 1 {
        path + " [CYCLE]"@
    } else {
        path
    }
}

proof fn lemma_skip_skip(s: Seq<char>, i: int, k: int)
    requires
        0 <= i,
        0 <= k,
        i + k <= s.len(),
    ensures
        s.skip(i).skip(k) == s.skip(i + k),
{
    assert(s.skip(i).skip(k) =~= s.skip(i + k));
}

/// Whether `p` occurs in `s` at position `i`.
fn occurs_at_pos(s: &Vec<char>, p: &Vec<char>, i: usize) -> (b: bool)
    requires
        i + p@.len() <= s@.len(),
    ensures
        b == (s@.skip(i as int).take(p@.len() as int) == p@),
{
    let sl = s.len();
    let mut k: usize = 0;
    while k < p.len()
        invariant
            0 <= k <= p@.len(),
            i + p@.len() <= s@.len(),
            sl == s@.len(),
            forall|j: int| 0 <= j < k ==> s@[i + j] == p@[j],
        decreases p@.len() - k,
    {
        if s[i + k] != p[k] {
            assert(s@.skip(i as int).take(p@.len() as int)[k as int] != p@[k as int]);
            return false;
        }
        k = k + 1;
    }
    assert(s@.skip(i as int).take(p@.len() as int) =~= p@);
    true
}

/// The number of non-overlapping occurrences of `p` in `s` (see
/// [`match_count`]).
fn count_matches(s: &Vec<char>, p: &Vec<char>) -> (n: u64)
    requires
        s@.len() < u64::MAX,
    ensures
        n == match_count(s@, p@),
{
    if p.len() == 0 {
        return s.len() as u64 + 1;
    }
    let mut i: usize = 0;
    let mut n: u64 = 0;
    assert(s@.skip(0) =~= s@);
    while p.len() <= s.len() - i
        invariant
            0 <= i <= s@.len(),
            p@.len() > 0,
            s@.len() < u64::MAX,
            n <= i,
            n + match_count(s@.skip(i as int), p@) == match_count(s@, p@),
        decreases s@.len() - i,
    {
        let ghost rest = s@.skip(i as int);
        if occurs_at_pos(s, p, i) {
            proof {
                lemma_skip_skip(s@, i as int, p@.len() as int);
            }
            n = n + 1;
            i = i + p.len();
        } else {
            proof {
                lemma_skip_skip(s@, i as int, 1);
            }
            i = i + 1;
        }
    }
    n
}

/// The path of a tree row as shown (see [`shown_path`]).
pub fn mark_cycle(path: &str, id: &str) -> (s: String)
    requires
        path@.len() < u64::MAX,
    ensures
        s@ == shown_path(path@, id@),
{
    let pv = crate::text::chars_of(path);
    let iv = crate::text::chars_of(id);
    if count_matches(&pv, &iv) > 1 {
        let mut v = pv;
        push_str_chars(&mut v, " [CYCLE]");
        string_from_chars(v.as_slice())
    } else {
        to_owned_string(path)
    }
}


/// Dependency tree node with hierarchy information.
#[derive(Debug, Clone)]
pub struct DepTreeNode {
    pub id: String,
    pub title: String,
    pub status: String,
    pub priority: i32,
    pub depth: i64,
    pub dep_type: Option<String>,
    /// Comma-separated path of ids from the root, marked when it runs into
    /// a cycle.
    pub path: String,
}

/// Dependency display information with type, bead ID, and title.
#[derive(Debug, Clone)]
pub struct DependencyDisplay {
    pub dep_type: String,
    pub bead_id: String,
    pub title: String,
}

/// The tree node of one row of the tree query: the row's fields, with the
/// path marked when the row's id occurs in it more than once.
pub fn tree_node(
    id: String,
    title: String,
    status: String,
    priority: i32,
    depth: i64,
    dep_type: Option<String>,
    path: String,
) -> (n: DepTreeNode)
    requires
        path@.len() < u64::MAX,
    ensures
        n.id@ == id@,
        n.title@ == title@,
        n.status@ == status@,
        n.priority == priority,
        n.depth == depth,
        n.dep_type == dep_type,
        n.path@ == shown_path(path@, id@),
{
    let shown = mark_cycle(path.as_str(), id.as_str());
    DepTreeNode { id, title, status, priority, depth, dep_type, path: shown }
}

} // verus!
