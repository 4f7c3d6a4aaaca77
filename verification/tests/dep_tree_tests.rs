//! The dependency tree query and cycle marking.

use bead_forge::dep_tree::{dep_tree_sql, mark_cycle, tree_node};

fn reference(direction: &str, max_depth: usize) -> String {
    let (anchor_join, recursive_join, id_col) = match direction {
        "up" => ("d.depends_on_id = ?1", "d.depends_on_id = rec.id", "d.issue_id"),
        _ => ("d.issue_id = ?1", "d.issue_id = rec.id", "d.depends_on_id"),
    };
    let depth_limit = if max_depth == 0 { String::new() } else { format!("AND rec.depth < {}", max_depth) };
    format!(
        "WITH RECURSIVE dep_tree AS (
                -- Anchor: direct dependencies/dependents of root
                SELECT
                    {id_col} as id,
                    i.title,
                    i.status,
                    i.priority,
                    0 as depth,
                    d.type as dep_type,
                    ?2 || ',' || {id_col} as path
                FROM dependencies d
                INNER JOIN issues i ON i.id = {id_col}
                WHERE {anchor_join}

                UNION ALL

                -- Recursive: dependencies of dependencies
                SELECT
                    {id_col} as id,
                    i.title,
                    i.status,
                    i.priority,
                    rec.depth + 1 as depth,
                    d.type as dep_type,
                    rec.path || ',' || {id_col} as path
                FROM dependencies d
                INNER JOIN issues i ON i.id = {id_col}
                INNER JOIN dep_tree rec ON {recursive_join}
                WHERE rec.path NOT LIKE '%' || {id_col} || '%'
                {depth_limit}
            )
            SELECT id, title, status, priority, depth, dep_type, path
            FROM dep_tree
            ORDER BY depth, id"
    )
}

#[test]
fn tree_query_by_direction_and_depth() {
    for dir in ["down", "up", "", "UP", "sideways"] {
        for depth in [0usize, 1, 3, 10, usize::MAX] {
            assert_eq!(dep_tree_sql(dir, depth), reference(dir, depth), "{} {}", dir, depth);
        }
    }
    assert!(dep_tree_sql("up", 2).contains("WHERE d.depends_on_id = ?1"));
    assert!(dep_tree_sql("down", 2).contains("AND rec.depth < 2\n"));
}

#[test]
fn cycle_marking_counts_occurrences_as_str_matches_does() {
    let cases = [
        ("bf-1,bf-2,bf-1", "bf-1"),
        ("bf-1,bf-2", "bf-2"),
        ("bf-1,bf-12", "bf-1"),
        ("aaaa", "aa"),
        ("aaa", "aa"),
        ("", ""),
        ("x", ""),
        ("é,é", "é"),
        ("bf-1", "bf-1,bf-1"),
    ];
    for (path, id) in cases {
        let expected = if path.matches(id).count() > 1 { format!("{} [CYCLE]", path) } else { path.to_string() };
        assert_eq!(mark_cycle(path, id), expected, "{:?} {:?}", path, id);
    }
    assert_eq!(mark_cycle("bf-1,bf-2,bf-1", "bf-1"), "bf-1,bf-2,bf-1 [CYCLE]");
    assert_eq!(mark_cycle("bf-1,bf-2", "bf-2"), "bf-1,bf-2");
}

#[test]
fn tree_nodes_keep_their_fields() {
    let n = tree_node(
        "bf-2".to_string(),
        "T".to_string(),
        "open".to_string(),
        2,
        1,
        Some("blocks".to_string()),
        "bf-1,bf-2".to_string(),
    );
    assert_eq!(n.id, "bf-2");
    assert_eq!(n.title, "T");
    assert_eq!(n.status, "open");
    assert_eq!(n.priority, 2);
    assert_eq!(n.depth, 1);
    assert_eq!(n.dep_type.as_deref(), Some("blocks"));
    assert_eq!(n.path, "bf-1,bf-2");
}
