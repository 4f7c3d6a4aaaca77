//! Parsing test module lists.

use bead_forge::module_list::{parse_module_lines, ParseResult};

#[test]
fn test_parse_module_list() {
    let content = "1\tmodule_a\n2\tmodule_b\n\n3\tmodule_c\n  \n4\tmodule_d\n";
    let result = ParseResult::from_content("/tmp/test_modules.txt", content);
    assert_eq!(result.modules, vec!["module_a", "module_b", "module_c", "module_d"]);
    assert_eq!(result.source_path, "/tmp/test_modules.txt");
}

#[test]
fn test_file_not_found() {
    let result = ParseResult::missing("/nonexistent/path.txt");
    assert_eq!(result.modules.len(), 0);
    assert_eq!(result.source_path, "/nonexistent/path.txt");
}

#[test]
fn test_empty_file() {
    assert_eq!(parse_module_lines("").len(), 0);
}

#[test]
fn test_whitespace_only_lines() {
    assert_eq!(parse_module_lines("   \n\t\n  \t  \n").len(), 0);
}

#[test]
fn lines_without_a_tab_and_with_several_tabs() {
    assert_eq!(parse_module_lines("plain_module\r\n"), vec!["plain_module"]);
    assert_eq!(parse_module_lines("  7\t  spaced  \n"), vec!["spaced"]);
    assert_eq!(parse_module_lines("1\ta\tb\n"), vec!["a\tb"]);
    assert_eq!(parse_module_lines("1\t\n"), vec!["1"]);
    assert_eq!(parse_module_lines("1\t x\n"), vec!["x"]);
    assert_eq!(parse_module_lines("x\ny"), vec!["x", "y"]);
}

#[test]
fn parse_agrees_with_std_line_handling() {
    let content = "1\tmodule_a\r\n\n  3\tmodule_c  \n\t\n4\t mod d \nlast";
    let expected: Vec<String> = content
        .lines()
        .map(|l| l.trim())
        .filter(|l| !l.is_empty())
        .map(|l| match l.find('\t') {
            Some(p) => l.split_at(p + 1).1.trim().to_string(),
            None => l.to_string(),
        })
        .collect();
    assert_eq!(parse_module_lines(content), expected);
}
