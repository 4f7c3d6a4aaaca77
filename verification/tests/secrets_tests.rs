//! The refusal message for content that matches secret patterns.

use bead_forge::secrets::{format_secret_matches, SecretMatch};

fn m(pattern: &str, text: &str) -> SecretMatch {
    SecretMatch { pattern_name: pattern.to_string(), matched_text: text.to_string() }
}

const HEAD: &str = "secret detected in bead content. Refusing write.\n\nThe following patterns matched:\n";
const TAIL: &str = "\nIf this is a false positive, add an allowlist pattern to .beads/config.yaml:\n  secret_protection:\n    allowlist:\n      - \"<regex pattern to exclude>\"\n";

#[test]
fn matches_are_grouped_by_pattern_in_order_of_first_appearance() {
    let msg = format_secret_matches(&vec![
        m("aws_key", "AKIA1"),
        m("github_token", "ghp_x"),
        m("aws_key", "AKIA2"),
    ]);
    let body = "\n  [aws_key]\n    - AKIA1\n    - AKIA2\n\n  [github_token]\n    - ghp_x\n";
    assert_eq!(msg, format!("{}{}{}", HEAD, body, TAIL));
}

#[test]
fn no_matches_gives_head_and_tail() {
    assert_eq!(format_secret_matches(&vec![]), format!("{}{}", HEAD, TAIL));
}

#[test]
fn long_matches_are_truncated_to_57_bytes() {
    let long = "x".repeat(61);
    let exact = "y".repeat(60);
    let msg = format_secret_matches(&vec![m("p", &long), m("p", &exact)]);
    let body = format!("\n  [p]\n    - {}...\n    - {}\n", "x".repeat(57), exact);
    assert_eq!(msg, format!("{}{}{}", HEAD, body, TAIL));
}

#[test]
fn truncation_counts_bytes_not_characters() {
    let text = format!("{}{}", "é".repeat(28), "abcdef");
    assert_eq!(text.len(), 62);
    let msg = format_secret_matches(&vec![m("p", &text)]);
    assert!(msg.contains(&format!("    - {}a...\n", "é".repeat(28))));
}
