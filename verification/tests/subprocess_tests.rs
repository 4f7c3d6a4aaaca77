//! Subprocess configuration and result handling.

use bead_forge::subprocess::{
    command_line, join_strings, lines_of, streamed_result, SubprocessConfig, SubprocessResult,
};

#[test]
fn test_subprocess_config_default() {
    let config = SubprocessConfig::default();
    assert!(config.working_dir.is_none());
    assert!(config.env.is_empty());
    assert!(config.timeout_seconds.is_none());
    assert!(config.capture_stdout);
    assert!(config.capture_stderr);
}

#[test]
fn test_subprocess_config_builder() {
    let config = SubprocessConfig::new()
        .working_dir("/tmp")
        .env("TEST_VAR", "test_value")
        .timeout(30)
        .capture_stdout(true)
        .capture_stderr(true);

    assert_eq!(config.working_dir, Some("/tmp".to_string()));
    assert_eq!(
        config.env,
        vec![("TEST_VAR".to_string(), "test_value".to_string())]
    );
    assert_eq!(config.timeout_seconds, Some(30));
    assert!(config.capture_stdout);
    assert!(config.capture_stderr);
}

#[test]
fn config_env_keeps_insertion_order_and_capture_can_be_disabled() {
    let config = SubprocessConfig::new()
        .env("A", "1")
        .env("B", "2")
        .capture_stdout(false)
        .capture_stderr(false);
    assert_eq!(
        config.env,
        vec![
            ("A".to_string(), "1".to_string()),
            ("B".to_string(), "2".to_string())
        ]
    );
    assert!(!config.capture_stdout);
    assert!(!config.capture_stderr);
    assert!(config.working_dir.is_none());
}

fn sample(config: &SubprocessConfig, code: Option<i32>, success: bool) -> SubprocessResult {
    let r = SubprocessResult::from_raw(
        "cargo",
        &vec!["test".to_string(), "--quiet".to_string()],
        config,
        code,
        "line one\r\nline two\n".to_string(),
        "warning: x\nerror: boom".to_string(),
        1234,
    );
    assert_eq!(r.success, success);
    r
}

#[test]
fn from_raw_keeps_captured_streams_only() {
    let all = sample(&SubprocessConfig::new(), Some(0), true);
    assert_eq!(all.exit_code, 0);
    assert_eq!(all.stdout, "line one\r\nline two\n");
    assert_eq!(all.stderr, "warning: x\nerror: boom");
    assert_eq!(all.command, "cargo");
    assert_eq!(all.args, vec!["test".to_string(), "--quiet".to_string()]);
    assert!(!all.timed_out);

    let none = sample(
        &SubprocessConfig::new().capture_stdout(false).capture_stderr(false),
        None,
        false,
    );
    assert_eq!(none.exit_code, -1);
    assert_eq!(none.stdout, "");
    assert_eq!(none.stderr, "");
}

#[test]
fn summary_and_success() {
    let ok = sample(&SubprocessConfig::new(), Some(0), true);
    assert!(ok.is_success());
    assert_eq!(ok.summary(), "Command 'cargo' SUCCESS (exit code: 0, duration: 1234ms)");
    let failed = sample(&SubprocessConfig::new(), Some(101), false);
    assert!(!failed.is_success());
    assert_eq!(
        failed.summary(),
        "Command 'cargo' FAILURE (exit code: 101, duration: 1234ms)"
    );
    let killed = sample(&SubprocessConfig::new(), None, false);
    assert_eq!(
        killed.summary(),
        "Command 'cargo' FAILURE (exit code: -1, duration: 1234ms)"
    );
}

#[test]
fn lines_follow_str_lines() {
    let r = sample(&SubprocessConfig::new(), Some(0), true);
    assert_eq!(r.stdout_lines(), vec!["line one", "line two"]);
    assert_eq!(r.stderr_lines(), vec!["warning: x", "error: boom"]);
    for text in ["", "\n", "a", "a\n\nb", "a\r\n", "\r", "x\ny\r\nz\n\n"] {
        let expected: Vec<&str> = text.lines().collect();
        assert_eq!(lines_of(text), expected, "{:?}", text);
    }
}

#[test]
fn contains_searches_streams() {
    let r = sample(&SubprocessConfig::new(), Some(0), true);
    assert!(r.stderr_contains("error: boom"));
    assert!(r.stderr_contains(""));
    assert!(!r.stderr_contains("panic"));
    assert!(r.stdout_contains("two"));
    assert!(!r.stdout_contains("three"));
}

#[test]
fn streamed_result_joins_lines() {
    let r = streamed_result(
        "echo",
        &vec!["hi".to_string()],
        Some(3),
        &vec!["a".to_string(), "b".to_string()],
        &vec![],
        7,
    );
    assert!(!r.success);
    assert_eq!(r.stdout, "a\nb");
    assert_eq!(r.stderr, "");
    assert_eq!(r.exit_code, 3);
    assert_eq!(r.duration_ms, 7);
    assert_eq!(command_line("cargo", &vec!["test".to_string(), "-q".to_string()]), "cargo test -q");
    assert_eq!(join_strings(&vec!["x".to_string()], ", "), "x");
}
