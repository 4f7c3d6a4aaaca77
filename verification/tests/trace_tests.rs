//! Trace names, trace paths and cargo test logs.

use sha2::{Digest, Sha256};
use bead_forge::trace::{
    base36_encode, cargo_test_log, outcome_for_exit_code, select_bead_trace_names,
    trace_name_from_digest, unique_trace_dir_name, CargoTestResult, TraceManager,
};

const DIGITS: &[u8] = b"0123456789abcdefghijklmnopqrstuvwxyz";

fn base36_of_u128(mut n: u128) -> String {
    if n == 0 {
        return "0".to_string();
    }
    let mut out = Vec::new();
    while n > 0 {
        out.push(DIGITS[(n % 36) as usize]);
        n /= 36;
    }
    out.reverse();
    String::from_utf8(out).unwrap()
}

#[test]
fn base36_encodes_the_first_sixteen_bytes() {
    assert_eq!(base36_encode(&[0u8; 16]), "0");
    let mut one = [0u8; 16];
    one[15] = 1;
    assert_eq!(base36_encode(&one), "1");
    one[15] = 35;
    assert_eq!(base36_encode(&one), "z");
    one[15] = 36;
    assert_eq!(base36_encode(&one), "10");
    assert_eq!(base36_encode(&[0xff; 16]), "f5lxx1zz5pnorynqglhzmsp33");
    assert_eq!(base36_encode(&[0xff; 16]), base36_of_u128(u128::MAX));
    let bytes: Vec<u8> = (1..=32).collect();
    let mut first = [0u8; 16];
    first.copy_from_slice(&bytes[..16]);
    assert_eq!(base36_encode(&bytes), base36_of_u128(u128::from_be_bytes(first)));
}

#[test]
fn base36_of_short_input_is_zero() {
    assert_eq!(base36_encode(&[]), "0");
    assert_eq!(base36_encode(&[9u8; 15]), "0");
}

#[test]
fn trace_name_takes_eight_base36_characters() {
    let digest = [0xffu8; 32];
    assert_eq!(trace_name_from_digest(&digest), "bf-f5lxx1zz");
    assert_eq!(trace_name_from_digest(&[0u8; 32]), "bf-0");
}

#[test]
fn test_generate_trace_name_format() {
    for _ in 0..10 {
        let trace_name = TraceManager::generate_trace_name();
        assert!(trace_name.starts_with("bf-"));
        assert_eq!(trace_name.len(), 11);
        assert!(trace_name[3..].chars().all(|c| c.is_ascii_alphanumeric()));
        assert!(trace_name[3..].chars().all(|c| c.is_ascii_lowercase() || c.is_ascii_digit()));
    }
}

#[test]
fn test_cargo_test_filename_format() {
    let filename = TraceManager::cargo_test_filename();
    assert!(filename.starts_with("cargo-test-"));
    assert!(filename.ends_with(".log"));
    assert!(filename.len() == "cargo-test-20260724-123456.log".len());
    assert_eq!(
        TraceManager::cargo_test_filename_at("20260724-123456"),
        "cargo-test-20260724-123456.log"
    );
}

#[test]
fn test_trace_path_for_name() {
    let manager = TraceManager::new("/work/repo");
    assert_eq!(manager.traces_dir(), "/work/repo/.beads/traces");
    let trace_path = manager.trace_path_for_name("bf-test123");
    assert_eq!(trace_path, "/work/repo/.beads/traces/bf-test123");
    assert!(trace_path.ends_with("bf-test123"));
    assert!(trace_path.starts_with(manager.traces_dir()));
}

#[test]
fn trace_paths_of_a_bead() {
    let manager = TraceManager::new("repo/");
    assert_eq!(manager.traces_dir(), "repo/.beads/traces");
    assert_eq!(manager.bead_trace_path("bf-1"), "repo/.beads/traces/bf-1");
    assert_eq!(manager.bead_metadata_path("bf-1"), "repo/.beads/traces/bf-1/metadata.json");
    assert_eq!(manager.bead_stdout_path("bf-1"), "repo/.beads/traces/bf-1/stdout.txt");
    assert_eq!(manager.bead_stderr_path("bf-1"), "repo/.beads/traces/bf-1/stderr.txt");
    assert_eq!(
        manager.cargo_test_latest_path(),
        "repo/.beads/traces/cargo-test-latest.log"
    );
    let p = manager.cargo_test_path();
    assert!(p.starts_with("repo/.beads/traces/cargo-test-"));
    assert!(p.ends_with(".log"));
    assert_eq!(
        manager.unique_bead_trace_path("bf-1", "20250101-120000", 0),
        "repo/.beads/traces/bf-1-20250101-120000"
    );
}

#[test]
fn trace_manager_at_relative_and_absolute_roots() {
    assert_eq!(TraceManager::new("").traces_dir(), ".beads/traces");
    let m = TraceManager::new("/");
    assert_eq!(m.traces_dir(), "/.beads/traces");
    assert_eq!(m.trace_path_for_name("/abs"), "/abs");
}

#[test]
fn unique_dir_names_pad_the_counter() {
    assert_eq!(unique_trace_dir_name("bf-x", "S", 0), "bf-x-S");
    assert_eq!(unique_trace_dir_name("bf-x", "S", 1), "bf-x-S-01");
    assert_eq!(unique_trace_dir_name("bf-x", "S", 9), "bf-x-S-09");
    assert_eq!(unique_trace_dir_name("bf-x", "S", 10), "bf-x-S-10");
    assert_eq!(unique_trace_dir_name("bf-x", "S", 123), "bf-x-S-123");
}

#[test]
fn bead_trace_names_are_filtered_and_sorted() {
    let names = vec![
        "needle-2".to_string(),
        "bf-b".to_string(),
        "cargo-test-latest.log".to_string(),
        "bf-a".to_string(),
        "bf".to_string(),
        "needle".to_string(),
        "bf-".to_string(),
    ];
    assert_eq!(
        select_bead_trace_names(&names),
        vec!["bf-".to_string(), "bf-a".to_string(), "bf-b".to_string(), "needle-2".to_string()]
    );
    assert!(select_bead_trace_names(&vec![]).is_empty());
}

#[test]
fn cargo_test_log_layout() {
    let log = cargo_test_log("out", "err", 101, "S", "E", 1500);
    assert_eq!(
        log,
        "=== STDOUT ===\nout\n=== STDERR ===\nerr\n=== EXIT CODE: 101 ===\n=== START TIME: S ===\n=== END TIME: E ===\n=== DURATION: 1500ms (1.50s) ===\n"
    );
    let log = cargo_test_log("", "", -1, "S", "E", 5);
    assert!(log.ends_with("=== DURATION: 5ms (0.01s) ===\n"));
    assert!(log.contains("=== EXIT CODE: -1 ===\n"));
}

#[test]
fn cargo_test_log_seconds_match_float_formatting() {
    for ms in [0u64, 1, 4, 5, 6, 15, 25, 35, 125, 999, 1005, 1015, 123_456_789, u64::MAX / 7] {
        let log = cargo_test_log("", "", 0, "", "", ms);
        let expected = format!("=== DURATION: {}ms ({:.2}s) ===\n", ms, ms as f64 / 1000.0);
        assert!(log.ends_with(&expected), "{}", ms);
    }
}

#[test]
fn outcome_of_exit_codes() {
    assert_eq!(outcome_for_exit_code(0), "success");
    assert_eq!(outcome_for_exit_code(1), "failure");
    assert_eq!(outcome_for_exit_code(-1), "failure");
}

#[test]
fn test_cargo_test_result_structure() {
    let result = CargoTestResult {
        exit_code: 0,
        start_time: Some("2025-01-01T12:00:00Z".to_string()),
        end_time: Some("2025-01-01T12:00:01.5Z".to_string()),
        duration_ms: 1500,
        trace_path: "/tmp/x/test.log".to_string(),
    };
    assert_eq!(result.exit_code, 0);
    assert_eq!(result.duration_ms, 1500);
    assert!(result.trace_path.ends_with("test.log"));
    assert_eq!(result.start_time, Some("2025-01-01T12:00:00Z".to_string()));
    assert_eq!(result.end_time, Some("2025-01-01T12:00:01.5Z".to_string()));
}

#[test]
fn trace_name_of_seed_hashes_the_seed() {
    for seed in [[0u8; 16], [7u8; 16], [0xffu8; 16]] {
        let digest = Sha256::digest(seed);
        let mut first = [0u8; 16];
        first.copy_from_slice(&digest[..16]);
        let encoded = base36_of_u128(u128::from_be_bytes(first));
        let expected = format!("bf-{}", encoded.chars().take(8).collect::<String>());
        assert_eq!(TraceManager::trace_name_of_seed(&seed), expected);
        assert_ne!(TraceManager::trace_name_of_seed(&seed), trace_name_from_digest(&seed));
    }
}
