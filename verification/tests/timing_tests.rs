//! Timer state, elapsed-time arithmetic and duration formatting.

use bead_forge::timing::{
    completion_record, elapsed_between, format_duration, generate_timer_id, timer_id_from,
    ExecutionTimer,
    TimerState,
};

#[test]
fn test_format_duration() {
    assert_eq!(format_duration(50), "50ms");
    assert_eq!(format_duration(999), "999ms");
    assert_eq!(format_duration(1000), "1.00s");
    assert_eq!(format_duration(1500), "1.50s");
    assert_eq!(format_duration(65_000), "65.0s (1m 5s)");
    assert_eq!(format_duration(3_700_000), "1h 1m (3700.0s)");
}

fn float_rendering(ms: u64) -> String {
    if ms < 1000 {
        format!("{}ms", ms)
    } else if ms < 60_000 {
        format!("{:.2}s", ms as f64 / 1000.0)
    } else if ms < 3_600_000 {
        let seconds = (ms / 1000) % 60;
        let minutes = ms / 60_000;
        format!("{:.1}s ({}m {}s)", ms as f64 / 1000.0, minutes, seconds)
    } else {
        let hours = ms / 3_600_000;
        let minutes = (ms / 60_000) % 60;
        format!("{}h {}m ({:.1}s)", hours, minutes, ms as f64 / 1000.0)
    }
}

#[test]
fn format_duration_matches_float_rendering_below_one_hour() {
    for ms in 0..3_700_000u64 {
        assert_eq!(format_duration(ms), float_rendering(ms), "ms = {}", ms);
    }
}

#[test]
fn format_duration_matches_float_rendering_on_large_values() {
    let mut x: u64 = 0x9e37_79b9_7f4a_7c15;
    for _ in 0..200_000 {
        x ^= x << 13;
        x ^= x >> 7;
        x ^= x << 17;
        let ms = x >> (x % 40);
        assert_eq!(format_duration(ms), float_rendering(ms), "ms = {}", ms);
    }
    for ms in [u64::MAX, 1u64 << 63, (1u64 << 53) + 1, (1u64 << 53) - 1, (1u64 << 54) + 3] {
        assert_eq!(format_duration(ms), float_rendering(ms), "ms = {}", ms);
    }
}

#[test]
fn format_duration_rounds_ties_to_even() {
    assert_eq!(format_duration(1125), "1.12s");
    assert_eq!(format_duration(1375), "1.38s");
}

#[test]
fn test_timer_state_creation() {
    let state = TimerState::new(
        "test-timer".to_string(),
        Some("Test description".to_string()),
        Some("bf-123".to_string()),
    );

    assert_eq!(state.id, "test-timer");
    assert_eq!(state.description, Some("Test description".to_string()));
    assert_eq!(state.bead_id, Some("bf-123".to_string()));
    assert!(state.running);
    assert_eq!(state.accumulated_ms, 0);
}

#[test]
fn test_timer_state_stop() {
    let mut state = TimerState::new("test-timer".to_string(), None, None);

    state.stop(5000);
    assert!(!state.running);
    assert_eq!(state.accumulated_ms, 5000);
}

#[test]
fn test_timer_state_add_accumulated() {
    let mut state = TimerState::new("test-timer".to_string(), None, None);

    state.add_accumulated(1000);
    assert_eq!(state.accumulated_ms, 1000);

    state.add_accumulated(500);
    assert_eq!(state.accumulated_ms, 1500);
}

#[test]
fn execution_timer_starts_running_with_metadata() {
    let timer = ExecutionTimer::start_with_metadata(
        "/tmp/timer.json",
        Some("Test operation".to_string()),
        Some("bf-456".to_string()),
    );
    assert!(timer.is_running());
    assert_eq!(timer.state().bead_id, Some("bf-456".to_string()));
    assert_eq!(timer.state().description, Some("Test operation".to_string()));
    assert!(timer.id().starts_with("timer-"));
    assert_eq!(timer.start_time(), timer.state().updated_at);
    assert_eq!(timer.state_path(), "/tmp/timer.json");
    assert!(timer.elapsed_ms().unwrap() < 60_000);
}

#[test]
fn execution_timer_elapsed_at_adds_accumulated_time() {
    let mut state = TimerState::new("t".to_string(), None, None);
    state.start_timestamp_ms = 1_000;
    state.accumulated_ms = 250;
    let timer = ExecutionTimer::resume(state, "p");
    assert_eq!(timer.elapsed_ms_at(1_500), Ok(750));
    assert_eq!(timer.elapsed_ms_at(500), Ok(250));
    assert!(timer.elapsed_ms_at(i64::MIN).is_err());
}

#[test]
fn execution_timer_stop_records_duration() {
    let timer = ExecutionTimer::start("t.json");
    let (d, state) = timer.stop().unwrap();
    assert!(!state.running);
    assert_eq!(state.accumulated_ms, d);
}

#[test]
fn elapsed_between_is_never_negative() {
    assert_eq!(elapsed_between(100, 350), 250);
    assert_eq!(elapsed_between(350, 100), 0);
}

#[test]
fn completion_record_computes_duration() {
    let r = completion_record(Some("s".to_string()), 1_000, "e".to_string(), 1_050, Some(0), "r".to_string());
    assert_eq!(r.duration_ms, 50);
    assert_eq!(r.exit_code, Some(0));
    assert_eq!(r.start_time, Some("s".to_string()));
}

#[test]
fn timer_id_has_hex_suffix() {
    assert_eq!(timer_id_from("20260101-000000-000", 0xab), "timer-20260101-000000-000-000000ab");
    assert_eq!(timer_id_from("x", u32::MAX), "timer-x-ffffffff");
}

#[test]
fn timer_ids_carry_the_millisecond_stamp() {
    let id = generate_timer_id();
    assert!(id.starts_with("timer-"));
    let rest = &id["timer-".len()..];
    let parts: Vec<&str> = rest.split('-').collect();
    assert_eq!(parts.len(), 4);
    assert_eq!(parts[0].len(), 8);
    assert_eq!(parts[1].len(), 6);
    assert_eq!(parts[2].len(), 3);
    assert_eq!(parts[3].len(), 8);
    assert!(rest.chars().all(|c| c == '-' || c.is_ascii_hexdigit()));
}

#[test]
fn a_started_timer_reads_its_start_from_one_instant() {
    let timer = ExecutionTimer::start("t.json");
    let start = chrono::DateTime::parse_from_rfc3339(timer.start_time()).unwrap();
    assert_eq!(start.timestamp_millis(), timer.state().start_timestamp_ms);
    let id = timer.id().to_string();
    let resumed = ExecutionTimer::resume(timer.state().clone(), "t.json");
    assert_eq!(resumed.id(), id);
}

#[test]
fn seconds_are_shown_as_std_shows_the_float() {
    assert_eq!(format_duration(1125), "1.12s");
    assert_eq!(format_duration(1005), format!("{:.2}s", 1005u64 as f64 / 1000.0));
    for ms in 1000u64..60_000 {
        assert_eq!(format_duration(ms), format!("{:.2}s", ms as f64 / 1000.0), "ms = {}", ms);
    }
    for ms in (60_000u64..3_600_000).step_by(37) {
        let shown = format_duration(ms);
        let secs = format!("{:.1}s", ms as f64 / 1000.0);
        assert!(shown.starts_with(&secs), "ms = {}: {} vs {}", ms, shown, secs);
    }
    for ms in [60_050u64, 60_150, 60_250, 61_250, 3_599_950, 3_600_050, 3_700_050, 86_400_050] {
        let secs = format!("({:.1}s)", ms as f64 / 1000.0);
        let shown = format_duration(ms);
        assert!(shown.contains(&secs) || shown.starts_with(&secs[1..secs.len() - 1]), "ms = {}: {}", ms, shown);
    }
}
