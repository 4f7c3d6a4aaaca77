//! The back-off of a transaction that finds the database busy.

use bead_forge::retry::{busy_backoff_ms, MAX_RETRIES, RETRY_BASE_MS};

#[test]
fn backoff_grows_linearly_then_gives_up() {
    assert_eq!(MAX_RETRIES, 5);
    assert_eq!(RETRY_BASE_MS, 50);
    assert_eq!(busy_backoff_ms(0), Some(50));
    assert_eq!(busy_backoff_ms(1), Some(100));
    assert_eq!(busy_backoff_ms(4), Some(250));
    assert_eq!(busy_backoff_ms(5), None);
    assert_eq!(busy_backoff_ms(u32::MAX), None);
}

#[test]
fn total_wait_is_at_most_750_ms() {
    let total: u64 = (0..100).filter_map(busy_backoff_ms).sum();
    assert_eq!(total, 750);
}
