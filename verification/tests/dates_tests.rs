//! Reading stored date-times.

use bead_forge::dates::{parse_required_datetime, parse_stored_datetime};

#[test]
fn accepts_rfc3339_and_sqlite_native_formats() {
    assert!(parse_stored_datetime("2026-05-15T20:00:00+00:00").is_ok());
    assert_eq!(parse_stored_datetime("2026-05-24T02:26:10.191834420+00:00"), Ok((1779589570, 191834420)));
    assert_eq!(parse_stored_datetime("2026-05-15 21:10:36"), Ok((1778879436, 0)));
    assert_eq!(parse_stored_datetime("2026-05-15T21:10:36"), Ok((1778879436, 0)));
    assert_eq!(parse_stored_datetime("2026-05-15 21:10:36.5"), Ok((1778879436, 500_000_000)));
    assert!(parse_stored_datetime("not a date").is_err());
    assert!(parse_stored_datetime("").is_err());
}

#[test]
fn required_datetime_tolerates_null_and_empty() {
    assert_eq!(parse_required_datetime(None), Ok((0, 0)));
    assert_eq!(parse_required_datetime(Some(String::new())), Ok((0, 0)));
    assert_eq!(parse_required_datetime(Some("   ".to_string())), Ok((0, 0)));
    assert_eq!(parse_required_datetime(Some("2026-05-15 21:10:36".to_string())), Ok((1778879436, 0)));
    assert!(parse_required_datetime(Some("not a date".to_string())).is_err());
}
