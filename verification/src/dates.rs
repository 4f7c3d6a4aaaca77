//! Reading the date-time texts that the database holds: RFC 3339, or
//! SQLite's own `YYYY-MM-DD HH:MM:SS` form taken as UTC. An instant is a
//! Unix time in whole seconds and the nanoseconds past them.

use vstd::prelude::*;
use crate::text::{chars_of, string_from_chars, trim_spec, trim_vec};

verus! {

/// The instant an RFC 3339 text denotes, if it is one.
pub uninterp spec fn rfc3339_instant(s: Seq<char>) -> Option<(i64, u32)>;

/// The instant a text denotes as a UTC date-time under a strftime pattern,
/// if it matches it.
pub uninterp spec fn naive_utc_instant(s: Seq<char>, pattern: Seq<char>) -> Option<(i64, u32)>;

/// chrono's `DateTime::parse_from_rfc3339`, converted to UTC: the named
/// instant of the text.
#[verifier::external_body]
pub(crate) fn parse_rfc3339(s: &str) -> (r: Option<(i64, u32)>)
    ensures
        r == rfc3339_instant(s@),
{
    chrono::DateTime::parse_from_rfc3339(s).ok().map(|dt| {
        let u = dt.with_timezone(&chrono::Utc);
        (u.timestamp(), u.timestamp_subsec_nanos())
    })
}

/// chrono's `NaiveDateTime::parse_from_str`, taken as UTC: the named
/// instant of the text under the pattern.
#[verifier::external_body]
pub(crate) fn parse_naive_utc(s: &str, pattern: &str) -> (r: Option<(i64, u32)>)
    ensures
        r == naive_utc_instant(s@, pattern@),
{
    chrono::NaiveDateTime::parse_from_str(s, pattern).ok().map(|n| {
        let u = n.and_utc();
        (u.timestamp(), u.timestamp_subsec_nanos())
    })
}

/// How a stored date-time is read: trimmed, then RFC 3339, then the
/// SQLite forms with and without fractional seconds, with a space or a 'T'
/// between date and time, taken as UTC; none when no form fits.
pub open spec fn stored_instant(s: Seq<char>) -> Option<(i64, u32)> {
    let t = trim_spec(s);
    if rfc3339_instant(t) is Some {
        rfc3339_instant(t)
    } else if naive_utc_instant(t, "%Y-%m-%d %H:%M:%S%.f"@) is Some {
        naive_utc_instant(t, "%Y-%m-%d %H:%M:%S%.f"@)
    } else if naive_utc_instant(t, "%Y-%m-%dT%H:%M:%S%.f"@) is Some {
        naive_utc_instant(t, "%Y-%m-%dT%H:%M:%S%.f"@)
    } else if naive_utc_instant(t, "%Y-%m-%d %H:%M:%S"@) is Some {
        naive_utc_instant(t, "%Y-%m-%d %H:%M:%S"@)
    } else {
        naive_utc_instant(t, "%Y-%m-%dT%H:%M:%S"@)
    }
}

/// A stored date-time that fits none of the accepted forms.
#[derive(Debug, Clone, Copy, PartialEq, Eq)]
pub struct MalformedDate;

/// Read a stored date-time (see [`stored_instant`]).
pub fn parse_stored_datetime(s: &str) -> (r: Result<(i64, u32), MalformedDate>)
    ensures
        match stored_instant(s@) {
            Some(i) => r == Ok::<(i64, u32), MalformedDate>(i),
            None => r is Err,
        },
{
    let t = trim_vec(&chars_of(s));
    let ts = string_from_chars(t.as_slice());
    if let Some(i) = parse_rfc3339(ts.as_str()) {
        return Ok(i);
    }
    if let Some(i) = parse_naive_utc(ts.as_str(), "%Y-%m-%d %H:%M:%S%.f") {
        return Ok(i);
    }
    if let Some(i) = parse_naive_utc(ts.as_str(), "%Y-%m-%dT%H:%M:%S%.f") {
        return Ok(i);
    }
    if let Some(i) = parse_naive_utc(ts.as_str(), "%Y-%m-%d %H:%M:%S") {
        return Ok(i);
    }
    match parse_naive_utc(ts.as_str(), "%Y-%m-%dT%H:%M:%S") {
        Some(i) => Ok(i),
        None => Err(MalformedDate),
    }
}

/// Read a date-time column that the schema declares NOT NULL: a NULL or
/// blank value reads as the Unix epoch, so that a damaged row still loads;
/// any other value is read as [`parse_stored_datetime`] reads it.
pub fn parse_required_datetime(v: Option<String>) -> (r: Result<(i64, u32), MalformedDate>)
    ensures
        match v {
            None => r == Ok::<(i64, u32), MalformedDate>((0, 0)),
            Some(s) => if trim_spec(s@).len() == 0 {
                r == Ok::<(i64, u32), MalformedDate>((0, 0))
            } else {
                match stored_instant(s@) {
                    Some(i) => r == Ok::<(i64, u32), MalformedDate>(i),
                    None => r is Err,
                }
            },
        },
{
    match v {
        None => Ok((0, 0)),
        Some(s) => {
            if trim_vec(&chars_of(s.as_str())).len() == 0 {
                Ok((0, 0))
            } else {
                parse_stored_datetime(s.as_str())
            }
        },
    }
}

/// How a date-time column that the schema declares NOT NULL is read (see
/// [`parse_required_datetime`]); none when its text is malformed.
pub open spec fn required_instant(v: Option<String>) -> Option<(i64, u32)> {
    match v {
        None => Some((0, 0)),
        Some(s) => if trim_spec(s@).len() == 0 {
            Some((0, 0))
        } else {
            stored_instant(s@)
        },
    }
}

/// How an optional date-time column is read: NULL or an empty text is no
/// date, any other text is read as [`parse_stored_datetime`] reads it; none
/// when that text is malformed.
pub open spec fn optional_instant(v: Option<String>) -> Option<Option<(i64, u32)>> {
    match v {
        None => Some(None),
        Some(s) => if s@.len() == 0 {
            Some(None)
        } else {
            match stored_instant(s@) {
                Some(i) => Some(Some(i)),
                None => None,
            }
        },
    }
}

/// Read an optional date-time column (see [`optional_instant`]).
pub fn parse_optional_datetime(v: Option<String>) -> (r: Result<Option<(i64, u32)>, MalformedDate>)
    ensures
        match optional_instant(v) {
            Some(d) => r == Ok::<Option<(i64, u32)>, MalformedDate>(d),
            None => r is Err,
        },
{
    match v {
        None => Ok(None),
        Some(s) => {
            if chars_of(s.as_str()).len() == 0 {
                Ok(None)
            } else {
                match parse_stored_datetime(s.as_str()) {
                    Ok(i) => Ok(Some(i)),
                    Err(e) => Err(e),
                }
            }
        },
    }
}

} // verus!
