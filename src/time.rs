//! Timestamps: parsing and formatting through chrono, and the time filters of
//! the command line.
use std::fmt::Write;
use vstd::prelude::*;

verus! {

/// Format of the dates that the log producer writes with `--date=iso`.
pub const LOG_DATE_FORMAT: &'static str = "%Y-%m-%d %H:%M:%S %z";

/// Format of a date and time without offset, read as UTC.
pub const DATE_TIME_FORMAT: &'static str = "%Y-%m-%d %H:%M:%S";

/// Format of a bare date, read as midnight UTC.
pub const DATE_FORMAT: &'static str = "%Y-%m-%d";

/// The instant that chrono reads from an RFC 3339 timestamp, in seconds since
/// the Unix epoch; `None` where chrono rejects the text.
pub uninterp spec fn rfc3339_of(s: Seq<char>) -> Option<i64>;

/// The instant that chrono reads from `s` with a format that includes an offset.
pub uninterp spec fn offset_datetime_of(s: Seq<char>, fmt: Seq<char>) -> Option<i64>;

/// The instant that chrono reads from `s` with a format without offset, as UTC.
pub uninterp spec fn naive_datetime_of(s: Seq<char>, fmt: Seq<char>) -> Option<i64>;

/// Midnight UTC of the date that chrono reads from `s` with a date format.
pub uninterp spec fn naive_date_of(s: Seq<char>, fmt: Seq<char>) -> Option<i64>;

/// The text that chrono writes for an instant (seconds since the epoch, UTC)
/// with a strftime format; `None` where the instant is out of chrono's range or
/// the format is invalid.
pub uninterp spec fn formatted_of(ts: i64, fmt: Seq<char>) -> Option<Seq<char>>;

/// Relies on `chrono::DateTime::parse_from_rfc3339` and `DateTime::timestamp`.
#[verifier::external_body]
fn parse_rfc3339(s: &str) -> (r: Option<i64>)
    ensures
        r == rfc3339_of(s@),
{
    match chrono::DateTime::parse_from_rfc3339(s) {
        Ok(dt) => Some(dt.timestamp()),
        Err(_) => None,
    }
}

/// Relies on `chrono::DateTime::parse_from_str` and `DateTime::timestamp`.
#[verifier::external_body]
fn parse_offset_datetime(s: &str, fmt: &str) -> (r: Option<i64>)
    ensures
        r == offset_datetime_of(s@, fmt@),
{
    match chrono::DateTime::parse_from_str(s, fmt) {
        Ok(dt) => Some(dt.timestamp()),
        Err(_) => None,
    }
}

/// Relies on `chrono::NaiveDateTime::parse_from_str`, read as UTC.
#[verifier::external_body]
fn parse_naive_datetime(s: &str, fmt: &str) -> (r: Option<i64>)
    ensures
        r == naive_datetime_of(s@, fmt@),
{
    match chrono::NaiveDateTime::parse_from_str(s, fmt) {
        Ok(dt) => Some(dt.and_utc().timestamp()),
        Err(_) => None,
    }
}

/// Relies on `chrono::NaiveDate::parse_from_str` and `NaiveDate::and_hms_opt`
/// at midnight, read as UTC.
#[verifier::external_body]
fn parse_naive_date(s: &str, fmt: &str) -> (r: Option<i64>)
    ensures
        r == naive_date_of(s@, fmt@),
{
    match chrono::NaiveDate::parse_from_str(s, fmt) {
        Ok(d) => match d.and_hms_opt(0, 0, 0) {
            Some(dt) => Some(dt.and_utc().timestamp()),
            None => None,
        },
        Err(_) => None,
    }
}

/// Relies on `chrono::DateTime::<Utc>::from_timestamp` and `DateTime::format`,
/// written out with `write!` so that an invalid format gives `None`.
#[verifier::external_body]
pub(crate) fn format_timestamp(ts: i64, fmt: &str) -> (r: Option<String>)
    ensures
        match r {
            Some(t) => formatted_of(ts, fmt@) == Some(t@),
            None => formatted_of(ts, fmt@).is_none(),
        },
{
    match chrono::DateTime::from_timestamp(ts, 0) {
        Some(dt) => {
            let mut out = String::new();
            match write!(out, "{}", dt.format(fmt)) {
                Ok(()) => Some(out),
                Err(_) => None,
            }
        },
        None => None,
    }
}

/// Relies on `chrono::Utc::now`: the current time in seconds since the epoch.
#[verifier::external_body]
pub(crate) fn now_seconds() -> (r: i64) {
    chrono::Utc::now().timestamp()
}

/// The instant of a commit date written by the log producer: RFC 3339 first,
/// then the log's own format, else `now`.
pub open spec fn log_date_value(d: Seq<char>, now: i64) -> i64 {
    match rfc3339_of(d) {
        Some(t) => t,
        None => match offset_datetime_of(d, LOG_DATE_FORMAT@) {
            Some(t) => t,
            None => now,
        },
    }
}

/// The first of two readings of a date that succeeded, else `fallback`.
pub fn first_reading(first: Option<i64>, second: Option<i64>, fallback: i64) -> (r: i64)
    ensures
        r == match first {
            Some(t) => t,
            None => match second {
                Some(t) => t,
                None => fallback,
            },
        },
{
    match first {
        Some(t) => t,
        None => match second {
            Some(t) => t,
            None => fallback,
        },
    }
}

/// Reads a commit date; an unreadable one becomes `now`.
pub fn parse_log_date(d: &str, now: i64) -> (r: i64)
    ensures
        r == log_date_value(d@, now),
{
    first_reading(parse_rfc3339(d), parse_offset_datetime(d, LOG_DATE_FORMAT), now)
}

/// Seconds named by the relative time words that the command line accepts.
pub open spec fn relative_secs(s: Seq<char>) -> Option<i64> {
    if s.len() != 2 {
        None
    } else if s[0] == '2' && s[1] == 'w' {
        Some(1209600)
    } else if s[0] == '1' && s[1] == 'w' {
        Some(604800)
    } else if s[0] == '3' && s[1] == 'd' {
        Some(259200)
    } else if s[0] == '2' && s[1] == 'd' {
        Some(172800)
    } else if s[0] == '1' && s[1] == 'd' {
        Some(86400)
    } else if s[0] == '1' && s[1] == 'h' {
        Some(3600)
    } else if s[0] == '6' && s[1] == 'h' {
        Some(21600)
    } else {
        None
    }
}

/// As `relative_secs`, with `12h` as well.
pub open spec fn relative_offset_of(s: Seq<char>) -> Option<i64> {
    if s.len() == 3 && s[0] == '1' && s[1] == '2' && s[2] == 'h' {
        Some(43200)
    } else {
        relative_secs(s)
    }
}

/// The instant that a time filter of the command line names, with `now` for
/// the relative forms; `None` where the text is none of the accepted forms.
pub open spec fn time_value(s: Seq<char>, now: i64) -> Option<i64> {
    match rfc3339_of(s) {
        Some(t) => Some(t),
        None => match naive_datetime_of(s, DATE_TIME_FORMAT@) {
            Some(t) => Some(t),
            None => match naive_date_of(s, DATE_FORMAT@) {
                Some(t) => Some(t),
                None => match relative_offset_of(s) {
                    Some(d) => Some((now - d) as i64),
                    None => None,
                },
            },
        },
    }
}

fn relative_offset(s: &[char]) -> (r: Option<i64>)
    ensures
        r == relative_offset_of(s@),
{
    if s.len() == 3 {
        if s[0] == '1' && s[1] == '2' && s[2] == 'h' {
            return Some(43200);
        }
        return None;
    }
    if s.len() != 2 {
        return None;
    }
    let (a, b) = (s[0], s[1]);
    if a == '2' && b == 'w' {
        Some(1209600)
    } else if a == '1' && b == 'w' {
        Some(604800)
    } else if a == '3' && b == 'd' {
        Some(259200)
    } else if a == '2' && b == 'd' {
        Some(172800)
    } else if a == '1' && b == 'd' {
        Some(86400)
    } else if a == '1' && b == 'h' {
        Some(3600)
    } else if a == '6' && b == 'h' {
        Some(21600)
    } else {
        None
    }
}

/// The instant of a time filter from the readings of its text, tried in
/// order: RFC 3339, date and time, bare date, then a relative offset counted
/// back from `now`.
pub fn time_from_readings(
    rfc: Option<i64>,
    date_time: Option<i64>,
    date: Option<i64>,
    relative: Option<i64>,
    now: i64,
) -> (r: Option<i64>)
    requires
        relative matches Some(d) ==> 0 <= d <= 1209600,
        now >= i64::MIN + 1209600,
    ensures
        r == match rfc {
            Some(t) => Some(t),
            None => match date_time {
                Some(t) => Some(t),
                None => match date {
                    Some(t) => Some(t),
                    None => match relative {
                        Some(d) => Some((now - d) as i64),
                        None => None,
                    },
                },
            },
        },
{
    if rfc.is_some() {
        rfc
    } else if date_time.is_some() {
        date_time
    } else if date.is_some() {
        date
    } else {
        match relative {
            Some(d) => Some(now - d),
            None => None,
        }
    }
}

/// Reads a time filter of the command line, relative forms counted back from
/// `now`.
pub fn parse_time_at(s: &str, now: i64) -> (r: Option<i64>)
    requires
        now >= i64::MIN + 1209600,
    ensures
        r == time_value(s@, now),
{
    let cs = crate::text::chars_of(s);
    time_from_readings(
        parse_rfc3339(s),
        parse_naive_datetime(s, DATE_TIME_FORMAT),
        parse_naive_date(s, DATE_FORMAT),
        relative_offset(cs.as_slice()),
        now,
    )
}

/// Reads a time filter of the command line against the current time: the
/// result is what `parse_time_at` gives for the clock's reading, and `None` if
/// the clock reads too far in the past for the relative forms.
pub fn parse_time(s: &str) -> (r: Option<i64>)
    ensures
        r is Some ==> exists|now: i64| r == #[trigger] time_value(s@, now),
        (forall|now: i64| #[trigger] time_value(s@, now) is None) ==> r is None,
        relative_offset_of(s@) is None && r is Some ==> r == time_value(s@, 0),
{
    let now = now_seconds();
    if now < i64::MIN + 1209600 {
        return None;
    }
    let r = parse_time_at(s, now);
    assert(r == time_value(s@, now));
    r
}

} // verus!
