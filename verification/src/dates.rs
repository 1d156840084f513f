use vstd::prelude::*;

verus! {

/// Length of the trailing window the chart fetch asks for, in
/// milliseconds.
pub const THIRTY_DAYS_MS: i64 = 30 * 24 * 60 * 60 * 1000;

/// Last millisecond of year 9999: the range in which the date formatter
/// is used, so years always print as four digits.
pub const MAX_DATE_MS: i64 = 253_402_300_799_999;

/// What the calendar-date formatter prints for a UTC millisecond
/// timestamp, as `YYYY-MM-DD`: a fixed function of the timestamp alone.
pub uninterp spec fn date_string_of(ms: i64) -> Seq<char>;

/// Relies on `chrono::DateTime::from_timestamp_millis` and its
/// `%Y-%m-%d` formatting: for a timestamp in range the conversion
/// succeeds, and the printed UTC calendar date depends on the timestamp
/// alone.
#[verifier::external_body]
fn format_date_ymd(ms: i64) -> (r: String)
    requires
        0 <= ms <= MAX_DATE_MS,
    ensures
        r@ == date_string_of(ms),
{
    let dt = chrono::DateTime::<chrono::Utc>::from_timestamp_millis(ms).unwrap();
    dt.format("%Y-%m-%d").to_string()
}

/// Relies on `chrono::Utc::now`: the wall clock, of whose reading
/// nothing is promised.
#[verifier::external_body]
fn now_timestamp_ms() -> i64 {
    chrono::Utc::now().timestamp_millis()
}

/// The from/to dates of a trailing thirty-day window ending at the
/// given moment.
pub fn historical_range(now_ms: i64) -> (r: (String, String))
    requires
        THIRTY_DAYS_MS <= now_ms <= MAX_DATE_MS,
    ensures
        r.0@ == date_string_of((now_ms - THIRTY_DAYS_MS) as i64),
        r.1@ == date_string_of(now_ms),
{
    let from = format_date_ymd(now_ms - THIRTY_DAYS_MS);
    let to = format_date_ymd(now_ms);
    (from, to)
}

/// A trailing thirty-day window ending now, with the clock reading
/// clamped into the range the date formatter accepts.
pub fn trailing_month_window() -> (r: (String, String))
    ensures
        exists|ms: i64|
            THIRTY_DAYS_MS <= ms <= MAX_DATE_MS && r.0@ == date_string_of(
                (ms - THIRTY_DAYS_MS) as i64,
            ) && r.1@ == #[trigger] date_string_of(ms),
{
    let now = now_timestamp_ms();
    let clamped = if now < THIRTY_DAYS_MS {
        THIRTY_DAYS_MS
    } else if now > MAX_DATE_MS {
        MAX_DATE_MS
    } else {
        now
    };
    historical_range(clamped)
}

} // verus!
