//! Reading the clock and writing times in the machine's local time zone.
use vstd::prelude::*;

verus! {

/// Relies on chrono's `Utc::now` and `DateTime::timestamp`: the current time,
/// in whole seconds since the Unix epoch. Nothing is known of the value.
#[verifier::external_body]
pub(crate) fn now_unix_seconds() -> (r: i64) {
    chrono::Utc::now().timestamp()
}

/// Relies on chrono's `Local::now` and `DateTime::format`: today's date in
/// local time, written `YYYY-MM-DD`. It depends on the clock and the
/// machine's time zone, so nothing is known of the text.
#[verifier::external_body]
pub(crate) fn local_date_today() -> (r: String) {
    chrono::Local::now().format("%Y-%m-%d").to_string()
}

/// Relies on chrono's `DateTime::from_timestamp`, `with_timezone(&Local)` and
/// `format`: the moment `secs` seconds after the Unix epoch, in local time,
/// written `YYYY-MM-DD HH:MM:SS`; empty where chrono cannot represent it. It
/// depends on the machine's time zone, so nothing is known of the text.
#[verifier::external_body]
pub(crate) fn local_time_text(secs: i64) -> (r: String) {
    match chrono::DateTime::from_timestamp(secs, 0) {
        Some(t) => t.with_timezone(&chrono::Local).format("%Y-%m-%d %H:%M:%S").to_string(),
        None => String::new(),
    }
}

} // verus!
