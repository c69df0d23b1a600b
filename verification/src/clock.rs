use vstd::prelude::*;

verus! {

/// Relies on chrono::Local::now and chrono::DateTime::format: the current
/// local time rendered as "YYYY-MM-DD HH:MM:SS". The value depends on the
/// system clock and time zone, so nothing is promised of the result.
#[verifier::external_body]
pub fn local_timestamp() -> String {
    chrono::Local::now().format("%Y-%m-%d %H:%M:%S").to_string()
}

} // verus!
