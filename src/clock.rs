use vstd::prelude::*;

verus! {

/// Relies on `std::time::SystemTime::now`, chrono's
/// `From<SystemTime> for DateTime<Utc>` and `DateTime::timestamp_millis`: the
/// current wall-clock time in milliseconds since the Unix epoch, negative for
/// a clock set before the epoch. The conversion handles times on both sides of
/// the epoch without panicking for any clock within chrono's range (about
/// 262,000 years either way). Nothing is promised of the value, which comes
/// from the machine's clock.
#[verifier::external_body]
pub(crate) fn now_millis() -> (r: i64) {
    chrono::DateTime::<chrono::Utc>::from(std::time::SystemTime::now()).timestamp_millis()
}

} // verus!
