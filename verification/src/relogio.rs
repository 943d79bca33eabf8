use vstd::prelude::*;

verus! {

/// Relies on `chrono::Utc::now` and on `chrono::NaiveDate`'s ISO
/// year-month-day rendering for today's date. The result depends on the
/// clock, so nothing is promised of it; callers state what holds whatever
/// date comes back.
#[verifier::external_body]
pub(crate) fn data_de_hoje() -> String {
    chrono::Utc::now().naive_utc().date().to_string()
}

} // verus!
