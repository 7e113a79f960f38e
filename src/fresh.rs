//! Values that only the outside world can supply: random ids and the clock.
use vstd::prelude::*;

verus! {

/// Relies on uuid::Uuid::new_v4 for a random version-4 UUID, and on its
/// `Display`, which writes the 36-character hyphenated lower-case form.
/// Nothing is promised of the value itself: it is drawn at random.
#[verifier::external_body]
pub(crate) fn random_uuid() -> (r: String)
    ensures
        r@.len() == 36,
{
    uuid::Uuid::new_v4().to_string()
}

/// Relies on chrono::Utc::now for the current UTC time, written out by
/// `DateTime::to_rfc3339`. It depends on the clock, so nothing is promised
/// of it.
#[verifier::external_body]
pub(crate) fn utc_timestamp() -> (r: String) {
    chrono::Utc::now().to_rfc3339()
}

} // verus!
