//! The outside crates the core relies on, and what it assumes of them.

use vstd::prelude::*;

verus! {

/// `uuid::Uuid`, carried through the core as an opaque ride identifier.
#[verifier::external_type_specification]
#[verifier::external_body]
pub struct ExUuid(uuid::Uuid);

/// Relies on the derived `Clone` of `uuid::Uuid`, a `Copy` type: the clone is
/// the same identifier.
pub assume_specification[ <uuid::Uuid as Clone>::clone ](u: &uuid::Uuid) -> (r: uuid::Uuid)
    ensures
        r == *u,
;

/// Relies on `uuid::Uuid::new_v4`: a random (version 4) identifier. Nothing
/// is promised of its value.
#[verifier::external_body]
pub(crate) fn fresh_ride_id() -> (r: uuid::Uuid) {
    uuid::Uuid::new_v4()
}

/// Relies on `chrono::Utc::now` and `DateTime::timestamp`: the current time,
/// in whole seconds since the Unix epoch. Nothing is promised of its value.
/// `Utc::now` panics when the system clock reads a time before the epoch.
#[verifier::external_body]
pub(crate) fn unix_now() -> (r: i64) {
    chrono::Utc::now().timestamp()
}

} // verus!
