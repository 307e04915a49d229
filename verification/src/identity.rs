//! Identity tokens for shapes.
//!
//! Every shape owns a universally unique identifier; shapes are compared by
//! identity, never by their geometry.

use vstd::prelude::*;

verus! {

#[verifier::external_type_specification]
#[verifier::external_body]
pub struct ExUuid(uuid::Uuid);

/// Relies on the derived `Clone` of `uuid::Uuid`, which, as the type is
/// `Copy`, hands back the very same value.
pub assume_specification[ <uuid::Uuid as core::clone::Clone>::clone ](a: &uuid::Uuid) -> (r:
    uuid::Uuid)
    ensures
        r == *a,
;

/// Relies on `uuid::Uuid::new_v4`, which draws a fresh random
/// version-4 identifier; nothing can be promised about its value.
#[verifier::external_body]
pub(crate) fn fresh_id() -> (r: uuid::Uuid) {
    uuid::Uuid::new_v4()
}

/// Relies on the derived `PartialEq` of `uuid::Uuid`, which compares the
/// sixteen identifier bytes, so the answer agrees with value equality.
#[verifier::external_body]
pub(crate) fn id_eq(a: uuid::Uuid, b: uuid::Uuid) -> (r: bool)
    ensures
        r == (a == b),
{
    a == b
}

} // verus!
