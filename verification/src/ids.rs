use vstd::prelude::*;

verus! {

/// Relies on uuid::Uuid::new_v4: a freshly drawn random id, taken as its
/// 128-bit value. The draw is random, so nothing is promised of it; every
/// caller states what holds whatever id came back.
#[verifier::external_body]
pub(crate) fn fresh_id() -> u128 {
    uuid::Uuid::new_v4().as_u128()
}

} // verus!
