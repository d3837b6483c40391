use vstd::prelude::*;

verus! {

/// Relies on chrono::Utc::now: the clock's reading in whole seconds since
/// the epoch. Which instant comes back is unknowable, so the callers
/// state what holds whatever it was; but a system clock set before the
/// epoch makes the call panic rather than return, so a returned reading
/// is never negative.
#[verifier::external_body]
pub(crate) fn now_seconds() -> (r: i64)
    ensures
        0 <= r,
{
    chrono::Utc::now().timestamp()
}

} // verus!
